use activation_proxy::{
    Action, ActivationQuery, Degradation, Event, Failure, ForwardOutcome, Handler, Phase, Reply,
    Synthesized,
};

/// A stand-in for an upstream's response.
#[derive(Debug, Clone, PartialEq, Eq)]
struct Upstream {
    status: u16,
    headers: Vec<(String, String)>,
    body: Vec<u8>,
}

const AUTHORITY: &str = "http://activator.internal:7000/";

fn handler() -> Handler {
    Handler::new(AUTHORITY.to_string())
}

fn request(host: &[u8]) -> Event<Upstream> {
    Event::RequestReceived { host_header: Some(host.to_vec()) }
}

fn body(bytes: &[u8]) -> Event<Upstream> {
    Event::ActivationBodyRead { body: bytes.to_vec() }
}

fn sample_upstream() -> Upstream {
    Upstream {
        status: 207,
        headers: vec![
            ("content-type".to_string(), "text/plain".to_string()),
            ("x-served-by".to_string(), "backend-3".to_string()),
        ],
        body: b"hello from upstream\xff\x00".to_vec(),
    }
}

/// Every event there is, one of each kind and both kinds of request.
fn all_events() -> Vec<Event<Upstream>> {
    vec![
        Event::RequestReceived { host_header: None },
        request(b"other.example"),
        request(b"\xff"),
        Event::ActivationUnreachable,
        Event::ActivationAnswered { status: 200 },
        Event::ActivationAnswered { status: 404 },
        Event::ActivationBodyUnreadable,
        body(b"http://10.9.9.9:1"),
        body(b"\xff"),
        Event::ForwardFinished(ForwardOutcome::Answered(sample_upstream())),
        Event::ForwardFinished(ForwardOutcome::InvalidUri),
        Event::ForwardFinished(ForwardOutcome::ForwardHeaderFailed),
        Event::ForwardFinished(ForwardOutcome::UpstreamFailed),
    ]
}

/// Runs a fresh handler over `events` and collects what it asks for.
fn run(events: Vec<Event<Upstream>>) -> (Handler, Vec<Action<Upstream>>) {
    let mut handler = handler();
    let mut actions = Vec::new();
    for event in events {
        if let Some(action) = handler.step(event) {
            actions.push(action);
        }
    }
    (handler, actions)
}

fn sent(reply: Reply<Upstream>) -> Synthesized {
    reply.into_response().unwrap_err()
}

fn expect_finished_and_deaf(mut handler: Handler) {
    assert_eq!(handler.phase(), Phase::Responded);
    assert!(handler.is_finished());
    for event in all_events() {
        assert_eq!(handler.step(event), None);
        assert_eq!(handler.phase(), Phase::Responded);
    }
}

#[test]
fn new_handler_is_at_the_start() {
    let handler = handler();
    assert_eq!(handler.phase(), Phase::Start);
    assert!(!handler.is_finished());
}

#[test]
fn missing_host_is_a_500_without_any_call() {
    let mut handler = handler();
    let action = handler.step::<Upstream>(Event::RequestReceived { host_header: None });
    assert_eq!(action, Some(Action::Respond(Reply::Failed(Failure::MissingHost))));
    let response = sent(Reply::Failed(Failure::MissingHost));
    assert_eq!(response.status, 500);
    assert_eq!(response.body, "Missing host header");
    expect_finished_and_deaf(handler);
}

#[test]
fn undecodable_host_is_a_500_without_any_call() {
    let (handler, actions) = run(vec![request(b"caf\xe9.example")]);
    assert_eq!(actions, vec![Action::Respond(Reply::Failed(Failure::InvalidHostEncoding))]);
    let response = sent(Reply::Failed(Failure::InvalidHostEncoding));
    assert_eq!(response.status, 500);
    assert_eq!(response.body, "Cannot convert host");
    expect_finished_and_deaf(handler);
}

#[test]
fn valid_host_brings_one_activation_query_with_the_host_as_body() {
    let mut handler = handler();
    let action = handler.step(request(b"app.example.com"));
    assert_eq!(
        action,
        Some(Action::Activate(ActivationQuery {
            method: "POST".to_string(),
            target: AUTHORITY.to_string(),
            body: "app.example.com".to_string(),
        }))
    );
    assert_eq!(handler.phase(), Phase::HostExtracted);
    assert!(!handler.is_finished());
}

#[test]
fn no_run_asks_for_a_second_activation() {
    let mut events = vec![request(b"app.example.com")];
    events.extend(all_events());
    events.extend(all_events());
    let (_, actions) = run(events);
    let activations =
        actions.iter().filter(|action| matches!(action, Action::Activate(_))).count();
    assert_eq!(activations, 1);
    assert!(matches!(actions[0], Action::Activate(_)));
}

#[test]
fn activation_200_leads_to_reading_the_body() {
    let mut handler = handler();
    handler.step(request(b"app.example.com"));
    let action = handler.step::<Upstream>(Event::ActivationAnswered { status: 200 });
    assert_eq!(action, Some(Action::ReadActivationBody));
    assert_eq!(handler.phase(), Phase::ActivationAccepted);
}

#[test]
fn resolved_url_is_the_forward_target() {
    let (handler, actions) = run(vec![
        request(b"app.example.com"),
        Event::ActivationAnswered { status: 200 },
        body(b"http://10.0.0.5:9000"),
    ]);
    assert_eq!(actions.len(), 3);
    assert_eq!(
        actions[2],
        Action::Forward { upstream_url: "http://10.0.0.5:9000".to_string() }
    );
    assert_eq!(handler.phase(), Phase::Activated);
}

#[test]
fn activation_404_is_a_500_without_a_forward() {
    let mut events =
        vec![request(b"app.example.com"), Event::ActivationAnswered { status: 404 }];
    events.extend(all_events());
    let (handler, actions) = run(events);
    assert_eq!(actions.len(), 2);
    assert!(matches!(actions[0], Action::Activate(_)));
    assert_eq!(
        actions[1],
        Action::Respond(Reply::Failed(Failure::ActivationRejected { status: 404 }))
    );
    let response = sent(Reply::Failed(Failure::ActivationRejected { status: 404 }));
    assert_eq!(response.status, 500);
    assert_eq!(response.body, "Cannot reach actication server.");
    expect_finished_and_deaf(handler);
}

#[test]
fn activation_with_any_other_status_is_rejected() {
    for status in [0u16, 199, 201, 204, 302, 500, 503, u16::MAX] {
        let (handler, actions) =
            run(vec![request(b"h"), Event::ActivationAnswered { status }, body(b"http://a")]);
        assert_eq!(actions.len(), 2);
        assert_eq!(
            actions[1],
            Action::Respond(Reply::Failed(Failure::ActivationRejected { status }))
        );
        assert!(handler.is_finished());
    }
}

#[test]
fn unreachable_activation_is_a_500() {
    let (handler, actions) = run(vec![request(b"app.example.com"), Event::ActivationUnreachable]);
    assert_eq!(actions.len(), 2);
    assert_eq!(actions[1], Action::Respond(Reply::Failed(Failure::ActivationUnreachable)));
    let response = sent(Reply::Failed(Failure::ActivationUnreachable));
    assert_eq!(response.status, 500);
    assert_eq!(response.body, "Cannot reach actication server.");
    expect_finished_and_deaf(handler);
}

#[test]
fn unreadable_activation_body_is_a_500() {
    let (handler, actions) = run(vec![
        request(b"app.example.com"),
        Event::ActivationAnswered { status: 200 },
        Event::ActivationBodyUnreadable,
    ]);
    assert_eq!(actions.len(), 3);
    assert_eq!(actions[2], Action::Respond(Reply::Failed(Failure::ActivationBodyUnreadable)));
    assert_eq!(sent(Reply::Failed(Failure::ActivationBodyUnreadable)).status, 500);
    expect_finished_and_deaf(handler);
}

#[test]
fn undecodable_activation_body_is_a_500() {
    let (handler, actions) = run(vec![
        request(b"app.example.com"),
        Event::ActivationAnswered { status: 200 },
        body(b"http://10.0.0.5:9000\xff"),
    ]);
    assert_eq!(actions.len(), 3);
    assert_eq!(actions[2], Action::Respond(Reply::Failed(Failure::ActivationBodyUndecodable)));
    assert_eq!(sent(Reply::Failed(Failure::ActivationBodyUndecodable)).status, 500);
    expect_finished_and_deaf(handler);
}

#[test]
fn invalid_upstream_uri_is_a_500() {
    for url in ["", "http://exa mple", "not a uri"] {
        let (handler, actions) = run(vec![
            request(b"app.example.com"),
            Event::ActivationAnswered { status: 200 },
            body(url.as_bytes()),
            Event::ForwardFinished(ForwardOutcome::InvalidUri),
        ]);
        assert_eq!(actions.len(), 4);
        assert_eq!(actions[2], Action::Forward { upstream_url: url.to_string() });
        assert_eq!(actions[3], Action::Respond(Reply::Failed(Failure::UpstreamUriInvalid)));
        let response = sent(Reply::Failed(Failure::UpstreamUriInvalid));
        assert_eq!(response.status, 500);
        assert_eq!(response.body, "Cannot reach actication server.");
        expect_finished_and_deaf(handler);
    }
}

#[test]
fn empty_activation_body_is_handed_to_the_forwarder_as_it_is() {
    let (_, actions) =
        run(vec![request(b"app.example"), Event::ActivationAnswered { status: 200 }, body(b"")]);
    assert_eq!(actions[2], Action::Forward { upstream_url: String::new() });
}

#[test]
fn upstream_response_passes_through_unchanged() {
    let upstream = sample_upstream();
    let (handler, actions) = run(vec![
        request(b"app.example.com"),
        Event::ActivationAnswered { status: 200 },
        body(b"http://10.0.0.5:9000"),
        Event::ForwardFinished(ForwardOutcome::Answered(upstream.clone())),
    ]);
    assert_eq!(
        actions,
        vec![
            Action::Activate(ActivationQuery {
                method: "POST".to_string(),
                target: AUTHORITY.to_string(),
                body: "app.example.com".to_string(),
            }),
            Action::ReadActivationBody,
            Action::Forward { upstream_url: "http://10.0.0.5:9000".to_string() },
            Action::Respond(Reply::Relayed(upstream.clone())),
        ]
    );
    assert_eq!(Reply::Relayed(upstream.clone()).into_response(), Ok(upstream));
    expect_finished_and_deaf(handler);
}

#[test]
fn upstream_error_statuses_pass_through_too() {
    for status in [404u16, 500, 503] {
        let upstream = Upstream { status, headers: Vec::new(), body: Vec::new() };
        let (_, mut actions) = run(vec![
            request(b"h"),
            Event::ActivationAnswered { status: 200 },
            body(b"http://a"),
            Event::ForwardFinished(ForwardOutcome::Answered(upstream.clone())),
        ]);
        match actions.pop() {
            Some(Action::Respond(reply)) => assert_eq!(reply.into_response(), Ok(upstream)),
            other => panic!("no reply: {:?}", other),
        }
    }
}

#[test]
fn refused_upstream_is_a_503_with_a_text() {
    let (handler, actions) = run(vec![
        request(b"app.example.com"),
        Event::ActivationAnswered { status: 200 },
        body(b"http://10.0.0.5:9000"),
        Event::ForwardFinished(ForwardOutcome::UpstreamFailed),
    ]);
    assert_eq!(actions.len(), 4);
    assert_eq!(actions[3], Action::Respond(Reply::Degraded(Degradation::UpstreamUnreachable)));
    let response = sent(Reply::Degraded(Degradation::UpstreamUnreachable));
    assert_eq!(response.status, 503);
    assert!(!response.body.is_empty());
    assert_eq!(response.body, "Upstream cannot be reached after activation.");
    expect_finished_and_deaf(handler);
}

#[test]
fn forward_header_trouble_is_a_503_without_body() {
    let (handler, actions) = run(vec![
        request(b"app.example.com"),
        Event::ActivationAnswered { status: 200 },
        body(b"http://10.0.0.5:9000"),
        Event::ForwardFinished(ForwardOutcome::ForwardHeaderFailed),
    ]);
    assert_eq!(actions.len(), 4);
    assert_eq!(actions[3], Action::Respond(Reply::Degraded(Degradation::ForwardHeader)));
    let response = sent(Reply::Degraded(Degradation::ForwardHeader));
    assert_eq!(response.status, 503);
    assert_eq!(response.body, "");
    expect_finished_and_deaf(handler);
}

#[test]
fn events_that_are_not_awaited_change_nothing() {
    // what each phase awaits, by position in `all_events`
    let awaited: [(Vec<Event<Upstream>>, Phase, Vec<usize>); 4] = [
        (vec![], Phase::Start, vec![0, 1, 2]),
        (vec![request(b"h")], Phase::HostExtracted, vec![3, 4, 5]),
        (
            vec![request(b"h"), Event::ActivationAnswered { status: 200 }],
            Phase::ActivationAccepted,
            vec![6, 7, 8],
        ),
        (
            vec![request(b"h"), Event::ActivationAnswered { status: 200 }, body(b"http://a")],
            Phase::Activated,
            vec![9, 10, 11, 12],
        ),
    ];
    for (prefix, phase, awaited_here) in awaited {
        for (at, event) in all_events().into_iter().enumerate() {
            let (mut handler, _) = run(prefix.clone());
            assert_eq!(handler.phase(), phase);
            let action = handler.step(event);
            if awaited_here.contains(&at) {
                assert!(action.is_some());
                assert_ne!(handler.phase(), phase);
            } else {
                assert_eq!(action, None);
                assert_eq!(handler.phase(), phase);
            }
        }
    }
}

fn stage(action: &Action<Upstream>) -> u8 {
    match action {
        Action::Activate(_) => 1,
        Action::ReadActivationBody => 2,
        Action::Forward { .. } => 3,
        Action::Respond(_) => 4,
    }
}

#[test]
fn actions_come_in_pipeline_order_whatever_is_reported() {
    // every sequence of three events, then everything once more
    let count = all_events().len();
    for a in 0..count {
        for b in 0..count {
            for c in 0..count {
                let mut events = Vec::new();
                for at in [a, b, c] {
                    events.push(all_events().swap_remove(at));
                }
                events.extend(all_events());
                let (handler, actions) = run(events);
                assert!(actions.len() <= 4);
                for pair in actions.windows(2) {
                    assert!(stage(&pair[0]) < stage(&pair[1]));
                }
                let replies =
                    actions.iter().filter(|action| matches!(action, Action::Respond(_))).count();
                assert!(replies <= 1);
                assert_eq!(handler.is_finished(), replies == 1);
            }
        }
    }
}

#[test]
fn a_driver_that_answers_gets_its_reply_within_four_reports() {
    let reports = [
        vec![Event::ActivationUnreachable, Event::ActivationAnswered { status: 200 }],
        vec![Event::ActivationBodyUnreadable, body(b"http://10.0.0.5:9000")],
        vec![
            Event::ForwardFinished(ForwardOutcome::Answered(sample_upstream())),
            Event::ForwardFinished(ForwardOutcome::UpstreamFailed),
        ],
    ];
    // every way to answer: the first or the second report at each stage
    for choice in 0..8usize {
        let mut handler = handler();
        let mut action = handler.step(request(b"app.example.com"));
        let mut taken = 1;
        for (at, stage_reports) in reports.iter().enumerate() {
            match action {
                Some(Action::Respond(_)) => break,
                Some(_) => {}
                None => panic!("an awaited report was ignored"),
            }
            action = handler.step(stage_reports[(choice >> at) & 1].clone());
            taken += 1;
        }
        assert!(matches!(action, Some(Action::Respond(_))));
        assert!(taken <= 4);
        assert!(handler.is_finished());
    }
}

#[test]
fn interleaved_requests_are_handled_as_if_alone() {
    let first = || {
        vec![
            request(b"one.example"),
            Event::ActivationAnswered { status: 200 },
            body(b"http://10.0.0.1:9000"),
            Event::ForwardFinished(ForwardOutcome::Answered(Upstream {
                status: 200,
                headers: vec![("x-backend".to_string(), "one".to_string())],
                body: b"one".to_vec(),
            })),
        ]
    };
    let second = || {
        vec![
            request(b"two.example"),
            Event::ActivationAnswered { status: 200 },
            body(b"http://10.0.0.2:9000"),
            Event::ForwardFinished(ForwardOutcome::UpstreamFailed),
        ]
    };
    let third = || vec![request(b"three.example"), Event::ActivationAnswered { status: 404 }];
    let (_, alone_first) = run(first());
    let (_, alone_second) = run(second());
    let (_, alone_third) = run(third());

    // the same events, dealt out in turn to three handlers that run side by side
    let mut handlers = [handler(), handler(), handler()];
    let mut pending = [first(), second(), third()];
    for events in pending.iter_mut() {
        events.reverse();
    }
    let mut mixed: [Vec<Action<Upstream>>; 3] = [Vec::new(), Vec::new(), Vec::new()];
    let order = [0usize, 1, 2, 2, 1, 0, 1, 0, 0, 1];
    for id in order {
        let event = pending[id].pop().unwrap();
        if let Some(action) = handlers[id].step(event) {
            mixed[id].push(action);
        }
    }
    assert!(pending.iter().all(|events| events.is_empty()));
    assert_eq!(mixed[0], alone_first);
    assert_eq!(mixed[1], alone_second);
    assert_eq!(mixed[2], alone_third);
    assert_eq!(
        mixed[0][0],
        Action::Activate(ActivationQuery {
            method: "POST".to_string(),
            target: AUTHORITY.to_string(),
            body: "one.example".to_string(),
        })
    );
    assert_eq!(mixed[1][2], Action::Forward { upstream_url: "http://10.0.0.2:9000".to_string() });
    assert_eq!(
        mixed[2][1],
        Action::Respond(Reply::Failed(Failure::ActivationRejected { status: 404 }))
    );
}
