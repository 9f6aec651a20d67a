use daktilo_nvim::driver::{connect_failure, Driver, DriverEffect, DriverEvent, DriverState};
use daktilo_nvim::event::{BufInfo, MessageEvent, ReportCursorMovementRequest};

fn run(driver: &mut Driver, events: Vec<DriverEvent>) -> Vec<DriverEffect> {
    let mut effects = Vec::new();
    for event in events {
        effects.extend(driver.step(event));
    }
    effects
}

fn notice(err: bool, text: &str) -> DriverEffect {
    DriverEffect::Enqueue(MessageEvent::new(err, text.to_string()))
}

fn cursor(name: &str, line: usize, col: usize) -> DriverEvent {
    DriverEvent::Cursor(BufInfo::new(Some(name.to_string()), (line, col)))
}

fn report(name: &str, line: u64, col: u64) -> DriverEffect {
    DriverEffect::Report(ReportCursorMovementRequest {
        file_path: Some(name.to_string()),
        line_number: Some(line),
        column_number: col,
    })
}

#[test]
fn new_driver_is_connecting() {
    let driver = Driver::new(50051);
    assert_eq!(driver.state(), DriverState::Connecting);
    assert_eq!(driver.port(), 50051);
    assert_eq!(driver.address(), "http://[::1]:50051");
}

#[test]
fn successful_connection_is_announced_once() {
    let mut driver = Driver::new(50051);
    let effects = driver.step(DriverEvent::Connected);
    assert_eq!(effects, vec![notice(false, "Connected to server"), DriverEffect::Wake]);
    assert_eq!(driver.state(), DriverState::Streaming);
}

#[test]
fn failed_connection_gives_one_error_and_closes() {
    let mut driver = Driver::new(50051);
    let effects = driver.step(DriverEvent::ConnectFailed("transport error".to_string()));
    assert_eq!(
        effects,
        vec![
            notice(true, "Failed to connect to server http://[::1]:50051: transport error"),
            DriverEffect::Wake,
        ]
    );
    assert_eq!(driver.state(), DriverState::Closed);
}

#[test]
fn failed_connection_is_followed_by_nothing() {
    let mut driver = Driver::new(4000);
    let effects = run(
        &mut driver,
        vec![
            DriverEvent::ConnectFailed("refused".to_string()),
            DriverEvent::Connected,
            cursor("a.rs", 1, 0),
            DriverEvent::ReportFailed,
            DriverEvent::OutboundClosed,
            DriverEvent::ConnectFailed("again".to_string()),
        ],
    );
    assert_eq!(
        effects,
        vec![
            notice(true, "Failed to connect to server http://[::1]:4000: refused"),
            DriverEffect::Wake,
        ]
    );
    assert_eq!(driver.state(), DriverState::Closed);
}

#[test]
fn failure_message_names_address_and_cause() {
    assert_eq!(
        connect_failure(50051, "connection refused"),
        MessageEvent {
            err: true,
            message: "Failed to connect to server http://[::1]:50051: connection refused"
                .to_string(),
        }
    );
}

#[test]
fn failure_message_with_empty_cause() {
    assert_eq!(
        connect_failure(0, "").message,
        "Failed to connect to server http://[::1]:0: "
    );
}

#[test]
fn cursor_in_main_rs_is_reported() {
    let mut driver = Driver::new(50051);
    driver.step(DriverEvent::Connected);
    let effects = driver.step(cursor("main.rs", 5, 3));
    assert_eq!(effects, vec![report("main.rs", 4, 3)]);
    assert_eq!(driver.state(), DriverState::Streaming);
}

#[test]
fn cursors_are_reported_in_arrival_order() {
    let mut driver = Driver::new(50051);
    driver.step(DriverEvent::Connected);
    let effects = run(
        &mut driver,
        vec![
            cursor("a.rs", 3, 1),
            cursor("b.rs", 1, 0),
            cursor("a.rs", 3, 2),
            cursor("a.rs", 3, 1),
        ],
    );
    assert_eq!(
        effects,
        vec![
            report("a.rs", 2, 1),
            report("b.rs", 0, 0),
            report("a.rs", 2, 2),
            report("a.rs", 2, 1),
        ]
    );
    assert_eq!(driver.state(), DriverState::Streaming);
}

#[test]
fn connection_notice_comes_before_every_report() {
    let mut driver = Driver::new(50051);
    let effects = run(
        &mut driver,
        vec![DriverEvent::Connected, cursor("a.rs", 1, 0), cursor("a.rs", 1, 1)],
    );
    assert_eq!(
        effects,
        vec![
            notice(false, "Connected to server"),
            DriverEffect::Wake,
            report("a.rs", 0, 0),
            report("a.rs", 0, 1),
        ]
    );
}

#[test]
fn complete_session_from_connection_to_close() {
    let mut driver = Driver::new(50051);
    let effects = run(
        &mut driver,
        vec![
            DriverEvent::Connected,
            cursor("main.rs", 5, 3),
            cursor("main.rs", 5, 4),
            cursor("lib.rs", 1, 0),
            DriverEvent::OutboundClosed,
        ],
    );
    assert_eq!(
        effects,
        vec![
            notice(false, "Connected to server"),
            DriverEffect::Wake,
            report("main.rs", 4, 3),
            report("main.rs", 4, 4),
            report("lib.rs", 0, 0),
            notice(false, "Client disconnected"),
            DriverEffect::Wake,
        ]
    );
    assert_eq!(driver.state(), DriverState::Closed);
}

#[test]
fn session_without_cursors_connects_and_closes() {
    let mut driver = Driver::new(1);
    let effects = run(&mut driver, vec![DriverEvent::Connected, DriverEvent::OutboundClosed]);
    assert_eq!(
        effects,
        vec![
            notice(false, "Connected to server"),
            DriverEffect::Wake,
            notice(false, "Client disconnected"),
            DriverEffect::Wake,
        ]
    );
    assert_eq!(driver.state(), DriverState::Closed);
}

#[test]
fn failed_report_is_passed_over() {
    let mut driver = Driver::new(50051);
    driver.step(DriverEvent::Connected);
    let effects = run(
        &mut driver,
        vec![cursor("a.rs", 1, 0), DriverEvent::ReportFailed, cursor("a.rs", 2, 0)],
    );
    assert_eq!(effects, vec![report("a.rs", 0, 0), report("a.rs", 1, 0)]);
    assert_eq!(driver.state(), DriverState::Streaming);
}

#[test]
fn end_of_stream_gives_one_notice_and_closes() {
    let mut driver = Driver::new(50051);
    driver.step(DriverEvent::Connected);
    let effects = driver.step(DriverEvent::OutboundClosed);
    assert_eq!(effects, vec![notice(false, "Client disconnected"), DriverEffect::Wake]);
    assert_eq!(driver.state(), DriverState::Closed);
}

#[test]
fn nothing_is_reported_after_end_of_stream() {
    let mut driver = Driver::new(50051);
    driver.step(DriverEvent::Connected);
    let effects = run(
        &mut driver,
        vec![
            cursor("a.rs", 1, 0),
            DriverEvent::OutboundClosed,
            cursor("a.rs", 2, 0),
            DriverEvent::OutboundClosed,
            DriverEvent::Connected,
        ],
    );
    assert_eq!(
        effects,
        vec![report("a.rs", 0, 0), notice(false, "Client disconnected"), DriverEffect::Wake]
    );
    assert_eq!(driver.state(), DriverState::Closed);
}

#[test]
fn events_out_of_turn_are_ignored_while_connecting() {
    let mut driver = Driver::new(50051);
    let effects = run(
        &mut driver,
        vec![cursor("a.rs", 1, 0), DriverEvent::ReportFailed, DriverEvent::OutboundClosed],
    );
    assert_eq!(effects, vec![]);
    assert_eq!(driver.state(), DriverState::Connecting);
}

#[test]
fn connection_outcome_is_ignored_while_streaming() {
    let mut driver = Driver::new(50051);
    driver.step(DriverEvent::Connected);
    let effects = run(
        &mut driver,
        vec![DriverEvent::Connected, DriverEvent::ConnectFailed("late".to_string())],
    );
    assert_eq!(effects, vec![]);
    assert_eq!(driver.state(), DriverState::Streaming);
}

#[test]
fn every_message_is_followed_by_a_wake() {
    let mut driver = Driver::new(50051);
    let effects = run(
        &mut driver,
        vec![
            DriverEvent::Connected,
            cursor("a.rs", 1, 0),
            DriverEvent::ReportFailed,
            cursor("a.rs", 1, 1),
            DriverEvent::OutboundClosed,
        ],
    );
    let mut messages = 0;
    let mut wakes = 0;
    for (index, effect) in effects.iter().enumerate() {
        match effect {
            DriverEffect::Enqueue(_) => {
                messages += 1;
                assert_eq!(effects.get(index + 1), Some(&DriverEffect::Wake));
            }
            DriverEffect::Wake => {
                wakes += 1;
                assert!(index > 0);
                assert!(matches!(effects[index - 1], DriverEffect::Enqueue(_)));
            }
            DriverEffect::Report(_) => {}
        }
    }
    assert_eq!(messages, 2);
    assert_eq!(wakes, 2);
}

#[test]
fn session_never_returns_to_an_earlier_state() {
    let mut driver = Driver::new(50051);
    let events = vec![
        DriverEvent::OutboundClosed,
        DriverEvent::Connected,
        DriverEvent::Connected,
        cursor("a.rs", 1, 0),
        DriverEvent::OutboundClosed,
        DriverEvent::Connected,
    ];
    let rank = |state: DriverState| match state {
        DriverState::Connecting => 0,
        DriverState::Streaming => 1,
        DriverState::Closed => 2,
    };
    let mut last = rank(driver.state());
    for event in events {
        driver.step(event);
        let now = rank(driver.state());
        assert!(now >= last);
        last = now;
    }
    assert_eq!(driver.state(), DriverState::Closed);
}
