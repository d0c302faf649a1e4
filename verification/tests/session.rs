use jsbsimrs::session::exit_warning;
use jsbsimrs::{Command, Error, Event, JSBSim, JSBSimProcessProperties, Progress, Reply, Teardown};

fn attached() -> JSBSim {
    let (startup, _) = JSBSim::new("127.0.0.1:5556");
    let startup = match startup.advance(Event::Connected) {
        Progress::Continue(startup, _) => startup,
        other => panic!("unexpected: {:?}", other),
    };
    match startup.advance(Event::Received(b"Connected to JSBSim server\r\n")) {
        Progress::Established(session) => session,
        other => panic!("unexpected: {:?}", other),
    }
}

fn launched() -> JSBSim {
    let (startup, _) = JSBSim::new_with_process(JSBSimProcessProperties::default());
    let mut startup = startup;
    for event in [
        Event::Spawned,
        Event::Output("JSBSim Execution beginning ... \n"),
        Event::Connected,
    ] {
        startup = match startup.advance(event) {
            Progress::Continue(startup, _) => startup,
            other => panic!("unexpected: {:?}", other),
        };
    }
    match startup.advance(Event::Received(b"Connected to JSBSim server\r\nJSBSim> ")) {
        Progress::Established(session) => session,
        other => panic!("unexpected: {:?}", other),
    }
}

#[test]
fn a_session_starts_idle() {
    let sim = attached();
    assert_eq!(sim.awaiting(), None);
    assert!(!sim.owns_process());
    assert!(launched().owns_process());
}

#[test]
fn each_command_has_its_line() {
    let mut sim = attached();
    assert_eq!(sim.hold(), "hold\n");
    assert_eq!(sim.awaiting(), Some(Command::Hold));
    assert_eq!(sim.resume(), "resume\n");
    assert_eq!(sim.awaiting(), Some(Command::Resume));
    assert_eq!(sim.iterate(120), "iterate 120\n");
    assert_eq!(sim.awaiting(), Some(Command::Iterate));
    assert_eq!(sim.set("fcs/throttle-cmd-norm", "1"), "set fcs/throttle-cmd-norm 1\n");
    assert_eq!(sim.awaiting(), Some(Command::SetProperty));
    assert_eq!(sim.get("simulation/sim-time-sec"), "get simulation/sim-time-sec\n");
    assert_eq!(sim.awaiting(), Some(Command::GetProperty));
}

#[test]
fn iterate_takes_any_number_of_steps() {
    let mut sim = attached();
    assert_eq!(sim.iterate(0), "iterate 0\n");
    assert_eq!(sim.iterate(-3), "iterate -3\n");
    assert_eq!(sim.iterate(i32::MAX), "iterate 2147483647\n");
    assert_eq!(sim.iterate(i32::MIN), "iterate -2147483648\n");
}

#[test]
fn set_sends_key_and_value_as_they_are() {
    let mut sim = attached();
    assert_eq!(sim.set("a/b", "0.5"), "set a/b 0.5\n");
    assert_eq!(sim.set("", ""), "set  \n");
    assert_eq!(sim.set("k", "two words"), "set k two words\n");
}

#[test]
fn hold_is_answered_by_any_line() {
    let mut sim = attached();
    sim.hold();
    assert_eq!(sim.receive(b"whatever\n"), Some(Ok(Reply::Done)));
    assert_eq!(sim.awaiting(), None);
}

#[test]
fn resume_is_answered_once_the_line_is_whole() {
    let mut sim = attached();
    sim.resume();
    assert_eq!(sim.receive(b""), None);
    assert_eq!(sim.receive(b"\r\nJSBSim> "), None);
    assert_eq!(sim.receive(b"Resu"), None);
    assert_eq!(sim.awaiting(), Some(Command::Resume));
    assert_eq!(sim.receive(b"ming\r\nJSBSim> "), Some(Ok(Reply::Done)));
    assert_eq!(sim.awaiting(), None);
}

#[test]
fn resume_fails_with_the_response_that_came() {
    let mut sim = attached();
    sim.resume();
    assert_eq!(
        sim.receive(b"  Unknown command \r\n"),
        Some(Err(Error::Protocol(Command::Resume, "Unknown command".to_string())))
    );
    assert_eq!(sim.awaiting(), None);
}

#[test]
fn iterate_and_set_check_their_acknowledgement() {
    let mut sim = attached();
    sim.iterate(5);
    assert_eq!(sim.receive(b"5 Iterations performed\n"), Some(Ok(Reply::Done)));
    sim.iterate(5);
    assert_eq!(
        sim.receive(b"set successful\n"),
        Some(Err(Error::Protocol(Command::Iterate, "set successful".to_string())))
    );
    sim.set("k", "1");
    assert_eq!(sim.receive(b"set successful\n"), Some(Ok(Reply::Done)));
    sim.set("k", "1");
    assert_eq!(
        sim.receive(b"k = 1\n"),
        Some(Err(Error::Protocol(Command::SetProperty, "k = 1".to_string())))
    );
}

#[test]
fn get_brings_the_value() {
    let mut sim = attached();
    sim.get("simulation/cycle_duration");
    assert_eq!(
        sim.receive(b"JSBSim> simulation/cycle_duration = 0\r\n"),
        Some(Ok(Reply::Value("0".to_string())))
    );
}

#[test]
fn get_fails_on_a_response_without_equals_sign() {
    let mut sim = attached();
    sim.get("no/such/property");
    assert_eq!(
        sim.receive(b"Unknown property\n"),
        Some(Err(Error::Protocol(Command::GetProperty, "Unknown property".to_string())))
    );
}

#[test]
fn get_fails_on_a_response_with_two_equals_signs() {
    let mut sim = attached();
    sim.get("a");
    assert_eq!(
        sim.receive(b"a = 1 = 2\n"),
        Some(Err(Error::Protocol(Command::GetProperty, "a = 1 = 2".to_string())))
    );
}

#[test]
fn what_arrives_with_a_response_stays_for_the_next_command() {
    let mut sim = attached();
    sim.get("a");
    assert_eq!(
        sim.receive(b"a = 1\nJSBSim> \nb = 2\nJSBSim> c = "),
        Some(Ok(Reply::Value("1".to_string())))
    );
    sim.get("b");
    assert_eq!(sim.receive(b""), Some(Ok(Reply::Value("2".to_string()))));
    sim.get("c");
    assert_eq!(sim.receive(b""), None);
    assert_eq!(sim.receive(b"3\n"), Some(Ok(Reply::Value("3".to_string()))));
}

#[test]
fn what_arrives_unasked_is_kept() {
    let mut sim = attached();
    assert_eq!(sim.receive(b"Resuming\n"), None);
    assert_eq!(sim.awaiting(), None);
    sim.resume();
    assert_eq!(sim.receive(b""), Some(Ok(Reply::Done)));
}

#[test]
fn a_line_that_is_not_text_fails_the_command() {
    let mut sim = attached();
    sim.hold();
    assert_eq!(sim.receive(b"\xff\n"), Some(Err(Error::NotText)));
    assert_eq!(sim.awaiting(), None);
}

#[test]
fn a_closed_stream_fails_the_command() {
    let mut sim = attached();
    sim.resume();
    assert_eq!(sim.receive(b"JSBSim> "), None);
    assert_eq!(sim.closed(), Err(Error::Closed));
    assert_eq!(sim.awaiting(), None);
}

#[test]
fn a_closed_stream_may_end_with_the_response() {
    let mut sim = attached();
    sim.resume();
    assert_eq!(sim.receive(b"JSBSim> Resuming"), None);
    assert_eq!(sim.closed(), Ok(Reply::Done));
    sim.get("a");
    assert_eq!(sim.receive(b"\xff"), None);
    assert_eq!(sim.closed(), Err(Error::NotText));
}

#[test]
fn a_closed_stream_with_nothing_awaited() {
    let mut sim = attached();
    assert_eq!(sim.closed(), Err(Error::Closed));
}

#[test]
fn release_asks_to_quit_and_to_end_what_was_spawned() {
    let mut sim = launched();
    assert_eq!(sim.release(), Teardown { quit: Some("quit\n".to_string()), terminate: true });
    assert!(!sim.owns_process());
}

#[test]
fn release_ends_the_simulator_once() {
    let mut sim = launched();
    sim.resume();
    assert!(sim.release().terminate);
    assert_eq!(sim.awaiting(), None);
    assert_eq!(sim.release(), Teardown { quit: Some("quit\n".to_string()), terminate: false });
}

#[test]
fn release_of_an_attached_session_ends_no_simulator() {
    let mut sim = attached();
    assert_eq!(sim.release(), Teardown { quit: Some("quit\n".to_string()), terminate: false });
}

#[test]
fn only_success_is_a_clean_exit() {
    assert_eq!(exit_warning(Some(true)), None);
    assert_eq!(
        exit_warning(Some(false)),
        Some("Warning: JSBSim process did not exit cleanly".to_string())
    );
    assert_eq!(
        exit_warning(None),
        Some("Warning: JSBSim process did not exit cleanly".to_string())
    );
}
