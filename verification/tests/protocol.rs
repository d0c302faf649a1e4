use jsbsimrs::protocol::{interpret, noise};
use jsbsimrs::{Command, Error, Reply};

#[test]
fn blank_lines_and_the_prompt_are_noise() {
    for line in [
        "",
        "\n",
        "\r\n",
        "   \t \n",
        "JSBSim>",
        "JSBSim>\n",
        "  JSBSim> \r\n",
        "\u{a0}JSBSim>\u{3000}",
    ] {
        assert!(noise(line), "{:?}", line);
    }
}

#[test]
fn anything_else_is_a_response() {
    for line in [
        "JSBSim> Resuming\n",
        "JSBSim >\n",
        "jsbsim>\n",
        "JSBSim>>\n",
        "x\n",
        "JSBSim> JSBSim>\n",
        "=\n",
    ] {
        assert!(!noise(line), "{:?}", line);
    }
}

#[test]
fn hold_accepts_any_response() {
    assert_eq!(interpret(Command::Hold, "Holding\r\n"), Ok(Reply::Done));
    assert_eq!(interpret(Command::Hold, "no such command\n"), Ok(Reply::Done));
    assert_eq!(interpret(Command::Hold, ""), Ok(Reply::Done));
}

#[test]
fn resume_accepts_a_response_that_ends_with_resuming() {
    assert_eq!(interpret(Command::Resume, "Resuming\n"), Ok(Reply::Done));
    assert_eq!(interpret(Command::Resume, "JSBSim> Resuming\r\n"), Ok(Reply::Done));
    assert_eq!(interpret(Command::Resume, "Resuming"), Ok(Reply::Done));
}

#[test]
fn resume_rejects_any_other_response() {
    assert_eq!(
        interpret(Command::Resume, "  Holding\r\n"),
        Err(Error::Protocol(Command::Resume, "Holding".to_string()))
    );
    assert_eq!(
        interpret(Command::Resume, "Resuming.\n"),
        Err(Error::Protocol(Command::Resume, "Resuming.".to_string()))
    );
    assert_eq!(
        interpret(Command::Resume, "resuming\n"),
        Err(Error::Protocol(Command::Resume, "resuming".to_string()))
    );
    assert_eq!(
        interpret(Command::Resume, "suming\n"),
        Err(Error::Protocol(Command::Resume, "suming".to_string()))
    );
    assert_eq!(
        interpret(Command::Resume, "\n"),
        Err(Error::Protocol(Command::Resume, String::new()))
    );
}

#[test]
fn iterate_expects_iterations_performed() {
    assert_eq!(interpret(Command::Iterate, "Iterations performed\n"), Ok(Reply::Done));
    assert_eq!(
        interpret(Command::Iterate, "JSBSim> 120 Iterations performed \r\n"),
        Ok(Reply::Done)
    );
    assert_eq!(
        interpret(Command::Iterate, "Resuming\n"),
        Err(Error::Protocol(Command::Iterate, "Resuming".to_string()))
    );
}

#[test]
fn set_expects_set_successful() {
    assert_eq!(interpret(Command::SetProperty, "set successful\n"), Ok(Reply::Done));
    assert_eq!(interpret(Command::SetProperty, "JSBSim> set successful\r\n"), Ok(Reply::Done));
    assert_eq!(
        interpret(Command::SetProperty, "Unknown property\n"),
        Err(Error::Protocol(Command::SetProperty, "Unknown property".to_string()))
    );
}

#[test]
fn get_takes_what_follows_the_equals_sign() {
    assert_eq!(
        interpret(Command::GetProperty, "simulation/sim-time-sec = 0.0025\n"),
        Ok(Reply::Value("0.0025".to_string()))
    );
    assert_eq!(
        interpret(Command::GetProperty, "JSBSim> fcs/throttle-cmd-norm =   1 \r\n"),
        Ok(Reply::Value("1".to_string()))
    );
    assert_eq!(interpret(Command::GetProperty, "a=b"), Ok(Reply::Value("b".to_string())));
    assert_eq!(interpret(Command::GetProperty, "a =\n"), Ok(Reply::Value(String::new())));
    assert_eq!(
        interpret(Command::GetProperty, "= two words \n"),
        Ok(Reply::Value("two words".to_string()))
    );
    assert_eq!(interpret(Command::GetProperty, "="), Ok(Reply::Value(String::new())));
}

#[test]
fn get_rejects_a_response_without_equals_sign() {
    assert_eq!(
        interpret(Command::GetProperty, "  Unknown property\r\n"),
        Err(Error::Protocol(Command::GetProperty, "Unknown property".to_string()))
    );
    assert_eq!(
        interpret(Command::GetProperty, ""),
        Err(Error::Protocol(Command::GetProperty, String::new()))
    );
}

#[test]
fn get_rejects_a_response_with_more_than_one_equals_sign() {
    assert_eq!(
        interpret(Command::GetProperty, "a = b = c\n"),
        Err(Error::Protocol(Command::GetProperty, "a = b = c".to_string()))
    );
    assert_eq!(
        interpret(Command::GetProperty, "a == 1\n"),
        Err(Error::Protocol(Command::GetProperty, "a == 1".to_string()))
    );
    assert_eq!(
        interpret(Command::GetProperty, "===\n"),
        Err(Error::Protocol(Command::GetProperty, "===".to_string()))
    );
}

#[test]
fn get_gives_the_same_answer_every_time() {
    for line in ["a = 1\n", "a\n", "a = b = c\n"] {
        assert_eq!(interpret(Command::GetProperty, line), interpret(Command::GetProperty, line));
    }
}

#[test]
fn an_error_says_what_went_wrong() {
    assert_eq!(
        Error::Protocol(Command::Resume, "Holding".to_string()).message(),
        "Failed to resume: Holding"
    );
    assert_eq!(
        Error::Protocol(Command::Iterate, "x".to_string()).message(),
        "Failed to iterate: x"
    );
    assert_eq!(
        Error::Protocol(Command::SetProperty, "Unknown property".to_string()).message(),
        "Failed to set property: Unknown property"
    );
    assert_eq!(
        Error::Protocol(Command::GetProperty, String::new()).message(),
        "No value returned: "
    );
    assert_eq!(Error::Protocol(Command::Hold, "x".to_string()).message(), "Failed to hold: x");
    assert_eq!(Error::Closed.message(), "the console closed the connection");
    assert_eq!(Error::NotText.message(), "stream did not contain valid UTF-8");
    assert_eq!(Error::Io.message(), "an I/O operation failed");
    assert_eq!(Error::Spawn.message(), "JSBSim could not be spawned");
    assert_eq!(Error::NotReady.message(), "JSBSim ended its output before it was ready");
}

#[test]
fn a_failed_resume_says_so_with_the_response() {
    match interpret(Command::Resume, "JSBSim> Holding\r\n") {
        Err(error) => assert_eq!(error.message(), "Failed to resume: JSBSim> Holding"),
        other => panic!("unexpected: {:?}", other),
    }
}
