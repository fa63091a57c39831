use nimbuscode::config::Config;
use nimbuscode::messages::Role;
use nimbuscode::session::{is_exit_command, Session, SessionState, TurnStep};

fn test_config() -> Config {
    let mut config = Config::default();
    config.api_key = "k".to_string();
    config.model = "m".to_string();
    config
}

#[test]
fn test_exit_command_variants() {
    for exit in ["exit", "EXIT", "Exit", " exit ", "quit", "QUIT", "q", "Q", "\tq\n"] {
        assert!(is_exit_command(exit), "{:?} should exit", exit);
    }
    for stay in ["hello", "exit now", "qq", "quit!", "", " "] {
        assert!(!is_exit_command(stay), "{:?} should not exit", stay);
    }
}

#[test]
fn test_interactive_hello_then_exit() {
    // inputs "hello" then "exit": exactly one completion request is built,
    // and the exit input appends no message
    let config = test_config();
    let mut session = Session::new("sys".to_string());
    let mut requests_made = 0;

    match session.handle_input(&config, "hello") {
        TurnStep::Send(request) => {
            requests_made += 1;
            assert_eq!(request.messages.len(), 2);
            assert!(matches!(request.messages[0].role, Role::System));
            assert_eq!(request.messages[0].content, "sys");
            assert!(matches!(request.messages[1].role, Role::User));
            assert_eq!(request.messages[1].content, "hello");
        }
        TurnStep::Exit => panic!("hello must not exit"),
    }
    session.record_response("hi there".to_string());

    match session.handle_input(&config, "exit") {
        TurnStep::Exit => {}
        TurnStep::Send(_) => panic!("exit must not send"),
    }
    assert_eq!(requests_made, 1);
    assert!(matches!(session.state, SessionState::Exited));
    assert_eq!(session.history.len(), 2);
    assert_eq!(session.history[0].content, "hello");
    assert_eq!(session.history[1].content, "hi there");
}

#[test]
fn test_request_holds_one_system_prompt_then_turns() {
    // three turns accumulated: the next request holds exactly one system
    // message, placed first, then the turns in chronological order
    let config = test_config();
    let mut session = Session::new("guide".to_string());
    for (ask, answer) in [("one", "1"), ("two", "2"), ("three", "3")] {
        match session.handle_input(&config, ask) {
            TurnStep::Send(_) => {}
            TurnStep::Exit => panic!("{} must not exit", ask),
        }
        session.record_response(answer.to_string());
    }
    let request = session.build_request(&config);
    assert_eq!(request.messages.len(), 7);
    let system_count = request
        .messages
        .iter()
        .filter(|m| matches!(m.role, Role::System))
        .count();
    assert_eq!(system_count, 1);
    assert!(matches!(request.messages[0].role, Role::System));
    let contents: Vec<&str> = request.messages[1..].iter().map(|m| m.content.as_str()).collect();
    assert_eq!(contents, vec!["one", "1", "two", "2", "three", "3"]);
    for (i, message) in request.messages[1..].iter().enumerate() {
        if i % 2 == 0 {
            assert!(matches!(message.role, Role::User));
        } else {
            assert!(matches!(message.role, Role::Assistant));
        }
    }
    assert_eq!(request.model, "m");
    assert_eq!(request.max_tokens, config.max_tokens);
}

#[test]
fn test_input_is_trimmed_into_history() {
    let config = test_config();
    let mut session = Session::new("sys".to_string());
    match session.handle_input(&config, "  how do I sort?\n") {
        TurnStep::Send(request) => {
            assert_eq!(request.messages[1].content, "how do I sort?");
        }
        TurnStep::Exit => panic!("must not exit"),
    }
    assert_eq!(session.history[0].content, "how do I sort?");
}

#[test]
fn test_abort_keeps_history_and_exits() {
    let config = test_config();
    let mut session = Session::new("sys".to_string());
    match session.handle_input(&config, "hello") {
        TurnStep::Send(_) => {}
        TurnStep::Exit => panic!("must not exit"),
    }
    session.abort();
    assert!(matches!(session.state, SessionState::Exited));
    assert_eq!(session.history.len(), 1);
}

#[test]
fn test_exit_appends_nothing_without_any_turn() {
    let config = test_config();
    let mut session = Session::new("sys".to_string());
    match session.handle_input(&config, "QUIT") {
        TurnStep::Exit => {}
        TurnStep::Send(_) => panic!("quit must not send"),
    }
    assert_eq!(session.history.len(), 0);
}
