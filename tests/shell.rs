use lsp_shell::commands::{
    lookup_notification, lookup_request, InitializeCmd, InitializedCmd, NotificationCommand,
    NotificationMethod, NotificationParams, RequestCommand, RequestMethod, RequestParams,
};
use lsp_shell::dispatch::{dispatch, handle_help, handle_input, Action, Step};
use lsp_shell::response::{handle_response, Category, Outcome};
use lsp_shell::session::Session;
use lsp_shell::text::{debug_list_from, list_of, tokenize};

fn words(ws: &[&str]) -> Vec<String> {
    ws.iter().map(|w| w.to_string()).collect()
}

fn started() -> Session<()> {
    let mut s: Session<()> = Session::new();
    s.set_client(());
    s
}

fn request_id_of(step: &Step) -> Option<u64> {
    match &step.action {
        Action::Request { id, .. } => Some(*id),
        _ => None,
    }
}

#[test]
fn tokenize_splits_on_ascii_whitespace() {
    assert_eq!(tokenize("  start echo \t hello\r\n"), words(&["start", "echo", "hello"]));
    assert_eq!(tokenize("a\x0Cb"), words(&["a", "b"]));
    assert_eq!(tokenize(""), Vec::<String>::new());
    assert_eq!(tokenize(" \t\n "), Vec::<String>::new());
    assert_eq!(tokenize("héllo wörld"), words(&["héllo", "wörld"]));
}

#[test]
fn list_of_brackets_and_separates() {
    assert_eq!(list_of(&words(&["\"a\"", "\"b\""])), "[\"a\", \"b\"]");
    assert_eq!(list_of(&words(&["x"])), "[x]");
    assert_eq!(list_of(&Vec::new()), "[]");
}

#[test]
fn debug_list_from_quotes_each_token() {
    let t = words(&["request", "initialize", "x"]);
    assert_eq!(debug_list_from(&t, 1), "[\"initialize\", \"x\"]");
    assert_eq!(debug_list_from(&t, 3), "[]");
    let tricky = words(&["a\"b", "c\\d", "\u{0}"]);
    assert_eq!(debug_list_from(&tricky, 0), "[\"a\\\"b\", \"c\\\\d\", \"\\0\"]");
}

#[test]
fn lookup_knows_the_registry() {
    assert_eq!(lookup_request(&"initialize".to_string()), Some(RequestMethod::Initialize));
    assert_eq!(lookup_request(&"initialized".to_string()), None);
    assert_eq!(
        lookup_notification(&"initialized".to_string()),
        Some(NotificationMethod::Initialized)
    );
    assert_eq!(lookup_notification(&"initialize".to_string()), None);
}

#[test]
fn builders_give_the_protocol_parameters() {
    assert_eq!(
        InitializeCmd::build_parameters(vec!["ignored"]),
        lsp_types::InitializeParams::default()
    );
    assert_eq!(InitializedCmd::build_parameters(vec![]), lsp_types::InitializedParams {});
}

#[test]
fn empty_line_does_nothing() {
    let mut s = started();
    let step = handle_input(&mut s, "   ");
    assert!(step.lines.is_empty());
    assert!(matches!(step.action, Action::Nothing));
    assert_eq!(s.request_id, 0);
    assert!(!s.exit);
}

#[test]
fn exit_words_end_the_shell() {
    for w in ["exit", "quit", "q"] {
        let mut s: Session<()> = Session::new();
        let step = handle_input(&mut s, w);
        assert!(s.exit);
        assert!(step.lines.is_empty());
        assert!(matches!(step.action, Action::Nothing));
    }
}

#[test]
fn exit_with_arguments_is_unknown() {
    let mut s: Session<()> = Session::new();
    let step = handle_input(&mut s, "exit now");
    assert!(!s.exit);
    assert_eq!(step.lines, vec!["unknown command: 'exit'".to_string()]);
}

#[test]
fn help_prints_usage() {
    let mut s: Session<()> = Session::new();
    let step = handle_input(&mut s, "h");
    assert_eq!(step.lines, handle_help());
    assert_eq!(step.lines.len(), 5);
    assert!(step.lines[0].starts_with("exit | quit | q"));
}

#[test]
fn unknown_command_changes_nothing() {
    let mut s = started();
    s.request_id = 7;
    let step = handle_input(&mut s, "frobnicate a b");
    assert_eq!(step.lines, vec!["unknown command: 'frobnicate'".to_string()]);
    assert!(matches!(step.action, Action::Nothing));
    assert_eq!(s.request_id, 7);
    assert!(s.client.is_some());
    assert!(!s.exit);
}

#[test]
fn start_hands_out_program_and_arguments() {
    let mut s: Session<()> = Session::new();
    let step = handle_input(&mut s, "s server --stdio -v");
    assert!(step.lines.is_empty());
    match step.action {
        Action::Start { program, args } => {
            assert_eq!(program, "server");
            assert_eq!(args, words(&["--stdio", "-v"]));
        }
        _ => panic!("expected a start action"),
    }
    assert!(s.client.is_none());
}

#[test]
fn start_without_program_is_reported() {
    let mut s: Session<()> = Session::new();
    let step = handle_input(&mut s, "start");
    assert_eq!(step.lines, vec!["missing program to start".to_string()]);
    assert!(matches!(step.action, Action::Nothing));
}

#[test]
fn scenario_start_then_request_fails_in_transport() {
    let mut s: Session<()> = Session::new();
    let step = handle_input(&mut s, "start echo hello");
    match step.action {
        Action::Start { program, args } => {
            assert_eq!(program, "echo");
            assert_eq!(args, words(&["hello"]));
        }
        _ => panic!("expected a start action"),
    }
    s.set_client(());
    let step = handle_input(&mut s, "request initialize");
    assert_eq!(step.lines, vec!["got request: [\"initialize\"]".to_string()]);
    assert_eq!(request_id_of(&step), Some(1));
    assert!(matches!(
        step.action,
        Action::Request { params: RequestParams::Initialize(_), .. }
    ));
    assert_eq!(s.request_id, 1);
    let report = handle_response(&Outcome::TransportFailure {
        message: "The background task closed; restart required".to_string(),
    });
    assert_eq!(report.category, Category::TransportFailure);
    assert_eq!(
        report.lines,
        vec!["The background task closed; restart required".to_string()]
    );
}

#[test]
fn scenario_request_without_client() {
    let mut s: Session<()> = Session::new();
    let step = handle_input(&mut s, "request initialize");
    assert_eq!(
        step.lines,
        vec!["LSP client is not initialized, can't send request.".to_string()]
    );
    assert!(matches!(step.action, Action::Nothing));
    assert_eq!(s.request_id, 0);
}

#[test]
fn scenario_two_requests_get_consecutive_ids() {
    let mut s = started();
    let first = handle_input(&mut s, "request initialize");
    let second = handle_input(&mut s, "req initialize");
    assert_eq!(request_id_of(&first), Some(1));
    assert_eq!(request_id_of(&second), Some(2));
    let a = handle_response(&Outcome::Success { payload: "{\n  \"id\": 1\n}".to_string() });
    let b = handle_response(&Outcome::Success { payload: "{\n  \"id\": 2\n}".to_string() });
    assert_eq!(a.category, Category::Success);
    assert_eq!(b.category, Category::Success);
    assert_ne!(a.lines, b.lines);
}

#[test]
fn scenario_notify_without_client() {
    let mut s: Session<()> = Session::new();
    let step = handle_input(&mut s, "notify initialized");
    assert_eq!(
        step.lines,
        vec![
            "got notification: [\"initialized\"]".to_string(),
            "LSP client is not initialized, can't send notification.".to_string(),
        ]
    );
    assert!(matches!(step.action, Action::Nothing));
    assert_eq!(s.request_id, 0);
}

#[test]
fn notifications_leave_the_counter_alone() {
    let mut s = started();
    let mut ids = Vec::new();
    for line in ["n initialized", "r initialize", "not initialized", "not initialized", "r initialize"] {
        let step = handle_input(&mut s, line);
        if let Some(id) = request_id_of(&step) {
            ids.push(id);
        }
        if line.contains("initialized") {
            assert!(matches!(
                step.action,
                Action::Notify { params: NotificationParams::Initialized(_) }
            ));
        }
    }
    assert_eq!(ids, vec![1, 2]);
    assert_eq!(s.request_id, 2);
}

#[test]
fn unknown_request_type_takes_no_id() {
    let mut s = started();
    let step = handle_input(&mut s, "request shutdown now");
    assert_eq!(
        step.lines,
        vec![
            "got request: [\"shutdown\", \"now\"]".to_string(),
            "Unknown request type: 'shutdown'".to_string(),
        ]
    );
    assert!(matches!(step.action, Action::Nothing));
    assert_eq!(s.request_id, 0);
    let step = handle_input(&mut s, "r initialize");
    assert_eq!(request_id_of(&step), Some(1));
}

#[test]
fn missing_request_type_is_reported() {
    let mut s = started();
    let step = handle_input(&mut s, "request");
    assert_eq!(
        step.lines,
        vec!["got request: []".to_string(), "missing request type".to_string()]
    );
    assert_eq!(s.request_id, 0);
}

#[test]
fn unknown_notification_type_is_reported() {
    let mut s = started();
    let step = handle_input(&mut s, "n exit");
    assert_eq!(
        step.lines,
        vec![
            "got notification: [\"exit\"]".to_string(),
            "Unknown notification type: 'exit'".to_string(),
        ]
    );
    assert!(matches!(step.action, Action::Nothing));
    let step = handle_input(&mut s, "notify");
    assert_eq!(step.lines[0], "got notification: []");
    assert_eq!(step.lines[1], "missing notification type");
}

#[test]
fn exhausted_ids_stop_requests() {
    let mut s = started();
    s.request_id = u64::MAX - 1;
    let step = handle_input(&mut s, "r initialize");
    assert_eq!(request_id_of(&step), Some(u64::MAX));
    let step = handle_input(&mut s, "r initialize");
    assert_eq!(step.lines[1], "request ids are exhausted");
    assert!(matches!(step.action, Action::Nothing));
    assert_eq!(s.request_id, u64::MAX);
}

#[test]
fn echo_escapes_quotes_in_tokens() {
    let mut s = started();
    let step = handle_input(&mut s, "r a\"b");
    assert_eq!(step.lines[0], "got request: [\"a\\\"b\"]");
    assert_eq!(step.lines[1], "Unknown request type: 'a\"b'");
}

#[test]
fn dispatch_takes_tokens() {
    let mut s = started();
    let step = dispatch(&mut s, &words(&["request", "initialize"]));
    assert_eq!(request_id_of(&step), Some(1));
}

#[test]
fn application_error_with_and_without_data() {
    let with = handle_response(&Outcome::ApplicationError {
        message: "unsupported".to_string(),
        data: Some("{\n  \"retry\": false\n}".to_string()),
    });
    assert_eq!(with.category, Category::ApplicationError);
    assert_eq!(
        with.lines,
        vec!["unsupported".to_string(), "{\n  \"retry\": false\n}".to_string()]
    );
    let without = handle_response(&Outcome::ApplicationError {
        message: "unsupported".to_string(),
        data: None,
    });
    assert_eq!(without.category, Category::ApplicationError);
    assert_eq!(without.lines, vec!["unsupported".to_string()]);
}
