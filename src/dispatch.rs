//! Turning one input line into the lines to print and at most one action on
//! the client, while keeping the session's request counter.
use vstd::prelude::*;
use crate::commands::{
    build_notification, build_request, is_word, lookup_notification, lookup_request,
    notification_method_of, request_method_of, NotificationParams, RequestParams,
};
use crate::session::Session;
use crate::text::{debug_list, debug_list_from, texts, tokenize, tokens_of};

verus! {

/// The shape of an input line, decided by its leading token.
#[derive(PartialEq, Eq, Structural, Clone, Copy, Debug)]
pub enum LineKind {
    Empty,
    Exit,
    Help,
    Start,
    Request,
    Notify,
    Unknown,
}

/// What the caller has to do with the client after a line was dispatched.
#[allow(inconsistent_fields)]
pub enum Action {
    /// Nothing beyond printing the lines.
    Nothing,
    /// Start `program` with `args` and install a client over its standard streams.
    Start { program: String, args: Vec<String> },
    /// Send a request under the given id and interpret its response.
    Request { id: u64, params: RequestParams },
    /// Send a notification.
    Notify { params: NotificationParams },
}

/// The outcome of dispatching one line: text to print, then an action.
pub struct Step {
    pub lines: Vec<String>,
    pub action: Action,
}

pub open spec fn is_exit_word(w: Seq<char>) -> bool {
    w == "exit"@ || w == "quit"@ || w == "q"@
}

pub open spec fn is_help_word(w: Seq<char>) -> bool {
    w == "help"@ || w == "h"@
}

pub open spec fn is_start_word(w: Seq<char>) -> bool {
    w == "start"@ || w == "s"@
}

pub open spec fn is_request_word(w: Seq<char>) -> bool {
    w == "request"@ || w == "req"@ || w == "r"@
}

pub open spec fn is_notify_word(w: Seq<char>) -> bool {
    w == "notify"@ || w == "not"@ || w == "n"@
}

/// The kind of a tokenized line. `exit` and `help` stand alone; `start`,
/// `request` and `notify` take the tokens after them.
pub open spec fn line_kind(t: Seq<Seq<char>>) -> LineKind {
    if t.len() == 0 {
        LineKind::Empty
    } else if t.len() == 1 && is_exit_word(t[0]) {
        LineKind::Exit
    } else if t.len() == 1 && is_help_word(t[0]) {
        LineKind::Help
    } else if is_start_word(t[0]) {
        LineKind::Start
    } else if is_request_word(t[0]) {
        LineKind::Request
    } else if is_notify_word(t[0]) {
        LineKind::Notify
    } else {
        LineKind::Unknown
    }
}

/// Whether the line starts a server program.
pub open spec fn starts_program(t: Seq<Seq<char>>) -> bool {
    line_kind(t) == LineKind::Start && t.len() >= 2
}

/// Whether the line sends a request: a client is there, the method is known,
/// and an id is left to give it.
pub open spec fn sends_request(has_client: bool, id: u64, t: Seq<Seq<char>>) -> bool {
    &&& line_kind(t) == LineKind::Request
    &&& has_client
    &&& t.len() >= 2
    &&& request_method_of(t[1]) is Some
    &&& id < u64::MAX
}

/// Whether the line sends a notification: a client is there and the method is known.
pub open spec fn sends_notification(has_client: bool, t: Seq<Seq<char>>) -> bool {
    &&& line_kind(t) == LineKind::Notify
    &&& has_client
    &&& t.len() >= 2
    &&& notification_method_of(t[1]) is Some
}

/// The request counter after the line: one more exactly when a request is sent.
pub open spec fn next_request_id(has_client: bool, id: u64, t: Seq<Seq<char>>) -> u64 {
    if sends_request(has_client, id, t) {
        (id + 1) as u64
    } else {
        id
    }
}

pub open spec fn help_lines() -> Seq<Seq<char>> {
    seq![
        "exit | quit | q                  leave the shell"@,
        "help | h                         show this text"@,
        "start | s <program> [args...]    start a language server"@,
        "request | req | r <method> ...   send a request (initialize)"@,
        "notify | not | n <method> ...    send a notification (initialized)"@,
    ]
}

pub open spec fn request_reply(has_client: bool, id: u64, t: Seq<Seq<char>>) -> Seq<Seq<char>> {
    let echo = "got request: "@ + debug_list(t.subrange(1, t.len() as int));
    if !has_client {
        seq!["LSP client is not initialized, can't send request."@]
    } else if t.len() < 2 {
        seq![echo, "missing request type"@]
    } else if request_method_of(t[1]) is None {
        seq![echo, "Unknown request type: '"@ + t[1] + "'"@]
    } else if id == u64::MAX {
        seq![echo, "request ids are exhausted"@]
    } else {
        seq![echo]
    }
}

pub open spec fn notification_reply(has_client: bool, t: Seq<Seq<char>>) -> Seq<Seq<char>> {
    let echo = "got notification: "@ + debug_list(t.subrange(1, t.len() as int));
    if !has_client {
        seq![echo, "LSP client is not initialized, can't send notification."@]
    } else if t.len() < 2 {
        seq![echo, "missing notification type"@]
    } else if notification_method_of(t[1]) is None {
        seq![echo, "Unknown notification type: '"@ + t[1] + "'"@]
    } else {
        seq![echo]
    }
}

/// The lines printed for a line, before its action is carried out.
pub open spec fn reply(has_client: bool, id: u64, t: Seq<Seq<char>>) -> Seq<Seq<char>> {
    match line_kind(t) {
        LineKind::Empty => seq![],
        LineKind::Exit => seq![],
        LineKind::Help => help_lines(),
        LineKind::Start => if t.len() < 2 {
            seq!["missing program to start"@]
        } else {
            seq![]
        },
        LineKind::Request => request_reply(has_client, id, t),
        LineKind::Notify => notification_reply(has_client, t),
        LineKind::Unknown => seq!["unknown command: '"@ + t[0] + "'"@],
    }
}

/// Whether `a` is the action owed for the line.
pub open spec fn action_fits(a: Action, has_client: bool, id: u64, t: Seq<Seq<char>>) -> bool {
    match a {
        Action::Nothing => !starts_program(t) && !sends_request(has_client, id, t)
            && !sends_notification(has_client, t),
        Action::Start { program, args } => starts_program(t) && program@ == t[1] && texts(args@)
            == t.subrange(2, t.len() as int),
        Action::Request { id: sent, params } => sends_request(has_client, id, t) && sent == id + 1
            && params.method() == request_method_of(t[1])->0,
        Action::Notify { params } => sends_notification(has_client, t) && params.method()
            == notification_method_of(t[1])->0,
    }
}

/// What dispatching the tokens `t` does to a session and what it returns: the
/// client is never touched here, `exit` is set by an exit line, the counter
/// moves by one exactly when a request is sent, and the reply and the action
/// are those owed for the line.
pub open spec fn dispatched<C>(before: Session<C>, after: Session<C>, t: Seq<Seq<char>>, r: Step) -> bool {
    let has = before.client is Some;
    &&& after.client == before.client
    &&& after.exit == (before.exit || line_kind(t) == LineKind::Exit)
    &&& after.request_id == next_request_id(has, before.request_id, t)
    &&& texts(r.lines@) == reply(has, before.request_id, t)
    &&& action_fits(r.action, has, before.request_id, t)
}

fn text(s: &str) -> (r: String)
    ensures
        r@ == s@,
{
    String::from_str(s)
}

fn quoted(prefix: &str, t: &String) -> (r: String)
    ensures
        r@ == prefix@ + t@ + "'"@,
{
    String::from_str(prefix).concat(t.as_str()).concat("'")
}

fn one_line(s: String) -> (r: Vec<String>)
    ensures
        texts(r@) == seq![s@],
{
    let mut r: Vec<String> = Vec::new();
    r.push(s);
    assert(texts(r@) =~= seq![s@]);
    r
}

fn two_lines(a: String, b: String) -> (r: Vec<String>)
    ensures
        texts(r@) == seq![a@, b@],
{
    let mut r: Vec<String> = Vec::new();
    r.push(a);
    r.push(b);
    assert(texts(r@) =~= seq![a@, b@]);
    r
}

/// Copies the tokens from index `from` on.
pub fn tokens_from(t: &Vec<String>, from: usize) -> (r: Vec<String>)
    requires
        from <= t@.len(),
    ensures
        texts(r@) == texts(t@).subrange(from as int, t@.len() as int),
{
    let mut r: Vec<String> = Vec::new();
    let mut i: usize = from;
    while i < t.len()
        invariant
            from <= i <= t@.len(),
            texts(r@) == texts(t@).subrange(from as int, i as int),
        decreases t@.len() - i,
    {
        let c = t[i].clone();
        let ghost before = r@;
        r.push(c);
        assert(texts(r@) =~= texts(before).push(c@));
        assert(texts(t@).subrange(from as int, i + 1) =~= texts(t@).subrange(from as int, i as int).push(t@[i as int]@));
        i = i + 1;
    }
    r
}

/// The usage text.
pub fn handle_help() -> (r: Vec<String>)
    ensures
        texts(r@) == help_lines(),
{
    let mut r: Vec<String> = Vec::new();
    r.push(text("exit | quit | q                  leave the shell"));
    r.push(text("help | h                         show this text"));
    r.push(text("start | s <program> [args...]    start a language server"));
    r.push(text("request | req | r <method> ...   send a request (initialize)"));
    r.push(text("notify | not | n <method> ...    send a notification (initialized)"));
    assert(texts(r@) =~= help_lines());
    r
}

/// A `start` line: the program and its arguments follow the leading token.
pub fn handle_start<C>(state: &Session<C>, t: &Vec<String>) -> (r: Step)
    requires
        line_kind(texts(t@)) == LineKind::Start,
    ensures
        texts(r.lines@) == reply(state.client is Some, state.request_id, texts(t@)),
        action_fits(r.action, state.client is Some, state.request_id, texts(t@)),
{
    if t.len() < 2 {
        Step { lines: one_line(text("missing program to start")), action: Action::Nothing }
    } else {
        let program = t[1].clone();
        let args = tokens_from(t, 2);
        let lines: Vec<String> = Vec::new();
        assert(texts(lines@) =~= seq![]);
        Step { lines, action: Action::Start { program, args } }
    }
}

/// A `request` line: needs a client, a known method, and a free id, which it
/// then takes.
pub fn handle_request<C>(state: &mut Session<C>, t: &Vec<String>) -> (r: Step)
    requires
        line_kind(texts(t@)) == LineKind::Request,
    ensures
        dispatched(*old(state), *final(state), texts(t@), r),
{
    proof {
        assert(texts(t@).len() == t@.len());
    }
    if state.client.is_none() {
        return Step {
            lines: one_line(text("LSP client is not initialized, can't send request.")),
            action: Action::Nothing,
        };
    }
    let echo = text("got request: ").concat(debug_list_from(t, 1).as_str());
    if t.len() < 2 {
        return Step {
            lines: two_lines(echo, text("missing request type")),
            action: Action::Nothing,
        };
    }
    match lookup_request(&t[1]) {
        None => Step {
            lines: two_lines(echo, quoted("Unknown request type: '", &t[1])),
            action: Action::Nothing,
        },
        Some(method) => {
            if state.request_id == u64::MAX {
                Step {
                    lines: two_lines(echo, text("request ids are exhausted")),
                    action: Action::Nothing,
                }
            } else {
                let params = build_request(method, &tokens_from(t, 2));
                state.request_id = state.request_id + 1;
                Step {
                    lines: one_line(echo),
                    action: Action::Request { id: state.request_id, params },
                }
            }
        },
    }
}

/// A `notify` line: echoes itself, then needs a client and a known method.
/// It never touches the request counter.
pub fn handle_notification<C>(state: &Session<C>, t: &Vec<String>) -> (r: Step)
    requires
        line_kind(texts(t@)) == LineKind::Notify,
    ensures
        texts(r.lines@) == notification_reply(state.client is Some, texts(t@)),
        action_fits(r.action, state.client is Some, state.request_id, texts(t@)),
{
    proof {
        assert(texts(t@).len() == t@.len());
    }
    let echo = text("got notification: ").concat(debug_list_from(t, 1).as_str());
    if state.client.is_none() {
        return Step {
            lines: two_lines(
                echo,
                text("LSP client is not initialized, can't send notification."),
            ),
            action: Action::Nothing,
        };
    }
    if t.len() < 2 {
        return Step {
            lines: two_lines(echo, text("missing notification type")),
            action: Action::Nothing,
        };
    }
    match lookup_notification(&t[1]) {
        None => Step {
            lines: two_lines(echo, quoted("Unknown notification type: '", &t[1])),
            action: Action::Nothing,
        },
        Some(method) => {
            let params = build_notification(method, &tokens_from(t, 2));
            Step { lines: one_line(echo), action: Action::Notify { params } }
        },
    }
}

/// Dispatches one tokenized line.
pub fn dispatch<C>(state: &mut Session<C>, t: &Vec<String>) -> (r: Step)
    ensures
        dispatched(*old(state), *final(state), texts(t@), r),
{
    let ghost tv = texts(t@);
    assert(tv.len() == t@.len());
    if t.len() == 0 {
        let lines: Vec<String> = Vec::new();
        assert(texts(lines@) =~= seq![]);
        return Step { lines, action: Action::Nothing };
    }
    let w = &t[0];
    assert(tv[0] == w@);
    let single = t.len() == 1;
    if single && (is_word(w, "exit") || is_word(w, "quit") || is_word(w, "q")) {
        state.exit = true;
        let lines: Vec<String> = Vec::new();
        assert(texts(lines@) =~= seq![]);
        Step { lines, action: Action::Nothing }
    } else if single && (is_word(w, "help") || is_word(w, "h")) {
        Step { lines: handle_help(), action: Action::Nothing }
    } else if is_word(w, "start") || is_word(w, "s") {
        handle_start(state, t)
    } else if is_word(w, "request") || is_word(w, "req") || is_word(w, "r") {
        handle_request(state, t)
    } else if is_word(w, "notify") || is_word(w, "not") || is_word(w, "n") {
        handle_notification(state, t)
    } else {
        Step { lines: one_line(quoted("unknown command: '", w)), action: Action::Nothing }
    }
}

/// Splits an input line into tokens and dispatches it.
pub fn handle_input<C>(state: &mut Session<C>, input: &str) -> (r: Step)
    ensures
        dispatched(*old(state), *final(state), tokens_of(input@), r),
{
    let t = tokenize(input);
    dispatch(state, &t)
}

} // verus!
