//! The closed registry of request and notification commands.
use vstd::prelude::*;

verus! {

#[verifier::external_type_specification]
#[verifier::external_body]
pub struct ExInitializeParams(lsp_types::InitializeParams);

#[verifier::external_type_specification]
#[verifier::external_body]
pub struct ExInitializedParams(lsp_types::InitializedParams);

/// Relies on `lsp_types::InitializeParams::default`: the parameters of an
/// `initialize` request with every optional field left out.
#[verifier::external_body]
fn default_initialize_params() -> (r: lsp_types::InitializeParams) {
    lsp_types::InitializeParams::default()
}

/// Relies on `lsp_types::InitializedParams`, a struct without fields: its one value.
#[verifier::external_body]
fn empty_initialized_params() -> (r: lsp_types::InitializedParams) {
    lsp_types::InitializedParams {}
}

/// A request command: builds the protocol parameters of its method from the
/// argument tokens that follow the method name.
pub trait RequestCommand {
    type Params;

    fn build_parameters(args: Vec<&str>) -> Self::Params;
}

/// A notification command: builds the protocol parameters of its method from
/// the argument tokens that follow the method name.
pub trait NotificationCommand {
    type Params;

    fn build_parameters(args: Vec<&str>) -> Self::Params;
}

/// The `initialize` request, which opens a session with the server.
pub struct InitializeCmd;

impl RequestCommand for InitializeCmd {
    type Params = lsp_types::InitializeParams;

    fn build_parameters(args: Vec<&str>) -> lsp_types::InitializeParams {
        default_initialize_params()
    }
}

/// The `initialized` notification, sent once the `initialize` result arrived.
pub struct InitializedCmd;

impl NotificationCommand for InitializedCmd {
    type Params = lsp_types::InitializedParams;

    fn build_parameters(args: Vec<&str>) -> lsp_types::InitializedParams {
        empty_initialized_params()
    }
}

/// The request methods the shell knows.
#[derive(PartialEq, Eq, Structural, Clone, Copy, Debug)]
pub enum RequestMethod {
    Initialize,
}

/// The notification methods the shell knows.
#[derive(PartialEq, Eq, Structural, Clone, Copy, Debug)]
pub enum NotificationMethod {
    Initialized,
}

/// The request method that a method name selects, if any.
pub open spec fn request_method_of(name: Seq<char>) -> Option<RequestMethod> {
    if name == "initialize"@ {
        Some(RequestMethod::Initialize)
    } else {
        None
    }
}

/// The notification method that a method name selects, if any.
pub open spec fn notification_method_of(name: Seq<char>) -> Option<NotificationMethod> {
    if name == "initialized"@ {
        Some(NotificationMethod::Initialized)
    } else {
        None
    }
}

/// The parameters of a request, tagged with the method they belong to.
pub enum RequestParams {
    Initialize(lsp_types::InitializeParams),
}

impl RequestParams {
    pub open spec fn method(&self) -> RequestMethod {
        match self {
            RequestParams::Initialize(_) => RequestMethod::Initialize,
        }
    }
}

/// The parameters of a notification, tagged with the method they belong to.
pub enum NotificationParams {
    Initialized(lsp_types::InitializedParams),
}

impl NotificationParams {
    pub open spec fn method(&self) -> NotificationMethod {
        match self {
            NotificationParams::Initialized(_) => NotificationMethod::Initialized,
        }
    }
}

/// Whether a token spells the given word.
pub fn is_word(token: &String, word: &str) -> (r: bool)
    ensures
        r == (token@ == word@),
{
    let w = String::from_str(word);
    token.eq(&w)
}

/// Looks a request method up by its name.
pub fn lookup_request(name: &String) -> (r: Option<RequestMethod>)
    ensures
        r == request_method_of(name@),
{
    if is_word(name, "initialize") {
        Some(RequestMethod::Initialize)
    } else {
        None
    }
}

/// Looks a notification method up by its name.
pub fn lookup_notification(name: &String) -> (r: Option<NotificationMethod>)
    ensures
        r == notification_method_of(name@),
{
    if is_word(name, "initialized") {
        Some(NotificationMethod::Initialized)
    } else {
        None
    }
}

/// Borrows each token as a string slice.
pub fn as_strs(tokens: &Vec<String>) -> (r: Vec<&str>)
    ensures
        r@.len() == tokens@.len(),
        forall|i: int| 0 <= i < tokens@.len() ==> #[trigger] r@[i]@ == tokens@[i]@,
{
    let mut r: Vec<&str> = Vec::new();
    let mut i: usize = 0;
    while i < tokens.len()
        invariant
            i <= tokens@.len(),
            r@.len() == i,
            forall|j: int| 0 <= j < i ==> #[trigger] r@[j]@ == tokens@[j]@,
        decreases tokens@.len() - i,
    {
        r.push(tokens[i].as_str());
        i = i + 1;
    }
    r
}

/// Builds the parameters of a request method from its argument tokens.
pub fn build_request(method: RequestMethod, args: &Vec<String>) -> (r: RequestParams)
    ensures
        r.method() == method,
{
    match method {
        RequestMethod::Initialize => RequestParams::Initialize(
            InitializeCmd::build_parameters(as_strs(args)),
        ),
    }
}

/// Builds the parameters of a notification method from its argument tokens.
pub fn build_notification(method: NotificationMethod, args: &Vec<String>) -> (r: NotificationParams)
    ensures
        r.method() == method,
{
    match method {
        NotificationMethod::Initialized => NotificationParams::Initialized(
            InitializedCmd::build_parameters(as_strs(args)),
        ),
    }
}

} // verus!
