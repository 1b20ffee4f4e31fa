//! Interpreting the outcome of a completed request.
use vstd::prelude::*;
use crate::text::texts;

verus! {

/// How a request ended. The payloads are already rendered as text.
pub enum Outcome {
    /// The exchange itself failed: the process died, a stream closed, or the
    /// framing was malformed.
    TransportFailure { message: String },
    /// The server answered with a result.
    Success { payload: String },
    /// The server answered with an error, which may carry diagnostic data.
    ApplicationError { message: String, data: Option<String> },
}

/// The three ways a completed exchange is reported.
#[derive(PartialEq, Eq, Structural, Clone, Copy, Debug)]
pub enum Category {
    TransportFailure,
    Success,
    ApplicationError,
}

/// What an interpreted outcome prints, and under which category.
pub struct Report {
    pub category: Category,
    pub lines: Vec<String>,
}

/// The category of an outcome: its variant, and nothing of its contents.
pub open spec fn category_of(o: Outcome) -> Category {
    match o {
        Outcome::TransportFailure { .. } => Category::TransportFailure,
        Outcome::Success { .. } => Category::Success,
        Outcome::ApplicationError { .. } => Category::ApplicationError,
    }
}

/// The lines printed for an outcome: the failure's message, the result, or
/// the error's message followed by its data when there is some.
pub open spec fn response_lines(o: Outcome) -> Seq<Seq<char>> {
    match o {
        Outcome::TransportFailure { message } => seq![message@],
        Outcome::Success { payload } => seq![payload@],
        Outcome::ApplicationError { message, data } => match data {
            Some(d) => seq![message@, d@],
            None => seq![message@],
        },
    }
}

/// Interprets the outcome of a request.
pub fn handle_response(outcome: &Outcome) -> (r: Report)
    ensures
        r.category == category_of(*outcome),
        texts(r.lines@) == response_lines(*outcome),
{
    let mut lines: Vec<String> = Vec::new();
    let category = match outcome {
        Outcome::TransportFailure { message } => {
            lines.push(message.clone());
            Category::TransportFailure
        },
        Outcome::Success { payload } => {
            lines.push(payload.clone());
            Category::Success
        },
        Outcome::ApplicationError { message, data } => {
            lines.push(message.clone());
            if let Some(d) = data {
                lines.push(d.clone());
            }
            Category::ApplicationError
        },
    };
    assert(texts(lines@) =~= response_lines(*outcome));
    Report { category, lines }
}

} // verus!
