//! The failures that the stage reports, and their mathematical model.

use vstd::prelude::*;

verus! {

/// What is wrong with a configuration document, and at which entry of its
/// list.
#[derive(Debug, Clone, Copy, PartialEq, Eq, Structural)]
pub enum ConfigFault {
    /// The document is not well-formed JSON.
    NotJson,
    /// The document is JSON, but its top-level value is not a list.
    NotAList,
    /// The entry at `index` is not an object.
    NotAnObject { index: usize },
    /// The entry at `index` has no `type` member that is a string.
    MissingKind { index: usize },
    /// The `type` of the entry at `index` names no known kind of operation.
    UnknownKind { index: usize },
    /// The entry at `index` has no `regex` member that is a string.
    MissingPattern { index: usize },
    /// The entry at `index` has no `with` member that is a string.
    MissingTemplate { index: usize },
}

/// A failure of the stage. None is recovered from inside the library: each
/// ends the unit of work in which it occurs.
#[derive(Debug, PartialEq, Eq)]
pub enum StageError {
    /// The configuration parameter `name` was not supplied.
    MissingConfiguration { name: String },
    /// The configuration parameter was supplied but is no list of known
    /// operations. `message` holds the JSON parser's report where the
    /// document is not JSON, and is empty otherwise.
    InvalidConfiguration { fault: ConfigFault, message: String },
    /// `pattern` is not accepted by the regex compiler, which reported
    /// `message`.
    InvalidPattern { pattern: String, message: String },
    /// `template` refers to a capture group that `pattern` does not define.
    /// `reference` is the first such reference, as the template writes it
    /// after the `$`, without braces.
    InvalidTemplate { pattern: String, template: String, reference: String },
    /// A record was handed to a stage that has not been initialized.
    UninitializedPipeline,
    /// The value of a record is not UTF-8 text.
    NonTextPayload,
    /// The text that the operations produced is not well-formed JSON.
    MalformedResultPayload,
}

/// The model of a `StageError`: the same failure, with its texts as
/// sequences of characters.
pub enum Failure {
    MissingConfiguration { name: Seq<char> },
    InvalidConfiguration { fault: ConfigFault, message: Seq<char> },
    InvalidPattern { pattern: Seq<char>, message: Seq<char> },
    InvalidTemplate { pattern: Seq<char>, template: Seq<char>, reference: Seq<char> },
    UninitializedPipeline,
    NonTextPayload,
    MalformedResultPayload,
}

impl View for StageError {
    type V = Failure;

    open spec fn view(&self) -> Failure {
        match self {
            StageError::MissingConfiguration { name } => Failure::MissingConfiguration {
                name: name@,
            },
            StageError::InvalidConfiguration { fault, message } => Failure::InvalidConfiguration {
                fault: *fault,
                message: message@,
            },
            StageError::InvalidPattern { pattern, message } => Failure::InvalidPattern {
                pattern: pattern@,
                message: message@,
            },
            StageError::InvalidTemplate {
                pattern,
                template,
                reference,
            } => Failure::InvalidTemplate {
                pattern: pattern@,
                template: template@,
                reference: reference@,
            },
            StageError::UninitializedPipeline => Failure::UninitializedPipeline,
            StageError::NonTextPayload => Failure::NonTextPayload,
            StageError::MalformedResultPayload => Failure::MalformedResultPayload,
        }
    }
}

} // verus!
