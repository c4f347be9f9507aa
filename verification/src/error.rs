//! The failures of the rendering pipeline, and how each of them is worded and
//! handed to the template engine.

use vstd::prelude::*;
use vstd::string::StringExecFns;

verus! {

/// The template engine's own error. What is inside it is not visible here.
#[verifier::external_type_specification]
#[verifier::external_body]
pub struct ExTemplateError(minijinja::Error);

/// What went wrong while a document was rendered.
#[derive(Debug)]
pub enum ProcessorErrorType {
    /// The path of a document could not be resolved.
    PathInvalid(String),
    /// The preamble does not have the shape of the settings.
    MalformedPreamble(String),
    /// The template engine asked for a template that the loader does not have.
    TemplateNotFound(minijinja::Error),
    /// The template engine failed to expand the text.
    Expansion(minijinja::Error),
    /// A process could not be run, or what it wrote is no text.
    CommandFailed(String),
    /// Tabular data could not be read.
    Csv(String),
    /// A macro was called without an argument that it needs.
    MissingArgument(String),
    /// A document could not be read.
    Io(String),
    /// Documents include each other in a cycle, or too deeply.
    RecursionLimit(String),
    /// Any other failure, in words.
    Generic(String),
}

/// A failure of the rendering pipeline.
#[derive(Debug)]
pub struct ProcessorError {
    pub error: ProcessorErrorType,
}

/// The kinds of failure, without what they carry.
#[derive(Debug, Clone, Copy, PartialEq, Eq, Structural)]
pub enum FailureKind {
    PathInvalid,
    MalformedPreamble,
    TemplateNotFound,
    Expansion,
    CommandFailed,
    Csv,
    MissingArgument,
    Io,
    RecursionLimit,
    Generic,
}

/// A failure as plain values: its kind, and the text or the error of the
/// template engine that it carries. A failure carries the one or the other.
pub struct FailureModel {
    pub kind: FailureKind,
    pub detail: Option<Seq<char>>,
    pub cause: Option<minijinja::Error>,
}

/// A failure of the given kind that carries the given text.
pub open spec fn failure(kind: FailureKind, detail: Seq<char>) -> FailureModel {
    FailureModel { kind, detail: Some(detail), cause: None }
}

/// A failure of the given kind that carries the given error of the engine.
pub open spec fn engine_failure(kind: FailureKind, cause: minijinja::Error) -> FailureModel {
    FailureModel { kind, detail: None, cause: Some(cause) }
}

impl View for ProcessorErrorType {
    type V = FailureModel;

    open spec fn view(&self) -> FailureModel {
        match *self {
            ProcessorErrorType::PathInvalid(text) => failure(FailureKind::PathInvalid, text@),
            ProcessorErrorType::MalformedPreamble(text) => failure(
                FailureKind::MalformedPreamble,
                text@,
            ),
            ProcessorErrorType::TemplateNotFound(error) => engine_failure(
                FailureKind::TemplateNotFound,
                error,
            ),
            ProcessorErrorType::Expansion(error) => engine_failure(FailureKind::Expansion, error),
            ProcessorErrorType::CommandFailed(text) => failure(FailureKind::CommandFailed, text@),
            ProcessorErrorType::Csv(text) => failure(FailureKind::Csv, text@),
            ProcessorErrorType::MissingArgument(text) => failure(
                FailureKind::MissingArgument,
                text@,
            ),
            ProcessorErrorType::Io(text) => failure(FailureKind::Io, text@),
            ProcessorErrorType::RecursionLimit(text) => failure(FailureKind::RecursionLimit, text@),
            ProcessorErrorType::Generic(text) => failure(FailureKind::Generic, text@),
        }
    }
}

impl View for ProcessorError {
    type V = FailureModel;

    open spec fn view(&self) -> FailureModel {
        self.error@
    }
}

/// The kinds of error that the template engine is handed.
#[derive(Debug, Clone, Copy, PartialEq, Eq, Structural)]
pub enum TemplateErrorKind {
    InvalidOperation,
    MissingArgument,
}

/// What the template engine is told of a failure that did not come from it:
/// a kind and a message.
pub struct TemplateFault {
    pub kind: TemplateErrorKind,
    pub detail: String,
}

/// The wording of an unresolvable path.
pub open spec fn path_invalid_text(path: Seq<char>) -> Seq<char> {
    "path '"@ + path + "' invalid"@
}

/// The wording of a preamble that does not fit the settings.
pub open spec fn malformed_preamble_text(detail: Seq<char>) -> Seq<char> {
    "frontmatter invalid: "@ + detail
}

/// The words of a failure that carries its own text, as they are shown.
pub open spec fn shown_text(kind: FailureKind, detail: Seq<char>) -> Seq<char> {
    match kind {
        FailureKind::PathInvalid => path_invalid_text(detail),
        FailureKind::MalformedPreamble => malformed_preamble_text(detail),
        _ => detail,
    }
}

/// The kind and the message under which the template engine hears of a
/// failure that carries its own text: a missing argument as such, an invalid
/// preamble in fixed words, any other as an invalid operation with its text.
pub open spec fn engine_fault(kind: FailureKind, detail: Seq<char>) -> (TemplateErrorKind, Seq<char>) {
    match kind {
        FailureKind::MissingArgument => (TemplateErrorKind::MissingArgument, detail),
        FailureKind::MalformedPreamble => (
            TemplateErrorKind::InvalidOperation,
            "invalid document frontmatter"@,
        ),
        _ => (TemplateErrorKind::InvalidOperation, detail),
    }
}

/// The engine's wording of one of its errors.
pub uninterp spec fn engine_words(error: minijinja::Error) -> Seq<char>;

/// The error that the engine makes of a kind and a message.
pub uninterp spec fn engine_error_of(kind: TemplateErrorKind, detail: Seq<char>) -> minijinja::Error;

/// Whether an error of the engine says that a template was not found.
pub uninterp spec fn misses_template(error: minijinja::Error) -> bool;

impl ProcessorErrorType {
    /// The failure in words: the engine's for an error of the engine, and
    /// `shown_text` of the text that any other failure carries.
    pub open spec fn words(&self) -> Seq<char> {
        match *self {
            ProcessorErrorType::TemplateNotFound(error) => engine_words(error),
            ProcessorErrorType::Expansion(error) => engine_words(error),
            _ => shown_text(self@.kind, self@.detail->0),
        }
    }

    /// The failure as an error of the engine: the engine's own error as it
    /// is, and for any other failure the error that the engine makes of the
    /// kind and message of `engine_fault`.
    pub open spec fn engine_form(&self) -> minijinja::Error {
        match *self {
            ProcessorErrorType::TemplateNotFound(error) => error,
            ProcessorErrorType::Expansion(error) => error,
            _ => engine_error_of(
                engine_fault(self@.kind, self@.detail->0).0,
                engine_fault(self@.kind, self@.detail->0).1,
            ),
        }
    }
}

/// `Display` of `minijinja::Error`, as a string: the engine's wording of its
/// own error, which depends on the error alone.
#[verifier::external_body]
pub(crate) fn engine_error_text(error: &minijinja::Error) -> (text: String)
    ensures
        text@ == engine_words(*error),
{
    error.to_string()
}

/// `minijinja::Error::new`: an error of the engine with the given kind and
/// message, which depends on the two alone.
#[verifier::external_body]
fn engine_error(kind: TemplateErrorKind, detail: String) -> (error: minijinja::Error)
    ensures
        error == engine_error_of(kind, detail@),
{
    match kind {
        TemplateErrorKind::InvalidOperation => minijinja::Error::new(
            minijinja::ErrorKind::InvalidOperation,
            detail,
        ),
        TemplateErrorKind::MissingArgument => minijinja::Error::new(
            minijinja::ErrorKind::MissingArgument,
            detail,
        ),
    }
}

/// `minijinja::Error::kind`, compared with `ErrorKind::TemplateNotFound`:
/// whether the engine failed for want of a template, which depends on the
/// error alone.
#[verifier::external_body]
fn engine_missed_template(error: &minijinja::Error) -> (missed: bool)
    ensures
        missed == misses_template(*error),
{
    matches!(error.kind(), minijinja::ErrorKind::TemplateNotFound)
}

impl From<ProcessorErrorType> for ProcessorError {
    fn from(error: ProcessorErrorType) -> (failure: Self) {
        ProcessorError { error }
    }
}

impl vstd::std_specs::convert::FromSpecImpl<ProcessorErrorType> for ProcessorError {
    open spec fn obeys_from_spec() -> bool {
        true
    }

    open spec fn from_spec(error: ProcessorErrorType) -> Self {
        ProcessorError { error }
    }
}

impl ProcessorError {
    /// The failure of an expansion, from the engine's error and from whether
    /// the engine looked for a template in vain.
    pub fn of_expansion(error: minijinja::Error, template_missing: bool) -> (failure: Self)
        ensures
            failure.error == if template_missing {
                ProcessorErrorType::TemplateNotFound(error)
            } else {
                ProcessorErrorType::Expansion(error)
            },
    {
        if template_missing {
            ProcessorError { error: ProcessorErrorType::TemplateNotFound(error) }
        } else {
            ProcessorError { error: ProcessorErrorType::Expansion(error) }
        }
    }

    /// The failure that an error of the template engine stands for: a missing
    /// template where the engine says so, a failed expansion otherwise.
    pub fn from_engine(error: minijinja::Error) -> (failure: Self)
        ensures
            failure.error == if misses_template(error) {
                ProcessorErrorType::TemplateNotFound(error)
            } else {
                ProcessorErrorType::Expansion(error)
            },
    {
        let missing = engine_missed_template(&error);
        ProcessorError::of_expansion(error, missing)
    }

    /// A failure that is described by words alone.
    pub fn new_generic(detail: &str) -> (failure: Self)
        ensures
            failure@ == self::failure(FailureKind::Generic, detail@),
    {
        ProcessorError { error: ProcessorErrorType::Generic(detail.to_owned()) }
    }

    /// The failure in words, as it is shown to the user. An error of the
    /// template engine is worded by the engine.
    pub fn message(&self) -> (text: String)
        ensures
            text@ == self.error.words(),
    {
        match &self.error {
            ProcessorErrorType::PathInvalid(path) => {
                let mut text = "path '".to_owned();
                text.append(path.as_str());
                text.append("' invalid");
                text
            },
            ProcessorErrorType::MalformedPreamble(detail) => {
                let mut text = "frontmatter invalid: ".to_owned();
                text.append(detail.as_str());
                text
            },
            ProcessorErrorType::TemplateNotFound(error) => engine_error_text(error),
            ProcessorErrorType::Expansion(error) => engine_error_text(error),
            ProcessorErrorType::CommandFailed(detail) => detail.clone(),
            ProcessorErrorType::Csv(detail) => detail.clone(),
            ProcessorErrorType::MissingArgument(detail) => detail.clone(),
            ProcessorErrorType::Io(detail) => detail.clone(),
            ProcessorErrorType::RecursionLimit(detail) => detail.clone(),
            ProcessorErrorType::Generic(detail) => detail.clone(),
        }
    }

    /// The kind and the message under which the template engine hears of this
    /// failure, where the failure is not an error of the engine itself.
    pub fn template_fault(&self) -> (fault: Option<TemplateFault>)
        ensures
            fault is Some <==> self@.detail is Some,
            fault matches Some(f) ==> (f.kind, f.detail@) == engine_fault(
                self@.kind,
                self@.detail->0,
            ),
    {
        match &self.error {
            ProcessorErrorType::PathInvalid(path) => Some(
                TemplateFault { kind: TemplateErrorKind::InvalidOperation, detail: path.clone() },
            ),
            ProcessorErrorType::MalformedPreamble(_) => Some(
                TemplateFault {
                    kind: TemplateErrorKind::InvalidOperation,
                    detail: "invalid document frontmatter".to_owned(),
                },
            ),
            ProcessorErrorType::TemplateNotFound(_) => None,
            ProcessorErrorType::Expansion(_) => None,
            ProcessorErrorType::CommandFailed(detail) => Some(
                TemplateFault { kind: TemplateErrorKind::InvalidOperation, detail: detail.clone() },
            ),
            ProcessorErrorType::Csv(detail) => Some(
                TemplateFault { kind: TemplateErrorKind::InvalidOperation, detail: detail.clone() },
            ),
            ProcessorErrorType::MissingArgument(detail) => Some(
                TemplateFault { kind: TemplateErrorKind::MissingArgument, detail: detail.clone() },
            ),
            ProcessorErrorType::Io(detail) => Some(
                TemplateFault { kind: TemplateErrorKind::InvalidOperation, detail: detail.clone() },
            ),
            ProcessorErrorType::RecursionLimit(detail) => Some(
                TemplateFault { kind: TemplateErrorKind::InvalidOperation, detail: detail.clone() },
            ),
            ProcessorErrorType::Generic(detail) => Some(
                TemplateFault { kind: TemplateErrorKind::InvalidOperation, detail: detail.clone() },
            ),
        }
    }

    /// The failure as an error of the template engine, for a macro to return.
    /// An error that came from the engine is handed back as it is; any other
    /// becomes a new error with the kind and message of `template_fault`.
    pub fn into_template_error(self) -> (error: minijinja::Error)
        ensures
            error == self.error.engine_form(),
    {
        match self.template_fault() {
            Some(fault) => engine_error(fault.kind, fault.detail),
            None => match self.error {
                ProcessorErrorType::TemplateNotFound(error) => error,
                ProcessorErrorType::Expansion(error) => error,
                _ => vstd::pervasive::unreached(),
            },
        }
    }
}

} // verus!
