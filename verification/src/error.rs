//! Core error type.

use vstd::prelude::*;
use crate::text::concat2;

verus! {

/// The canonical error type of the library.
///
/// Errors that come from I/O or from JSON handling elsewhere are carried by
/// their message text.
#[derive(Debug)]
pub enum CoreError {
    /// A required environment variable was absent.
    MissingEnv(String),
    /// An I/O operation failed; the text is the I/O error's message.
    Io(String),
    /// JSON serialisation or deserialisation failed; the text is the JSON error's message.
    Json(String),
    /// An external command failed.
    Command {
        /// Short label identifying which command or operation failed.
        context: String,
        /// Human-readable description of the failure.
        message: String,
    },
    /// A generic message-only error.
    Message(String),
    /// A requested resource does not exist.
    NotFound(String),
    /// A resource already exists (e.g. an idempotent create was attempted twice).
    AlreadyExists(String),
    /// A failure that is expected to be transient and may succeed if retried.
    Transient {
        /// Short label identifying which command or operation failed.
        context: String,
        /// Human-readable description of the failure.
        message: String,
    },
}

/// The mathematical value of a [`CoreError`].
pub enum CoreErrorView {
    MissingEnv(Seq<char>),
    Io(Seq<char>),
    Json(Seq<char>),
    Command { context: Seq<char>, message: Seq<char> },
    Message(Seq<char>),
    NotFound(Seq<char>),
    AlreadyExists(Seq<char>),
    Transient { context: Seq<char>, message: Seq<char> },
}

impl View for CoreError {
    type V = CoreErrorView;

    open spec fn view(&self) -> CoreErrorView {
        match self {
            CoreError::MissingEnv(s) => CoreErrorView::MissingEnv(s@),
            CoreError::Io(s) => CoreErrorView::Io(s@),
            CoreError::Json(s) => CoreErrorView::Json(s@),
            CoreError::Command { context, message } => CoreErrorView::Command {
                context: context@,
                message: message@,
            },
            CoreError::Message(s) => CoreErrorView::Message(s@),
            CoreError::NotFound(s) => CoreErrorView::NotFound(s@),
            CoreError::AlreadyExists(s) => CoreErrorView::AlreadyExists(s@),
            CoreError::Transient { context, message } => CoreErrorView::Transient {
                context: context@,
                message: message@,
            },
        }
    }
}

/// The human-readable text of an error.
pub open spec fn error_text(e: CoreErrorView) -> Seq<char> {
    match e {
        CoreErrorView::MissingEnv(v) => "missing environment variable: "@ + v,
        CoreErrorView::Io(m) => "I/O error: "@ + m,
        CoreErrorView::Json(m) => "JSON error: "@ + m,
        CoreErrorView::Command { context, message } => "command error ("@ + context + "): "@
            + message,
        CoreErrorView::Message(m) => m,
        CoreErrorView::NotFound(m) => "not found: "@ + m,
        CoreErrorView::AlreadyExists(m) => "already exists: "@ + m,
        CoreErrorView::Transient { context, message } => "transient error ("@ + context
            + "): "@ + message,
    }
}

/// The view of a result whose error is a [`CoreError`].
pub open spec fn result_view<T: View>(r: Result<T, CoreError>) -> Result<T::V, CoreErrorView> {
    match r {
        Ok(t) => Ok(t@),
        Err(e) => Err(e@),
    }
}

impl CoreError {
    /// The human-readable text of the error.
    pub fn to_display_string(&self) -> (s: String)
        ensures
            s@ == error_text(self@),
    {
        match self {
            CoreError::MissingEnv(v) => concat2("missing environment variable: ", v.as_str()),
            CoreError::Io(m) => concat2("I/O error: ", m.as_str()),
            CoreError::Json(m) => concat2("JSON error: ", m.as_str()),
            CoreError::Command { context, message } => {
                let mut s = concat2("command error (", context.as_str());
                s.append("): ");
                s.append(message.as_str());
                s
            },
            CoreError::Message(m) => m.clone(),
            CoreError::NotFound(m) => concat2("not found: ", m.as_str()),
            CoreError::AlreadyExists(m) => concat2("already exists: ", m.as_str()),
            CoreError::Transient { context, message } => {
                let mut s = concat2("transient error (", context.as_str());
                s.append("): ");
                s.append(message.as_str());
                s
            },
        }
    }

    /// A copy of the error.
    pub fn duplicate(&self) -> (e: CoreError)
        ensures
            e@ == self@,
    {
        match self {
            CoreError::MissingEnv(v) => CoreError::MissingEnv(v.clone()),
            CoreError::Io(m) => CoreError::Io(m.clone()),
            CoreError::Json(m) => CoreError::Json(m.clone()),
            CoreError::Command { context, message } => CoreError::Command {
                context: context.clone(),
                message: message.clone(),
            },
            CoreError::Message(m) => CoreError::Message(m.clone()),
            CoreError::NotFound(m) => CoreError::NotFound(m.clone()),
            CoreError::AlreadyExists(m) => CoreError::AlreadyExists(m.clone()),
            CoreError::Transient { context, message } => CoreError::Transient {
                context: context.clone(),
                message: message.clone(),
            },
        }
    }
}

} // verus!
