//! Errors on both sides of the boundary, and the way from one to the other.

use vstd::prelude::*;

verus! {

/// A failure reported by the provider side of a call.
#[derive(Debug, PartialEq, Eq)]
pub enum Error {
    /// Generic failure raised by the runtime, with its text.
    Wasm(String),
    /// The environment has no global `window` object.
    NoGlobalWindowObject,
    /// The named namespace or function is missing from the environment.
    NamespaceNotFound(String),
    /// The named key is missing from an object the provider returned.
    ObjectKeyNotFound(String),
    /// A value the provider returned has the wrong type.
    TypeMismatch(String),
    /// The user declined the request.
    UserRejected,
    /// An empty invoice was handed to the provider.
    EmptyInvoice,
    /// The provider returned something that is no object.
    SomethingGoneWrong,
}

/// Mathematical model of an [`Error`].
pub enum ErrorView {
    Wasm(Seq<char>),
    NoGlobalWindowObject,
    NamespaceNotFound(Seq<char>),
    ObjectKeyNotFound(Seq<char>),
    TypeMismatch(Seq<char>),
    UserRejected,
    EmptyInvoice,
    SomethingGoneWrong,
}

impl View for Error {
    type V = ErrorView;

    open spec fn view(&self) -> ErrorView {
        match *self {
            Error::Wasm(text) => ErrorView::Wasm(text@),
            Error::NoGlobalWindowObject => ErrorView::NoGlobalWindowObject,
            Error::NamespaceNotFound(name) => ErrorView::NamespaceNotFound(name@),
            Error::ObjectKeyNotFound(key) => ErrorView::ObjectKeyNotFound(key@),
            Error::TypeMismatch(text) => ErrorView::TypeMismatch(text@),
            Error::UserRejected => ErrorView::UserRejected,
            Error::EmptyInvoice => ErrorView::EmptyInvoice,
            Error::SomethingGoneWrong => ErrorView::SomethingGoneWrong,
        }
    }
}

/// The text that an error is displayed with.
pub open spec fn display_text(error: ErrorView) -> Seq<char> {
    match error {
        ErrorView::Wasm(text) => text,
        ErrorView::NoGlobalWindowObject => "No global `window` object"@,
        ErrorView::NamespaceNotFound(name) => "`"@ + name + "` namespace not found"@,
        ErrorView::ObjectKeyNotFound(key) => "Key `"@ + key + "` not found in object"@,
        ErrorView::TypeMismatch(text) => "Type mismatch: "@ + text,
        ErrorView::UserRejected => "User rejected"@,
        ErrorView::EmptyInvoice => "Empty invoice"@,
        ErrorView::SomethingGoneWrong => "Something's gone wrong"@,
    }
}

/// The message of an error that has no text of its own.
pub const UNKNOWN_ERROR: &'static str = "Unknown error";

/// The message that crosses the boundary for an error: its display text, or
/// the catch-all text where the display text is empty.
pub open spec fn message_of(error: ErrorView) -> Seq<char> {
    if display_text(error).len() == 0 {
        UNKNOWN_ERROR@
    } else {
        display_text(error)
    }
}

/// No error crosses the boundary with an empty message.
pub proof fn lemma_message_nonempty(error: ErrorView)
    ensures
        message_of(error).len() > 0,
{
    reveal_strlit("Unknown error");
    reveal_strlit("No global `window` object");
    reveal_strlit("`");
    reveal_strlit("Key `");
    reveal_strlit("Type mismatch: ");
    reveal_strlit("User rejected");
    reveal_strlit("Empty invoice");
    reveal_strlit("Something's gone wrong");
}

/// Calls `to_string` on the `webln::Error` of the same variant with the same
/// text, which runs the `Display` impl of `webln::Error`. The contract
/// restates that impl: a fixed sentence for each variant, with the carried
/// text inserted where the variant has one.
#[verifier::external_body]
fn display_string(error: Error) -> (text: String)
    ensures
        text@ == display_text(error@),
{
    let outside = match error {
        Error::Wasm(text) => webln::Error::Wasm(text),
        Error::NoGlobalWindowObject => webln::Error::NoGlobalWindowObject,
        Error::NamespaceNotFound(name) => webln::Error::NamespaceNotFound(name),
        Error::ObjectKeyNotFound(key) => webln::Error::ObjectKeyNotFound(key),
        Error::TypeMismatch(text) => webln::Error::TypeMismatch(text),
        Error::UserRejected => webln::Error::UserRejected,
        Error::EmptyInvoice => webln::Error::EmptyInvoice,
        Error::SomethingGoneWrong => webln::Error::SomethingGoneWrong,
    };
    outside.to_string()
}

/// The operation whose failure a boundary error reports.
#[derive(Debug, Clone, Copy, PartialEq, Eq, Structural)]
pub enum JsErrorKind {
    /// No provider could be acquired when the client was built.
    ConstructionError,
    /// The provider was not enabled.
    EnableError,
    /// The node information could not be had.
    GetInfoError,
    /// A payment was not made.
    PaymentError,
}

/// An error as the caller across the boundary sees it: the operation that
/// failed and a message that is never empty.
#[derive(Debug, PartialEq, Eq)]
pub struct JsError {
    kind: JsErrorKind,
    message: String,
}

/// Mathematical model of a [`JsError`].
pub struct JsErrorView {
    pub kind: JsErrorKind,
    pub message: Seq<char>,
}

impl View for JsError {
    type V = JsErrorView;

    closed spec fn view(&self) -> JsErrorView {
        JsErrorView { kind: self.kind, message: self.message@ }
    }
}

impl JsError {
    #[verifier::type_invariant]
    spec fn has_message(self) -> bool {
        self.message@.len() > 0
    }

    /// The operation that failed.
    pub fn kind(&self) -> (kind: JsErrorKind)
        ensures
            kind == self@.kind,
    {
        self.kind
    }

    /// The message, which is never empty.
    pub fn message(&self) -> (message: &str)
        ensures
            message@ == self@.message,
            message@.len() > 0,
    {
        proof {
            use_type_invariant(self);
        }
        self.message.as_str()
    }
}

/// The boundary error for a failure `error` of the operation `kind`.
pub open spec fn boundary_error(kind: JsErrorKind, error: ErrorView) -> JsErrorView {
    JsErrorView { kind, message: message_of(error) }
}

/// Turns a provider-side failure of the operation `kind` into the error that
/// crosses the boundary. Every failure has one, and none has an empty
/// message.
pub fn into_err(kind: JsErrorKind, error: Error) -> (e: JsError)
    ensures
        e@ == boundary_error(kind, error@),
        e@.message.len() > 0,
{
    proof {
        lemma_message_nonempty(error@);
    }
    let text = display_string(error);
    if text.as_str().is_empty() {
        JsError { kind, message: UNKNOWN_ERROR.to_owned() }
    } else {
        JsError { kind, message: text }
    }
}

} // verus!
