//! The SDK's errors, and how the JSON errors of the core become typed ones.
//!
//! The core reports a failure as JSON text `{"name": ..., "message": ...}`.
//! Reading that text into a [`CoreError`] is serde's work and happens where
//! the core is called; the functions here take what was read (`None` when
//! the text was not such an object) and decide which error the caller sees.
use vstd::prelude::*;

use crate::wire::json_error_text;

verus! {

/// Every error the SDK returns.
#[derive(Debug)]
pub enum SdkError {
    /// An error reported by the 1Password core engine.
    Core { name: String, message: String },
    /// A JSON value could not be read or written.
    Serialization(serde_json::Error),
    /// The WASM plugin runtime failed.
    Plugin(String),
    /// The client is configured wrongly.
    Config(String),
    /// The desktop app session expired.
    DesktopSessionExpired(String),
    /// The API rate limit was hit.
    RateLimitExceeded(String),
    /// Loading or calling the desktop app's shared library failed.
    SharedLib(String),
}

/// What an [`SdkError`] says, with its texts as character sequences.
pub enum SdkErrorView {
    Core { name: Seq<char>, message: Seq<char> },
    Serialization(serde_json::Error),
    Plugin(Seq<char>),
    Config(Seq<char>),
    DesktopSessionExpired(Seq<char>),
    RateLimitExceeded(Seq<char>),
    SharedLib(Seq<char>),
}

impl View for SdkError {
    type V = SdkErrorView;

    open spec fn view(&self) -> SdkErrorView {
        match self {
            SdkError::Core { name, message } => SdkErrorView::Core { name: name@, message: message@ },
            SdkError::Serialization(e) => SdkErrorView::Serialization(*e),
            SdkError::Plugin(m) => SdkErrorView::Plugin(m@),
            SdkError::Config(m) => SdkErrorView::Config(m@),
            SdkError::DesktopSessionExpired(m) => SdkErrorView::DesktopSessionExpired(m@),
            SdkError::RateLimitExceeded(m) => SdkErrorView::RateLimitExceeded(m@),
            SdkError::SharedLib(m) => SdkErrorView::SharedLib(m@),
        }
    }
}

/// The JSON error object of the core: `{"name": ..., "message": ...}`.
#[derive(Debug, Clone, PartialEq, Eq)]
pub struct CoreError {
    pub name: String,
    pub message: String,
}

/// The name and message of a core error that was read, if one was.
pub open spec fn parsed_view(parsed: Option<CoreError>) -> Option<(Seq<char>, Seq<char>)> {
    match parsed {
        Some(e) => Some((e.name@, e.message@)),
        None => None,
    }
}

/// The typed error for a core error with this name and message: the two
/// names that callers act on get variants of their own.
pub open spec fn classify_view(name: Seq<char>, message: Seq<char>) -> SdkErrorView {
    if name == "DesktopSessionExpired"@ {
        SdkErrorView::DesktopSessionExpired(message)
    } else if name == "RateLimitExceeded"@ {
        SdkErrorView::RateLimitExceeded(message)
    } else {
        SdkErrorView::Core { name, message }
    }
}

/// The error for the error text `err` of the core, given what was read from
/// it: a core error that was read is classified; text that was not one is
/// kept whole as the message of a core error named "Unknown".
pub open spec fn unmarshal_error_view(err: Seq<char>, parsed: Option<(Seq<char>, Seq<char>)>) -> SdkErrorView {
    match parsed {
        Some((name, message)) => classify_view(name, message),
        None => SdkErrorView::Core { name: "Unknown"@, message: err },
    }
}

/// The error a transport error becomes, given what was read from its text:
/// plugin errors always become typed errors; shared library errors become
/// typed when their text is a core error and stay as they are otherwise;
/// every other error is kept.
pub open spec fn unmarshal_core_error_view(
    err: SdkErrorView,
    parsed: Option<(Seq<char>, Seq<char>)>,
) -> SdkErrorView {
    match err {
        SdkErrorView::Plugin(msg) => unmarshal_error_view(msg, parsed),
        SdkErrorView::SharedLib(msg) => match parsed {
            Some((name, message)) => classify_view(name, message),
            None => SdkErrorView::SharedLib(msg),
        },
        _ => err,
    }
}

/// The typed error for a core error that was read.
pub fn classify_core_error(core_err: CoreError) -> (res: SdkError)
    ensures
        res@ == classify_view(core_err.name@, core_err.message@),
{
    if core_err.name == "DesktopSessionExpired".to_owned() {
        SdkError::DesktopSessionExpired(core_err.message)
    } else if core_err.name == "RateLimitExceeded".to_owned() {
        SdkError::RateLimitExceeded(core_err.message)
    } else {
        SdkError::Core { name: core_err.name, message: core_err.message }
    }
}

/// The typed error for a core error that was read; `None` when the text
/// was not a core error.
pub fn try_unmarshal_error(parsed: Option<CoreError>) -> (res: Option<SdkError>)
    ensures
        res is Some <==> parsed is Some,
        res matches Some(e) ==> parsed matches Some(c) && e@ == classify_view(c.name@, c.message@),
{
    match parsed {
        Some(core_err) => Some(classify_core_error(core_err)),
        None => None,
    }
}

/// The typed error for the error text `err` of the core; `parsed` is what
/// was read from `err`.
pub fn unmarshal_error(err: &str, parsed: Option<CoreError>) -> (res: SdkError)
    ensures
        res@ == unmarshal_error_view(err@, parsed_view(parsed)),
{
    match try_unmarshal_error(parsed) {
        Some(e) => e,
        None => SdkError::Core { name: "Unknown".to_owned(), message: err.to_owned() },
    }
}

/// The error a transport error becomes; `parsed` is what was read from the
/// text of a plugin or shared library error (other errors ignore it).
pub fn unmarshal_core_error(err: SdkError, parsed: Option<CoreError>) -> (res: SdkError)
    ensures
        res@ == unmarshal_core_error_view(err@, parsed_view(parsed)),
{
    match err {
        SdkError::Plugin(msg) => unmarshal_error(msg.as_str(), parsed),
        SdkError::SharedLib(msg) => match try_unmarshal_error(parsed) {
            Some(e) => e,
            None => SdkError::SharedLib(msg),
        },
        other => other,
    }
}

/// The text that starts the message of the error for a core response that
/// is not UTF-8.
pub open spec fn invalid_utf8_prefix() -> Seq<char> {
    "core response was not valid UTF-8: "@
}

/// The error for a core response that is not UTF-8: a core error named
/// "InvalidUtf8" whose message says so and then gives `detail`, the
/// description of the decoding error.
pub fn invalid_utf8_error(detail: &str) -> (res: SdkError)
    ensures
        res@ == (SdkErrorView::Core { name: "InvalidUtf8"@, message: invalid_utf8_prefix() + detail@ }),
{
    let mut message = "core response was not valid UTF-8: ".to_owned();
    message.append(detail);
    SdkError::Core { name: "InvalidUtf8".to_owned(), message }
}

/// The prefix that the display text of each kind of error starts with.
pub open spec fn display_prefix(err: SdkErrorView) -> Seq<char> {
    match err {
        SdkErrorView::Core { .. } => "1Password SDK error: "@,
        SdkErrorView::Serialization(_) => "serialization error: "@,
        SdkErrorView::Plugin(_) => "WASM plugin error: "@,
        SdkErrorView::Config(_) => "configuration error: "@,
        SdkErrorView::DesktopSessionExpired(_) => "desktop session expired: "@,
        SdkErrorView::RateLimitExceeded(_) => "rate limit exceeded: "@,
        SdkErrorView::SharedLib(_) => "shared library error: "@,
    }
}

/// The text an error is displayed with: its prefix, then its message.
pub open spec fn display_view(err: SdkErrorView) -> Seq<char> {
    match err {
        SdkErrorView::Core { message, .. } => display_prefix(err) + message,
        SdkErrorView::Plugin(m) => display_prefix(err) + m,
        SdkErrorView::Config(m) => display_prefix(err) + m,
        SdkErrorView::DesktopSessionExpired(m) => display_prefix(err) + m,
        SdkErrorView::RateLimitExceeded(m) => display_prefix(err) + m,
        SdkErrorView::SharedLib(m) => display_prefix(err) + m,
        SdkErrorView::Serialization(_) => display_prefix(err),
    }
}

impl SdkError {
    /// The text the error is displayed with. For a serialization error the
    /// prefix is followed by serde_json's description of the failure.
    pub fn display_text(&self) -> (res: String)
        ensures
            match self@ {
                SdkErrorView::Serialization(_) => res@.take(display_prefix(self@).len() as int)
                    == display_prefix(self@),
                _ => res@ == display_view(self@),
            },
    {
        match self {
            SdkError::Core { message, .. } => {
                let mut s = "1Password SDK error: ".to_owned();
                s.append(message.as_str());
                s
            },
            SdkError::Serialization(e) => {
                let mut s = "serialization error: ".to_owned();
                let ghost prefix = s@;
                s.append(json_error_text(e).as_str());
                assert(s@.take(prefix.len() as int) =~= prefix);
                s
            },
            SdkError::Plugin(m) => {
                let mut s = "WASM plugin error: ".to_owned();
                s.append(m.as_str());
                s
            },
            SdkError::Config(m) => {
                let mut s = "configuration error: ".to_owned();
                s.append(m.as_str());
                s
            },
            SdkError::DesktopSessionExpired(m) => {
                let mut s = "desktop session expired: ".to_owned();
                s.append(m.as_str());
                s
            },
            SdkError::RateLimitExceeded(m) => {
                let mut s = "rate limit exceeded: ".to_owned();
                s.append(m.as_str());
                s
            },
            SdkError::SharedLib(m) => {
                let mut s = "shared library error: ".to_owned();
                s.append(m.as_str());
                s
            },
        }
    }
}

/// Reading the text of an error again gives nothing new: the error that a
/// transport error becomes is kept as it is by a second pass.
pub proof fn lemma_unmarshal_core_error_idempotent(
    err: SdkErrorView,
    parsed: Option<(Seq<char>, Seq<char>)>,
)
    ensures
        unmarshal_core_error_view(unmarshal_core_error_view(err, parsed), parsed)
            == unmarshal_core_error_view(err, parsed),
{
}

/// A transport error never stays a plugin error, and an error that is
/// neither a plugin nor a shared library error is kept unchanged.
pub proof fn lemma_unmarshal_core_error_shape(
    err: SdkErrorView,
    parsed: Option<(Seq<char>, Seq<char>)>,
)
    ensures
        !(unmarshal_core_error_view(err, parsed) is Plugin),
        !(err is Plugin) && !(err is SharedLib) ==> unmarshal_core_error_view(err, parsed) == err,
        err is SharedLib && parsed is None ==> unmarshal_core_error_view(err, parsed) == err,
{
}

} // verus!
