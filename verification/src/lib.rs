//! Human-readable descriptions of platform-specific error codes.
//!
//! The operating system is never called from here. A [`resolution::Resolution`] says which
//! native lookup it needs next, the embedding program performs it and hands the answer back,
//! and the resolution ends in an [`OsError`].

use vstd::prelude::*;
use vstd::string::StringExecFns;

use crate::resolution::{Resolution, ResolutionView};

pub mod assumed;
pub mod decimal;
pub mod host;
pub mod resolution;
pub mod text;
pub mod unix;
pub mod windows;

verus! {

/// The native error reporting that the embedding program is built for.
#[derive(Clone, Copy, Debug, PartialEq, Eq)]
pub enum Platform {
    /// POSIX: codes are `errno` values, described by `strerror_r`.
    Unix,
    /// Windows: codes are system error codes, described by `FormatMessageW`.
    ///
    /// With `nt_messages` set, a code without modules of the caller's is first looked up in the
    /// message table of the NT system module.
    Windows { nt_messages: bool },
}

/// What an [`OsError`] stands for: a raw error code and the text that describes it.
pub struct ErrorView {
    /// The raw error code.
    pub code: i32,
    /// The description, as a sequence of characters.
    pub text: Seq<char>,
}

/// An error value that pairs a platform-specific error code with a human-readable description.
#[derive(Debug)]
pub struct OsError {
    /// The raw error code.
    code: i32,
    /// A human-readable description of the error.
    desc: String,
}

impl View for OsError {
    type V = ErrorView;

    closed spec fn view(&self) -> ErrorView {
        ErrorView { code: self.code, text: self.desc@ }
    }
}

impl Clone for OsError {
    fn clone(&self) -> (copy: Self)
        ensures
            copy@ == self@,
    {
        OsError { code: self.code, desc: self.desc.clone() }
    }
}

/// The text that stands in for a description where none could be had: it names the code and,
/// in brackets, the reason.
pub open spec fn fallback_text(code: i32, reason: Seq<char>) -> Seq<char> {
    "OS Error "@ + decimal::decimal(code as int) + " ("@ + reason + ")"@
}

/// A fallback text is never empty, and the code's decimal notation stands in it right after
/// its first nine characters.
pub proof fn lemma_fallback_text(code: i32, reason: Seq<char>)
    ensures
        fallback_text(code, reason).len() > 0,
        fallback_text(code, reason).subrange(9, 9 + decimal::decimal(code as int).len() as int)
            == decimal::decimal(code as int),
{
    reveal_strlit("OS Error ");
    let number = decimal::decimal(code as int);
    assert(fallback_text(code, reason).subrange(9, 9 + number.len() as int) =~= number);
}

/// Returns the fallback text for `code` with the given reason.
pub(crate) fn fallback(code: i32, reason: &str) -> (text: String)
    ensures
        text@ == fallback_text(code, reason@),
{
    let mut text = "OS Error ".to_owned();
    decimal::push_decimal(&mut text, code);
    text.append(" (");
    text.append(reason);
    text.append(")");
    text
}

impl OsError {
    /// Begins to resolve the most recent error of the calling thread: the resolution first
    /// asks for that code.
    pub fn from_last_os_error(platform: Platform) -> (resolution: Resolution)
        ensures
            resolution@ == (ResolutionView::Code { platform }),
    {
        Resolution::Code { platform }
    }

    /// Begins to resolve the raw error code `code`.
    pub fn from_raw_os_error(code: i32, platform: Platform) -> (resolution: Resolution)
        ensures
            resolution@ == ResolutionView::start(code, platform),
    {
        match platform {
            Platform::Unix => Resolution::Text { code },
            Platform::Windows { nt_messages } => windows::from_raw_os_error(code, nt_messages),
        }
    }

    /// Pairs `code` with the description `desc`.
    pub(crate) fn new(code: i32, desc: String) -> (error: Self)
        ensures
            error@ == (ErrorView { code, text: desc@ }),
    {
        OsError { code, desc }
    }

    /// Returns the raw error code associated with a platform-specific error.
    #[inline]
    pub fn error_code(&self) -> (code: i32)
        ensures
            code == self@.code,
    {
        self.code
    }

    /// Returns a string slice describing a platform-specific error.
    #[inline]
    pub fn as_str(&self) -> (text: &str)
        ensures
            text@ == self@.text,
    {
        self.desc.as_str()
    }

    /// Returns the description of the error: the same text as [`OsError::as_str`].
    pub fn description(&self) -> (text: &str)
        ensures
            text@ == self@.text,
    {
        self.as_str()
    }

    /// Renders the error as text: exactly its description, without the code.
    pub fn to_text(&self) -> (text: String)
        ensures
            text@ == self@.text,
    {
        self.desc.clone()
    }
}

} // verus!
