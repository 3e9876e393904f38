//! Descriptions from the POSIX message lookup, `strerror_r`.

use vstd::prelude::*;
use vstd::utf8::{decode_utf8, valid_utf8};

use crate::text::{c_string, decode_narrow, nul_terminated};
use crate::{fallback, fallback_text, ErrorView, OsError};

verus! {

/// The size in bytes of the buffer that `strerror_r` is to fill. A longer message is cut short
/// by the lookup itself.
pub const MESSAGE_CAPACITY: usize = 128;

/// The description of `code`, where the lookup returned `status` and left `buffer`.
///
/// A non-zero status is a failed lookup. Otherwise the message is the C string that the buffer
/// begins with, provided that it is well-formed UTF-8.
pub open spec fn description(code: i32, status: i32, buffer: Seq<u8>) -> Seq<char> {
    if status != 0 {
        fallback_text(code, "strerror_r() failed"@)
    } else if valid_utf8(nul_terminated(buffer)) {
        decode_utf8(nul_terminated(buffer))
    } else {
        fallback_text(code, "strerror_r() returned invalid UTF-8"@)
    }
}

/// Describes `code` from what `strerror_r` answered for it: its return value `status` and the
/// buffer that it was given to fill.
pub fn from_raw_os_error(code: i32, status: i32, buffer: &[u8]) -> (error: OsError)
    ensures
        error@ == (ErrorView { code, text: description(code, status, buffer@) }),
{
    if status != 0 {
        return OsError::new(code, fallback(code, "strerror_r() failed"));
    }
    match decode_narrow(c_string(buffer)) {
        Some(message) => OsError::new(code, message),
        None => OsError::new(code, fallback(code, "strerror_r() returned invalid UTF-8")),
    }
}

} // verus!
