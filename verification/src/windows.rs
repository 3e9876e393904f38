//! Descriptions from the Windows message tables, through `FormatMessageW`.
//!
//! An error code need not belong to the system: drivers and low-level interfaces keep message
//! tables of their own, in modules that the caller names. Those are searched in the order given,
//! the first that knows the code wins, and the system's table comes last.

use vstd::prelude::*;
use vstd::slice::slice_to_vec;
use vstd::string::StringExecFns;

use crate::decimal::{decimal, push_decimal};
use crate::resolution::Resolution;
use crate::resolution::ResolutionView;
use crate::text::{decode_wide, string_of, trimmed, trimmed_len, utf16_text};
use crate::{fallback, fallback_text, ErrorView, OsError};

verus! {

/// The size in wide characters of the buffer that `FormatMessageW` is to fill. A longer message
/// is cut short by the lookup itself.
pub const MESSAGE_CAPACITY: usize = 2048;

/// The flag that has `FormatMessageW` leave insert sequences such as `%1` as they are.
pub const FORMAT_MESSAGE_IGNORE_INSERTS: u32 = 0x0000_0200;

/// The flag that has `FormatMessageW` search the message table of a module.
pub const FORMAT_MESSAGE_FROM_HMODULE: u32 = 0x0000_0800;

/// The flag that has `FormatMessageW` search the message table of the system.
pub const FORMAT_MESSAGE_FROM_SYSTEM: u32 = 0x0000_1000;

/// The flags of a lookup in a module's table.
pub const MODULE_LOOKUP: u32 = FORMAT_MESSAGE_FROM_HMODULE | FORMAT_MESSAGE_IGNORE_INSERTS;

/// The flags of a lookup in the system's table.
pub const SYSTEM_LOOKUP: u32 = FORMAT_MESSAGE_FROM_SYSTEM | FORMAT_MESSAGE_IGNORE_INSERTS;

/// The bit by which a status code of the NT subsystem differs from its number in the NT message
/// table.
pub const FACILITY_NT_BIT: u32 = 0x1000_0000;

/// The name of the NT system module, whose message table knows the codes of the NT subsystem.
pub const NT_MODULE_NAME: &'static str = "NTDLL.DLL";

/// The message identifier that stands for `code`: the same 32 bits, read as unsigned.
pub open spec fn message_id(code: i32) -> u32 {
    if code >= 0 {
        code as u32
    } else {
        (code + 0x1_0000_0000) as u32
    }
}

/// The message identifier under which the NT message table may know `code`.
pub open spec fn nt_message_id(code: i32) -> u32 {
    message_id(code) ^ FACILITY_NT_BIT
}

/// The description that the native message `message` gives for `code`: its text without the
/// whitespace at its end, or a fallback where it is not well-formed UTF-16.
pub open spec fn message_text(code: i32, message: Seq<u16>) -> Seq<char> {
    match utf16_text(message) {
        Some(text) => trimmed(text),
        None => fallback_text(code, "FormatMessageW() returned invalid wide string"@),
    }
}

/// The description of `code` where no table holds a message for it and the lookup itself
/// reported the error `failure`.
pub open spec fn failure_text(code: i32, failure: i32) -> Seq<char> {
    fallback_text(code, "FormatMessageW() returned error "@ + decimal(failure as int))
}

/// The resolution of `code` that searches `modules` for `lookup`, then the system's table for
/// `code` itself, with nothing searched yet.
pub open spec fn search(code: i32, lookup: u32, modules: Seq<usize>) -> ResolutionView {
    ResolutionView::Message { code, lookup, modules, tried: 0 }
}

/// The resolution of `code` without modules of the caller's, once the NT system module has
/// been looked for and `nt_module` was the answer: found, its table is searched for `code` with
/// the NT facility bit flipped, before the system's is for `code` itself; not found, the
/// system's table is searched at once.
pub open spec fn system_search(code: i32, nt_module: Option<usize>) -> ResolutionView {
    match nt_module {
        Some(module) => search(code, nt_message_id(code), seq![module]),
        None => search(code, message_id(code), Seq::empty()),
    }
}

/// The resolution that [`from_raw_os_error`] begins.
pub open spec fn system_resolution(code: i32, nt_messages: bool) -> ResolutionView {
    if nt_messages {
        ResolutionView::Locate { code }
    } else {
        system_search(code, None)
    }
}

/// The text of a failed lookup names both codes: the one that was looked up, and the one that
/// the lookup reported.
pub proof fn lemma_failure_text(code: i32, failure: i32)
    ensures
        failure_text(code, failure) == "OS Error "@ + decimal(code as int)
            + " (FormatMessageW() returned error "@ + decimal(failure as int) + ")"@,
{
    reveal_strlit(" (");
    reveal_strlit("FormatMessageW() returned error ");
    reveal_strlit(" (FormatMessageW() returned error ");
    assert(" ("@ + "FormatMessageW() returned error "@
        =~= " (FormatMessageW() returned error "@);
    assert(failure_text(code, failure) =~= "OS Error "@ + decimal(code as int)
        + " (FormatMessageW() returned error "@ + decimal(failure as int) + ")"@);
}

/// Returns the message identifier that stands for `code`.
pub fn to_message_id(code: i32) -> (id: u32)
    ensures
        id == message_id(code),
{
    if code >= 0 {
        code as u32
    } else {
        (code as i64 + 0x1_0000_0000) as u32
    }
}

/// Begins to resolve `code` with no modules of the caller's.
///
/// With `nt_messages` set, the resolution first asks for the NT system module, since many
/// codes come from the NT subsystem under Win32 numbers. Without it, the system's table is
/// searched at once, for `code` as it is.
pub fn from_raw_os_error(code: i32, nt_messages: bool) -> (resolution: Resolution)
    ensures
        resolution@ == system_resolution(code, nt_messages),
{
    if nt_messages {
        Resolution::Locate { code }
    } else {
        located(code, None)
    }
}

/// Goes on with the resolution of `code` once the NT system module has been looked for.
pub fn located(code: i32, nt_module: Option<usize>) -> (resolution: Resolution)
    ensures
        resolution@ == system_search(code, nt_module),
{
    match nt_module {
        Some(module) => {
            let mut modules: Vec<usize> = Vec::new();
            modules.push(module);
            Resolution::Message {
                code,
                lookup: to_message_id(code) ^ FACILITY_NT_BIT,
                modules,
                tried: 0,
            }
        },
        None => Resolution::Message {
            code,
            lookup: to_message_id(code),
            modules: Vec::new(),
            tried: 0,
        },
    }
}

impl OsError {
    /// Begins to resolve `code` by the message tables of `modules`, in the order given, before
    /// falling back to the system's.
    ///
    /// Each module is named by its handle; the handles stay the caller's, and are only handed
    /// on to the lookups.
    pub fn with_windows_modules(code: i32, modules: &[usize]) -> (resolution: Resolution)
        ensures
            resolution@ == search(code, message_id(code), modules@),
    {
        Resolution::Message {
            code,
            lookup: to_message_id(code),
            modules: slice_to_vec(modules),
            tried: 0,
        }
    }

    /// Describes `code` by the native message `msg`, as a lookup left it.
    pub fn build_os_error(code: i32, msg: &[u16]) -> (error: Self)
        ensures
            error@ == (ErrorView { code, text: message_text(code, msg@) }),
    {
        let desc = match decode_wide(msg) {
            Some(mut chars) => {
                let kept = trimmed_len(chars.as_slice());
                chars.truncate(kept);
                string_of(chars.as_slice())
            },
            None => fallback(code, "FormatMessageW() returned invalid wide string"),
        };
        OsError::new(code, desc)
    }

    /// Describes `code` where every lookup came back empty and the last of them reported the
    /// error `failure`.
    pub fn lookup_failed(code: i32, failure: i32) -> (error: Self)
        ensures
            error@ == (ErrorView { code, text: failure_text(code, failure) }),
    {
        let mut reason = "FormatMessageW() returned error ".to_owned();
        push_decimal(&mut reason, failure);
        OsError::new(code, fallback(code, reason.as_str()))
    }
}

} // verus!
