//! Resolutions: which native lookup comes next, and what follows from its answer.
//!
//! A resolution is driven from outside. The embedding program asks it for its [`Request`],
//! performs that lookup, and hands the [`Reply`] to [`Resolution::advance`], until no request
//! is left and the resolution holds its [`OsError`].

use vstd::prelude::*;

use crate::unix;
use crate::windows;
use crate::{ErrorView, OsError, Platform};

verus! {

/// A lookup that the embedding program is to perform.
#[derive(Clone, Copy, Debug, PartialEq, Eq)]
pub enum Request {
    /// Read the calling thread's most recent error code.
    LastError,
    /// Call `strerror_r` for `code`, with a zeroed buffer of `capacity` bytes.
    Strerror { code: i32, capacity: usize },
    /// Call `GetModuleHandleW` for the module of this name.
    ModuleHandle { name: &'static str },
    /// Call `FormatMessageW` with `flags`, the handle `module` as its source (for `None`, the
    /// null pointer), the message identifier `id`, language 0, a buffer of `capacity` wide
    /// characters, and no arguments.
    FormatMessage { flags: u32, module: Option<usize>, id: u32, capacity: usize },
}

/// What a lookup answered.
#[derive(Debug)]
pub enum Reply {
    /// The error code that was read.
    LastError(i32),
    /// The return value of `strerror_r`, and the buffer as the call left it.
    Strerror { status: i32, buffer: Vec<u8> },
    /// The handle that `GetModuleHandleW` returned; `None` for the null handle.
    ModuleHandle(Option<usize>),
    /// The wide characters that `FormatMessageW` stored, as many as it returned; none where it
    /// returned zero.
    FormatMessage(Vec<u16>),
}

/// What a [`Reply`] stands for.
pub enum ReplyView {
    LastError(i32),
    Strerror { status: i32, buffer: Seq<u8> },
    ModuleHandle(Option<usize>),
    FormatMessage(Seq<u16>),
}

impl View for Reply {
    type V = ReplyView;

    open spec fn view(&self) -> ReplyView {
        match *self {
            Reply::LastError(code) => ReplyView::LastError(code),
            Reply::Strerror { status, buffer } => ReplyView::Strerror { status, buffer: buffer@ },
            Reply::ModuleHandle(module) => ReplyView::ModuleHandle(module),
            Reply::FormatMessage(message) => ReplyView::FormatMessage(message@),
        }
    }
}

/// The resolution of an error code, as far as it has come.
#[derive(Debug)]
pub enum Resolution {
    /// The code is yet to be read: it is the calling thread's most recent error.
    Code { platform: Platform },
    /// The answer of `strerror_r` for `code` is awaited.
    Text { code: i32 },
    /// The handle of the NT system module is awaited, to search its table for `code`.
    Locate { code: i32 },
    /// A message for `code` is awaited: from the table of `modules[tried]`, searched for
    /// `lookup`, or, once all modules have been tried, from the system's table.
    Message { code: i32, lookup: u32, modules: Vec<usize>, tried: usize },
    /// No table held a message for `code`: the error that the last lookup reported is awaited.
    Failure { code: i32 },
    /// The resolution has ended in this description.
    Done(OsError),
}

/// What a [`Resolution`] stands for.
pub enum ResolutionView {
    Code { platform: Platform },
    Text { code: i32 },
    Locate { code: i32 },
    Message { code: i32, lookup: u32, modules: Seq<usize>, tried: nat },
    Failure { code: i32 },
    Done(ErrorView),
}

impl View for Resolution {
    type V = ResolutionView;

    open spec fn view(&self) -> ResolutionView {
        match *self {
            Resolution::Code { platform } => ResolutionView::Code { platform },
            Resolution::Text { code } => ResolutionView::Text { code },
            Resolution::Locate { code } => ResolutionView::Locate { code },
            Resolution::Message { code, lookup, modules, tried } => ResolutionView::Message {
                code,
                lookup,
                modules: modules@,
                tried: tried as nat,
            },
            Resolution::Failure { code } => ResolutionView::Failure { code },
            Resolution::Done(error) => ResolutionView::Done(error@),
        }
    }
}

impl ResolutionView {
    /// The resolution of `code` on `platform`, with nothing looked up yet.
    pub open spec fn start(code: i32, platform: Platform) -> ResolutionView {
        match platform {
            Platform::Unix => ResolutionView::Text { code },
            Platform::Windows { nt_messages } => windows::system_resolution(code, nt_messages),
        }
    }

    /// The lookup that the resolution awaits the answer of; `None` once it has ended.
    pub open spec fn request(self) -> Option<Request> {
        match self {
            ResolutionView::Code { .. } => Some(Request::LastError),
            ResolutionView::Text { code } => Some(
                Request::Strerror { code, capacity: unix::MESSAGE_CAPACITY },
            ),
            ResolutionView::Locate { .. } => Some(
                Request::ModuleHandle { name: windows::NT_MODULE_NAME },
            ),
            ResolutionView::Message { code, lookup, modules, tried } => if tried < modules.len() {
                Some(
                    Request::FormatMessage {
                        flags: windows::MODULE_LOOKUP,
                        module: Some(modules[tried as int]),
                        id: lookup,
                        capacity: windows::MESSAGE_CAPACITY,
                    },
                )
            } else {
                Some(
                    Request::FormatMessage {
                        flags: windows::SYSTEM_LOOKUP,
                        module: None,
                        id: windows::message_id(code),
                        capacity: windows::MESSAGE_CAPACITY,
                    },
                )
            },
            ResolutionView::Failure { .. } => Some(Request::LastError),
            ResolutionView::Done(_) => None,
        }
    }

    /// The resolution once `reply` has come in.
    ///
    /// The handle of the NT system module, found or not, begins the search of the tables. A
    /// message that is not empty ends the search at once. An empty one passes it on: to the
    /// next module, after the last module to the system's table, and after that to the code of
    /// the failure. A reply of another kind than the one awaited changes nothing, and neither
    /// does any reply once the resolution has ended.
    pub open spec fn after(self, reply: ReplyView) -> ResolutionView {
        match (self, reply) {
            (ResolutionView::Code { platform }, ReplyView::LastError(code)) => Self::start(
                code,
                platform,
            ),
            (ResolutionView::Text { code }, ReplyView::Strerror { status, buffer }) => {
                ResolutionView::Done(
                    ErrorView { code, text: unix::description(code, status, buffer) },
                )
            },
            (ResolutionView::Locate { code }, ReplyView::ModuleHandle(module)) => {
                windows::system_search(code, module)
            },
            (
                ResolutionView::Message { code, lookup, modules, tried },
                ReplyView::FormatMessage(message),
            ) => {
                if message.len() > 0 {
                    ResolutionView::Done(
                        ErrorView { code, text: windows::message_text(code, message) },
                    )
                } else if tried < modules.len() {
                    ResolutionView::Message { code, lookup, modules, tried: tried + 1 }
                } else {
                    ResolutionView::Failure { code }
                }
            },
            (ResolutionView::Failure { code }, ReplyView::LastError(failure)) => {
                ResolutionView::Done(
                    ErrorView { code, text: windows::failure_text(code, failure) },
                )
            },
            _ => self,
        }
    }
}

impl Resolution {
    /// Returns the lookup to perform next; `None` once the resolution has ended.
    pub fn request(&self) -> (request: Option<Request>)
        ensures
            request == self@.request(),
            request is None <==> self@ is Done,
    {
        match self {
            Resolution::Code { .. } => Some(Request::LastError),
            Resolution::Text { code } => Some(
                Request::Strerror { code: *code, capacity: unix::MESSAGE_CAPACITY },
            ),
            Resolution::Locate { .. } => Some(
                Request::ModuleHandle { name: windows::NT_MODULE_NAME },
            ),
            Resolution::Message { code, lookup, modules, tried } => {
                if *tried < modules.len() {
                    Some(
                        Request::FormatMessage {
                            flags: windows::MODULE_LOOKUP,
                            module: Some(modules[*tried]),
                            id: *lookup,
                            capacity: windows::MESSAGE_CAPACITY,
                        },
                    )
                } else {
                    Some(
                        Request::FormatMessage {
                            flags: windows::SYSTEM_LOOKUP,
                            module: None,
                            id: windows::to_message_id(*code),
                            capacity: windows::MESSAGE_CAPACITY,
                        },
                    )
                }
            },
            Resolution::Failure { .. } => Some(Request::LastError),
            Resolution::Done(_) => None,
        }
    }

    /// Takes the answer to the lookup that was requested, and returns the resolution as it
    /// stands then.
    pub fn advance(self, reply: Reply) -> (next: Resolution)
        ensures
            next@ == self@.after(reply@),
    {
        match self {
            Resolution::Code { platform } => match reply {
                Reply::LastError(code) => OsError::from_raw_os_error(code, platform),
                _ => Resolution::Code { platform },
            },
            Resolution::Text { code } => match reply {
                Reply::Strerror { status, buffer } => Resolution::Done(
                    unix::from_raw_os_error(code, status, buffer.as_slice()),
                ),
                _ => Resolution::Text { code },
            },
            Resolution::Locate { code } => match reply {
                Reply::ModuleHandle(module) => windows::located(code, module),
                _ => Resolution::Locate { code },
            },
            Resolution::Message { code, lookup, modules, tried } => match reply {
                Reply::FormatMessage(message) => {
                    if message.len() > 0 {
                        Resolution::Done(OsError::build_os_error(code, message.as_slice()))
                    } else if tried < modules.len() {
                        Resolution::Message { code, lookup, modules, tried: tried + 1 }
                    } else {
                        Resolution::Failure { code }
                    }
                },
                _ => Resolution::Message { code, lookup, modules, tried },
            },
            Resolution::Failure { code } => match reply {
                Reply::LastError(failure) => Resolution::Done(OsError::lookup_failed(code, failure)),
                _ => Resolution::Failure { code },
            },
            Resolution::Done(error) => Resolution::Done(error),
        }
    }

    /// Returns the description that the resolution has ended in; `None` while a lookup is
    /// still awaited.
    pub fn into_error(self) -> (error: Option<OsError>)
        ensures
            match self@ {
                ResolutionView::Done(ended) => error matches Some(e) && e@ == ended,
                _ => error is None,
            },
    {
        match self {
            Resolution::Done(error) => Some(error),
            _ => None,
        }
    }
}

} // verus!
