//! The operating system as a resolution meets it, and what resolutions come to against it.
//!
//! Nothing here runs: a [`Host`] says what each native lookup would answer, and the laws below
//! say which description a resolution ends in when its requests are answered by one.

use vstd::prelude::*;
use vstd::utf8::{decode_utf8, valid_utf8};

use crate::decimal::decimal;
use crate::resolution::{ReplyView, Request, ResolutionView};
use crate::text::{nul_terminated, trimmed, utf16_text};
use crate::unix;
use crate::windows::{
    failure_text, message_id, message_text, search, system_search, MESSAGE_CAPACITY,
    MODULE_LOOKUP, SYSTEM_LOOKUP,
};
use crate::{lemma_fallback_text, ErrorView, Platform};

verus! {

/// What the native lookups would answer.
pub struct Host {
    /// The calling thread's most recent error code, before any lookup.
    pub last_error: i32,
    /// For a code, what `strerror_r` returns and what it leaves in the buffer.
    pub strerror: spec_fn(i32) -> (i32, Seq<u8>),
    /// The handle of the NT system module; `None` where the process has not loaded it.
    pub nt_module: Option<usize>,
    /// For a module's handle (`None`: the system) and a message identifier, the message that
    /// the table holds; empty where it holds none.
    pub messages: spec_fn(Option<usize>, u32) -> Seq<u16>,
    /// The error code that a lookup reports when it has found nothing.
    pub lookup_failure: i32,
}

impl Host {
    /// The answer to the request of `awaiting`.
    pub open spec fn answer(self, awaiting: ResolutionView) -> ReplyView {
        match awaiting {
            ResolutionView::Code { .. } => ReplyView::LastError(self.last_error),
            ResolutionView::Text { code } => ReplyView::Strerror {
                status: (self.strerror)(code).0,
                buffer: (self.strerror)(code).1,
            },
            ResolutionView::Locate { .. } => ReplyView::ModuleHandle(self.nt_module),
            ResolutionView::Message { code, lookup, modules, tried } => if tried < modules.len() {
                ReplyView::FormatMessage((self.messages)(Some(modules[tried as int]), lookup))
            } else {
                ReplyView::FormatMessage((self.messages)(None, message_id(code)))
            },
            ResolutionView::Failure { .. } => ReplyView::LastError(self.lookup_failure),
            ResolutionView::Done(_) => ReplyView::LastError(self.last_error),
        }
    }

    /// Whether the table of `module` holds no message for `id`.
    pub open spec fn knows_nothing(self, module: usize, id: u32) -> bool {
        (self.messages)(Some(module), id).len() == 0
    }
}

impl ResolutionView {
    /// The code that the resolution is about; `None` while it is yet to be read.
    pub open spec fn subject(self) -> Option<i32> {
        match self {
            ResolutionView::Code { .. } => None,
            ResolutionView::Text { code } => Some(code),
            ResolutionView::Locate { code } => Some(code),
            ResolutionView::Message { code, .. } => Some(code),
            ResolutionView::Failure { code } => Some(code),
            ResolutionView::Done(error) => Some(error.code),
        }
    }

    /// The most lookups that the resolution may still ask for.
    pub open spec fn exchanges_left(self) -> nat {
        match self {
            ResolutionView::Code { platform } => match platform {
                Platform::Unix => 2,
                Platform::Windows { nt_messages } => if nt_messages {
                    5
                } else {
                    3
                },
            },
            ResolutionView::Text { .. } => 1,
            ResolutionView::Locate { .. } => 4,
            ResolutionView::Message { modules, tried, .. } => if tried < modules.len() {
                (modules.len() - tried + 2) as nat
            } else {
                2
            },
            ResolutionView::Failure { .. } => 1,
            ResolutionView::Done(_) => 0,
        }
    }
}

/// The resolution `state` after `exchanges` of its requests have been answered by `host`.
pub open spec fn run(state: ResolutionView, host: Host, exchanges: nat) -> ResolutionView
    decreases exchanges,
{
    if exchanges == 0 {
        state
    } else {
        run(state.after(host.answer(state)), host, (exchanges - 1) as nat)
    }
}

/// What the resolution `state` comes to against `host`.
pub open spec fn outcome(state: ResolutionView, host: Host) -> ResolutionView {
    run(state, host, state.exchanges_left())
}

/// Whether the native message in `reply` holds nothing to show: it decodes, and is empty once
/// trimmed.
pub open spec fn blank(reply: ReplyView) -> bool {
    match reply {
        ReplyView::LastError(_) => false,
        ReplyView::ModuleHandle(_) => false,
        ReplyView::Strerror { status, buffer } => {
            &&& status == 0
            &&& valid_utf8(nul_terminated(buffer))
            &&& decode_utf8(nul_terminated(buffer)).len() == 0
        },
        ReplyView::FormatMessage(message) => {
            &&& utf16_text(message) matches Some(text)
            &&& trimmed(text).len() == 0
        },
    }
}

/// A resolution that has ended stays as it is, whatever is answered.
pub proof fn lemma_done_stays(error: ErrorView, host: Host, exchanges: nat)
    ensures
        run(ResolutionView::Done(error), host, exchanges) == ResolutionView::Done(error),
    decreases exchanges,
{
    if exchanges > 0 {
        lemma_done_stays(error, host, (exchanges - 1) as nat);
    }
}

/// Exchanges add up: to answer `first + then` requests is to answer `first`, and then `then`
/// more.
pub proof fn lemma_run_splits(state: ResolutionView, host: Host, first: nat, then: nat)
    ensures
        run(state, host, first + then) == run(run(state, host, first), host, then),
    decreases first,
{
    if first > 0 {
        lemma_run_splits(state.after(host.answer(state)), host, (first - 1) as nat, then);
    }
}

/// Every resolution ends in a description: after `exchanges_left` lookups at most, and for
/// good.
pub proof fn lemma_resolution_ends(state: ResolutionView, host: Host, exchanges: nat)
    requires
        exchanges >= state.exchanges_left(),
    ensures
        outcome(state, host) is Done,
        run(state, host, exchanges) == outcome(state, host),
    decreases exchanges,
{
    if state is Done {
        lemma_done_stays(state->Done_0, host, exchanges);
        lemma_done_stays(state->Done_0, host, state.exchanges_left());
    } else {
        let next = state.after(host.answer(state));
        lemma_resolution_ends(next, host, (exchanges - 1) as nat);
        lemma_resolution_ends(next, host, (state.exchanges_left() - 1) as nat);
    }
}

/// Where a resolution has ended after some number of lookups, that end is its outcome.
pub proof fn lemma_end_is_outcome(state: ResolutionView, host: Host, exchanges: nat)
    requires
        run(state, host, exchanges) is Done,
    ensures
        run(state, host, exchanges) == outcome(state, host),
{
    let left = state.exchanges_left();
    if exchanges >= left {
        lemma_resolution_ends(state, host, exchanges);
    } else {
        lemma_run_splits(state, host, exchanges, (left - exchanges) as nat);
        lemma_done_stays(run(state, host, exchanges)->Done_0, host, (left - exchanges) as nat);
    }
}

/// No answer changes the code that a resolution is about.
proof fn lemma_run_keeps_code(state: ResolutionView, host: Host, exchanges: nat)
    requires
        state.subject() is Some,
    ensures
        run(state, host, exchanges).subject() == state.subject(),
    decreases exchanges,
{
    if exchanges > 0 {
        lemma_run_keeps_code(state.after(host.answer(state)), host, (exchanges - 1) as nat);
    }
}

/// The description that a resolution ends in carries the code that the resolution is about,
/// whether or not a message was found for it.
pub proof fn lemma_code_is_kept(state: ResolutionView, host: Host)
    requires
        state.subject() is Some,
    ensures
        outcome(state, host) matches ResolutionView::Done(error) && Some(error.code)
            == state.subject(),
{
    lemma_run_keeps_code(state, host, state.exchanges_left());
    lemma_resolution_ends(state, host, state.exchanges_left());
}

/// Whatever the platform and whatever the lookups answer, the description that a raw code is
/// resolved to carries that code.
pub proof fn lemma_raw_code_is_kept(code: i32, platform: Platform, host: Host)
    ensures
        outcome(ResolutionView::start(code, platform), host) matches ResolutionView::Done(error)
            && error.code == code,
{
    lemma_code_is_kept(ResolutionView::start(code, platform), host);
}

/// A resolution of the most recent error comes to what the resolution of that code comes to.
pub proof fn lemma_last_error_is_resolved(platform: Platform, host: Host)
    ensures
        outcome(ResolutionView::Code { platform }, host) == outcome(
            ResolutionView::start(host.last_error, platform),
            host,
        ),
{
    let begun = ResolutionView::start(host.last_error, platform);
    let awaiting = ResolutionView::Code { platform };
    assert(awaiting.after(host.answer(awaiting)) == begun);
    lemma_resolution_ends(begun, host, (awaiting.exchanges_left() - 1) as nat);
}

/// A POSIX code is resolved by one lookup: the resolution ends in what `strerror_r` gave.
pub proof fn lemma_posix_outcome(code: i32, host: Host)
    ensures
        outcome(ResolutionView::Text { code }, host) == ResolutionView::Done(
            ErrorView {
                code,
                text: unix::description(code, (host.strerror)(code).0, (host.strerror)(code).1),
            },
        ),
{
    reveal_with_fuel(run, 2);
}

/// A resolution that looks for the NT system module comes to what the search comes to that
/// the host's answer begins.
pub proof fn lemma_nt_module_is_searched(code: i32, host: Host)
    ensures
        outcome(ResolutionView::Locate { code }, host) == outcome(
            system_search(code, host.nt_module),
            host,
        ),
{
    let begun = system_search(code, host.nt_module);
    let awaiting = ResolutionView::Locate { code };
    assert(awaiting.after(host.answer(awaiting)) == begun);
    lemma_resolution_ends(begun, host, (awaiting.exchanges_left() - 1) as nat);
}

/// A description is empty only where the native message itself held nothing to show: against a
/// host that never answers with a blank message, no resolution ends in an empty description.
pub proof fn lemma_description_is_not_empty(state: ResolutionView, host: Host)
    requires
        forall|awaiting: ResolutionView| !blank(#[trigger] host.answer(awaiting)),
        state matches ResolutionView::Done(error) ==> error.text.len() > 0,
    ensures
        outcome(state, host) matches ResolutionView::Done(error) && error.text.len() > 0,
    decreases state.exchanges_left(),
{
    lemma_resolution_ends(state, host, state.exchanges_left());
    if !(state is Done) {
        let reply = host.answer(state);
        let next = state.after(reply);
        assert(!blank(reply));
        if next is Done {
            match state {
                ResolutionView::Text { code } => {
                    lemma_fallback_text(code, "strerror_r() failed"@);
                    lemma_fallback_text(code, "strerror_r() returned invalid UTF-8"@);
                },
                ResolutionView::Message { code, .. } => {
                    lemma_fallback_text(code, "FormatMessageW() returned invalid wide string"@);
                },
                ResolutionView::Failure { code } => {
                    lemma_fallback_text(
                        code,
                        "FormatMessageW() returned error "@ + decimal(host.lookup_failure as int),
                    );
                },
                _ => {},
            }
            assert(next->Done_0.text.len() > 0);
        }
        lemma_description_is_not_empty(next, host);
        lemma_resolution_ends(next, host, (state.exchanges_left() - 1) as nat);
    }
}

/// Modules are tried in the order given: while the tables of the first `count` modules hold
/// nothing for `lookup`, exactly those have been asked after `count` lookups, and the next
/// request goes to the module that follows them, or to the system after the last.
pub proof fn lemma_modules_in_order(
    code: i32,
    lookup: u32,
    modules: Seq<usize>,
    host: Host,
    count: nat,
)
    requires
        count <= modules.len(),
        forall|i: int| 0 <= i < count ==> host.knows_nothing(#[trigger] modules[i], lookup),
    ensures
        run(search(code, lookup, modules), host, count) == (ResolutionView::Message {
            code,
            lookup,
            modules,
            tried: count,
        }),
        count < modules.len() ==> run(search(code, lookup, modules), host, count).request()
            == Some(
            Request::FormatMessage {
                flags: MODULE_LOOKUP,
                module: Some(modules[count as int]),
                id: lookup,
                capacity: MESSAGE_CAPACITY,
            },
        ),
        count == modules.len() ==> run(search(code, lookup, modules), host, count).request()
            == Some(
            Request::FormatMessage {
                flags: SYSTEM_LOOKUP,
                module: None,
                id: message_id(code),
                capacity: MESSAGE_CAPACITY,
            },
        ),
    decreases count,
{
    if count > 0 {
        let before = (count - 1) as nat;
        lemma_modules_in_order(code, lookup, modules, host, before);
        lemma_run_splits(search(code, lookup, modules), host, before, 1);
        assert(host.knows_nothing(modules[before as int], lookup));
        reveal_with_fuel(run, 2);
    }
}

/// The first match wins: where the table of `modules[hit]` holds a message for `lookup` and
/// those of the modules before it hold none, the resolution ends in that message's text,
/// whatever the tables of the modules after it and of the system hold.
pub proof fn lemma_first_match_wins(
    code: i32,
    lookup: u32,
    modules: Seq<usize>,
    host: Host,
    hit: int,
)
    requires
        0 <= hit < modules.len(),
        forall|i: int| 0 <= i < hit ==> host.knows_nothing(#[trigger] modules[i], lookup),
        !host.knows_nothing(modules[hit], lookup),
    ensures
        outcome(search(code, lookup, modules), host) == ResolutionView::Done(
            ErrorView {
                code,
                text: message_text(code, (host.messages)(Some(modules[hit]), lookup)),
            },
        ),
{
    let begun = search(code, lookup, modules);
    lemma_modules_in_order(code, lookup, modules, host, hit as nat);
    lemma_run_splits(begun, host, hit as nat, 1);
    reveal_with_fuel(run, 2);
    lemma_end_is_outcome(begun, host, (hit + 1) as nat);
}

/// The system's table comes last: where no module's table holds a message for `lookup`, the
/// resolution ends in the system's message for `code`, or, where the system holds none either,
/// in a text that names `code` and the error that the lookup reported.
pub proof fn lemma_system_comes_last(code: i32, lookup: u32, modules: Seq<usize>, host: Host)
    requires
        forall|i: int| 0 <= i < modules.len() ==> host.knows_nothing(#[trigger] modules[i], lookup),
    ensures
        outcome(search(code, lookup, modules), host) == ResolutionView::Done(
            ErrorView {
                code,
                text: if (host.messages)(None, message_id(code)).len() > 0 {
                    message_text(code, (host.messages)(None, message_id(code)))
                } else {
                    failure_text(code, host.lookup_failure)
                },
            },
        ),
{
    let begun = search(code, lookup, modules);
    let count = modules.len();
    lemma_modules_in_order(code, lookup, modules, host, count);
    lemma_run_splits(begun, host, count, 2);
    reveal_with_fuel(run, 3);
    lemma_end_is_outcome(begun, host, count + 2);
}

/// Two hosts that answer every request alike lead a resolution through the same states.
proof fn lemma_run_repeats(state: ResolutionView, first: Host, second: Host, exchanges: nat)
    requires
        forall|awaiting: ResolutionView| #[trigger]
            first.answer(awaiting) == second.answer(awaiting),
    ensures
        run(state, first, exchanges) == run(state, second, exchanges),
    decreases exchanges,
{
    if exchanges > 0 {
        lemma_run_repeats(state.after(first.answer(state)), first, second, (exchanges - 1) as nat);
    }
}

/// Resolving again gives the same description: two hosts that answer every request alike lead
/// every resolution to the same end.
pub proof fn lemma_outcome_repeats(state: ResolutionView, first: Host, second: Host)
    requires
        forall|awaiting: ResolutionView| #[trigger]
            first.answer(awaiting) == second.answer(awaiting),
    ensures
        outcome(state, first) == outcome(state, second),
{
    lemma_run_repeats(state, first, second, state.exchanges_left());
}

} // verus!
