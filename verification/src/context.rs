//! The context: the session with the native smart-card service, and the
//! canceler that can interrupt its blocking wait from another thread.
//!
//! A `Context` owns the native service handle from a successful
//! establishment until a successful release; release consumes the value,
//! so a released handle can never be used again through it.  A `Canceler`
//! carries an independent copy of the handle and may outlive the context:
//! cancelling after the context was released is a defined, recoverable
//! invalid-handle failure, never undefined behaviour.
//!
//! The native entry points live in the unverified shell: each fallible
//! operation takes the raw status code the native call reported, plus any
//! output values, and its contract fixes the result for every report.

#![allow(unused_variables)]

use vstd::prelude::*;
use vstd::slice::slice_subrange;
use crate::card::Card;
use crate::error::error_from_code;
use crate::error::Error;
use crate::error::SCARD_S_SUCCESS;
use crate::flags::Protocols;
use crate::names::parse_names;
use crate::names::ReaderNames;
use crate::params::protocol_from_raw;
use crate::params::valid_protocol_raw;
use crate::params::Protocol;
use crate::params::Scope;
use crate::params::ShareMode;
use crate::reader_state::ReaderState;

verus! {

/// The native timeout word that asks the wait call to block forever.
pub const INFINITE: u32 = 0xFFFF_FFFF;

/// The raw code with which the native service reports that no reader is
/// connected; reader listing normalises it to an empty list.
pub const SCARD_E_NO_READERS_AVAILABLE: i64 = 0x8010_002E;

/// Whether each record of `after` equals the matching record of `before`
/// with its event word replaced by the matching word of `words`.
pub open spec fn events_recorded(
    before: Seq<ReaderState>,
    after: Seq<ReaderState>,
    words: Seq<u32>,
) -> bool {
    &&& after.len() == before.len()
    &&& forall |i: int| 0 <= i < before.len() ==> {
        &&& (#[trigger] after[i]).spec_name() == before[i].spec_name()
        &&& after[i].spec_current() == before[i].spec_current()
        &&& after[i].spec_event() == words[i]
    }
}

/// Convert a timeout of whole seconds plus leftover nanoseconds into the
/// millisecond word the native wait call takes, saturating at the native
/// infinite sentinel.
pub fn timeout_millis(secs: u64, subsec_nanos: u32) -> (r: u32)
    ensures
        ({
            let total = secs as int * 1000 + subsec_nanos as int / 1_000_000;
            r == if total >= INFINITE { INFINITE as int } else { total }
        }),
{
    if secs > 0xFFFF_FFFF {
        INFINITE
    } else {
        let total: u64 = secs * 1000 + (subsec_nanos / 1_000_000) as u64;
        if total >= 0xFFFF_FFFF {
            INFINITE
        } else {
            total as u32
        }
    }
}

/// A session with the native smart-card service.
///
/// A context and everything derived from it belong to the thread that
/// established it; only a `Canceler` may cross to another thread.
#[derive(Debug)]
pub struct Context {
    handle: u64,
}

/// A handle copy that can cancel a context's blocking wait from another
/// thread; it may outlive the context it came from.
#[derive(Debug)]
pub struct Canceler {
    handle: u64,
}

impl Context {
    /// The native service handle.
    pub closed spec fn spec_handle(&self) -> u64 {
        self.handle
    }

    /// The native service handle, for the shell to pass to the native
    /// entry points.
    pub fn handle(&self) -> (r: u64)
        ensures
            r == self.spec_handle(),
    {
        self.handle
    }

    /// Establish a context of the given scope, given the status code and
    /// the handle the native establish call reported.
    pub fn establish(scope: Scope, code: i64, raw_handle: u64) -> (r: Result<Context, Error>)
        ensures
            code == SCARD_S_SUCCESS ==> (r matches Ok(c) && c.spec_handle() == raw_handle),
            code != SCARD_S_SUCCESS ==> (r matches Err(e) && e == error_from_code(code)),
    {
        if code == SCARD_S_SUCCESS {
            Ok(Context { handle: raw_handle })
        } else {
            Err(Error::from_raw(code))
        }
    }

    /// Release the context, given the status code the native release call
    /// reported.
    ///
    /// Consumes the context on success, so the handle cannot be used — or
    /// released — again through it.  On failure ownership of the same
    /// context returns to the caller beside the mapped error, so the
    /// caller may retry.
    pub fn release(self, code: i64) -> (r: Result<(), (Context, Error)>)
        ensures
            code == SCARD_S_SUCCESS ==> r is Ok,
            code != SCARD_S_SUCCESS ==> (r matches Err(p)
                && p.0 == self && p.1 == error_from_code(code)),
    {
        if code == SCARD_S_SUCCESS {
            Ok(())
        } else {
            Err((self, Error::from_raw(code)))
        }
    }

    /// Whether the context is still valid, given the status code the
    /// native validity probe reported.  No side effects.
    pub fn is_valid(&self, code: i64) -> (r: Result<(), Error>)
        ensures
            code == SCARD_S_SUCCESS ==> r is Ok,
            code != SCARD_S_SUCCESS ==> (r matches Err(e) && e == error_from_code(code)),
    {
        if code == SCARD_S_SUCCESS {
            Ok(())
        } else {
            Err(Error::from_raw(code))
        }
    }

    /// A canceler for this context: a copy of the handle that another
    /// thread may hold and invoke.  Does not affect the context's
    /// ownership of the handle.
    pub fn get_canceler(&self) -> (r: Canceler)
        ensures
            r.spec_handle() == self.spec_handle(),
    {
        Canceler { handle: self.handle }
    }

    /// The connected readers' names, given the status code and the filled
    /// length the native list-readers call reported for `buffer`.
    ///
    /// The caller sizes `buffer`; the native call fills its prefix with
    /// the NUL-separated, double-NUL-terminated name list and reports the
    /// filled length.  A buffer too small for the list is reported as
    /// `InsufficientBuffer`, and the caller retries with a larger one.
    /// A no-readers-available report is normalised to a successful empty
    /// sequence: to a caller, no readers and a zero-length reader list
    /// are observably the same, though the raw native contract separates
    /// them.
    pub fn list_readers<'buf>(&self, buffer: &'buf [u8], code: i64, len: usize) -> (r: Result<
        ReaderNames<'buf>,
        Error,
    >)
        requires
            code == SCARD_S_SUCCESS ==> len <= buffer@.len(),
        ensures
            code == SCARD_S_SUCCESS ==> (r matches Ok(names)
                && names.wf() && names@ == parse_names(buffer@.take(len as int))),
            code == SCARD_E_NO_READERS_AVAILABLE ==> (r matches Ok(names)
                && names.wf() && names@ == Seq::<Seq<u8>>::empty()),
            code != SCARD_S_SUCCESS && code != SCARD_E_NO_READERS_AVAILABLE
                ==> (r matches Err(e) && e == error_from_code(code)),
    {
        if code == SCARD_S_SUCCESS {
            Ok(ReaderNames::over(slice_subrange(buffer, 0, len)))
        } else if code == SCARD_E_NO_READERS_AVAILABLE {
            let empty: &[u8] = slice_subrange(buffer, 0, 0);
            let names = ReaderNames::over(empty);
            proof {
                assert(empty@.len() == 0);
                assert(parse_names(empty@) =~= Seq::<Seq<u8>>::empty());
            }
            Ok(names)
        } else {
            Err(Error::from_raw(code))
        }
    }

    /// Connect to a card in the named reader, given the status code, the
    /// connection handle and the negotiated-protocol word the native
    /// connect call reported.
    ///
    /// The native service negotiates one concrete protocol out of the
    /// preferred set and the resulting card records it.  Only the three
    /// protocol values this layer itself offers can come back, so any
    /// other word is ruled out by the precondition.
    pub fn connect(
        &self,
        reader: &[u8],
        share_mode: ShareMode,
        preferred_protocols: Protocols,
        code: i64,
        raw_handle: u64,
        raw_protocol: u32,
    ) -> (r: Result<Card, Error>)
        requires
            code == SCARD_S_SUCCESS ==> valid_protocol_raw(raw_protocol),
        ensures
            code == SCARD_S_SUCCESS ==> (r matches Ok(c)
                && c.spec_handle() == raw_handle
                && c.spec_protocol() == protocol_from_raw(raw_protocol)),
            code != SCARD_S_SUCCESS ==> (r matches Err(e) && e == error_from_code(code)),
    {
        if code == SCARD_S_SUCCESS {
            Ok(Card::from_parts(raw_handle, Protocol::from_raw(raw_protocol)))
        } else {
            Err(Error::from_raw(code))
        }
    }

    /// Complete a wait for reader-state changes, given the status code
    /// the native wait call reported and, per record, the raw event word
    /// it reported.
    ///
    /// On success every record keeps its name and its assumed state and
    /// takes the reported event word; on failure the records are left as
    /// they were.  The shell passes `timeout_ms` — built by
    /// [`timeout_millis`] or [`INFINITE`] — to the native call, which
    /// blocks until a state changes, the timeout runs out or a canceler
    /// interrupts it.
    pub fn get_status_change(
        &self,
        timeout_ms: u32,
        readers: &mut Vec<ReaderState>,
        code: i64,
        reported: &Vec<u32>,
    ) -> (r: Result<(), Error>)
        requires
            reported@.len() == old(readers)@.len(),
        ensures
            code == SCARD_S_SUCCESS ==> r is Ok
                && events_recorded(old(readers)@, final(readers)@, reported@),
            code != SCARD_S_SUCCESS ==> (r matches Err(e) && e == error_from_code(code))
                && final(readers)@ == old(readers)@,
    {
        if code != SCARD_S_SUCCESS {
            return Err(Error::from_raw(code));
        }
        let ghost before = readers@;
        let n: usize = readers.len();
        let mut i: usize = 0;
        while i < n
            invariant
                i <= n,
                n == before.len(),
                readers@.len() == before.len(),
                reported@.len() == before.len(),
                forall |j: int| 0 <= j < i ==> {
                    &&& (#[trigger] readers@[j]).spec_name() == before[j].spec_name()
                    &&& readers@[j].spec_current() == before[j].spec_current()
                    &&& readers@[j].spec_event() == reported@[j]
                },
                forall |j: int| i <= j < n ==> readers@[j] == before[j],
            decreases n - i,
        {
            let w: u32 = reported[i];
            let record = &mut readers[i];
            record.set_event_word(w);
            i = i + 1;
        }
        Ok(())
    }
}

impl Canceler {
    /// The handle copy.
    pub closed spec fn spec_handle(&self) -> u64 {
        self.handle
    }

    /// The handle copy, for the shell to pass to the native cancel entry
    /// point.
    pub fn handle(&self) -> (r: u64)
        ensures
            r == self.spec_handle(),
    {
        self.handle
    }

    /// Complete a cancellation, given the status code the native cancel
    /// call reported.
    ///
    /// Cancelling while the originating context blocks in a wait makes
    /// that wait return a cancellation error on its own thread; with no
    /// wait outstanding the call is a harmless no-op; after the context
    /// was released the native service reports an invalid handle, mapped
    /// here like any other failure.
    pub fn cancel(&self, code: i64) -> (r: Result<(), Error>)
        ensures
            code == SCARD_S_SUCCESS ==> r is Ok,
            code != SCARD_S_SUCCESS ==> (r matches Err(e) && e == error_from_code(code)),
    {
        if code == SCARD_S_SUCCESS {
            Ok(())
        } else {
            Err(Error::from_raw(code))
        }
    }
}

} // verus!
