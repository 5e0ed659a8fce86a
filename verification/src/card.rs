//! Cards and transactions: the connection to one smart card and the
//! exclusive-access window over it.
//!
//! A `Card` owns the native connection handle and records the protocol
//! the service negotiated.  A `Transaction` takes the whole card over for
//! a bounded run of operations and hands it back when it ends, so a second
//! transaction can only begin once the first is over — exclusivity is a
//! consequence of ownership, not of a lock of this layer's own.
//!
//! The native entry points live in the unverified shell: each fallible
//! operation takes the raw status code the native call reported, plus any
//! output words, and its contract fixes the result for every report.
//! Every operation that consumes its resource to release it returns that
//! same resource alongside the error on failure, so the caller can retry.

#![allow(unused_variables)]

use vstd::prelude::*;
use vstd::slice::slice_subrange;
use crate::error::error_from_code;
use crate::error::Error;
use crate::error::SCARD_S_SUCCESS;
use crate::flags::Protocols;
use crate::flags::Status;
use crate::flags::STATUS_MASK;
use crate::params::protocol_from_raw;
use crate::params::valid_protocol_raw;
use crate::params::Attribute;
use crate::params::Disposition;
use crate::params::Protocol;
use crate::params::ShareMode;

verus! {

/// A connection to a smart card.
#[derive(Debug)]
pub struct Card {
    handle: u64,
    active_protocol: Protocol,
}

impl Card {
    /// The native connection handle.
    pub closed spec fn spec_handle(&self) -> u64 {
        self.handle
    }

    /// The protocol negotiated at connect or reconnect time.
    pub closed spec fn spec_protocol(&self) -> Protocol {
        self.active_protocol
    }

    /// Assemble a card around a handle the native service returned.
    pub(crate) fn from_parts(handle: u64, active_protocol: Protocol) -> (r: Card)
        ensures
            r.spec_handle() == handle,
            r.spec_protocol() == active_protocol,
    {
        Card { handle, active_protocol }
    }

    /// The native connection handle, for the shell to pass to the native
    /// entry points.
    pub fn handle(&self) -> (r: u64)
        ensures
            r == self.spec_handle(),
    {
        self.handle
    }

    /// The currently active communication protocol; the shell selects the
    /// matching protocol-control-information descriptor from it before a
    /// transmit call.
    pub fn active_protocol(&self) -> (r: Protocol)
        ensures
            r == self.spec_protocol(),
    {
        self.active_protocol
    }

    /// Start an exclusive transaction with the card, given the status
    /// code the native begin-transaction call reported.
    ///
    /// On success the card moves into the returned `Transaction`, so no
    /// further operation — and no second transaction — can reach it except
    /// through that transaction until it ends.  On failure the card comes
    /// back to the caller beside the mapped error.
    pub fn transaction(self, code: i64) -> (r: Result<Transaction, (Card, Error)>)
        ensures
            code == SCARD_S_SUCCESS ==> (r matches Ok(t) && t.spec_card() == self),
            code != SCARD_S_SUCCESS ==> (r matches Err(p)
                && p.0 == self && p.1 == error_from_code(code)),
    {
        if code == SCARD_S_SUCCESS {
            Ok(Transaction { card: self })
        } else {
            Err((self, Error::from_raw(code)))
        }
    }

    /// Reconnect to the card, given the status code and the negotiated
    /// protocol word the native reconnect call reported.
    ///
    /// On success the recorded active protocol becomes the newly
    /// negotiated one; on failure the card is left as it was.  Only the
    /// three protocol values this layer itself offers can come back, so
    /// any other word is ruled out by the precondition.
    pub fn reconnect(
        &mut self,
        share_mode: ShareMode,
        preferred_protocols: Protocols,
        initialization: Disposition,
        code: i64,
        raw_protocol: u32,
    ) -> (r: Result<(), Error>)
        requires
            code == SCARD_S_SUCCESS ==> valid_protocol_raw(raw_protocol),
        ensures
            final(self).spec_handle() == old(self).spec_handle(),
            code == SCARD_S_SUCCESS ==> r is Ok
                && final(self).spec_protocol() == protocol_from_raw(raw_protocol),
            code != SCARD_S_SUCCESS ==> (r matches Err(e) && e == error_from_code(code))
                && final(self).spec_protocol() == old(self).spec_protocol(),
    {
        if code == SCARD_S_SUCCESS {
            self.active_protocol = Protocol::from_raw(raw_protocol);
            Ok(())
        } else {
            Err(Error::from_raw(code))
        }
    }

    /// Disconnect from the card, given the status code the native
    /// disconnect call reported.
    ///
    /// Consumes the card on success; on failure ownership of the card
    /// returns to the caller beside the mapped error, so the caller may
    /// retry with the same or another disposition.
    pub fn disconnect(self, disposition: Disposition, code: i64) -> (r: Result<
        (),
        (Card, Error),
    >)
        ensures
            code == SCARD_S_SUCCESS ==> r is Ok,
            code != SCARD_S_SUCCESS ==> (r matches Err(p)
                && p.0 == self && p.1 == error_from_code(code)),
    {
        if code == SCARD_S_SUCCESS {
            Ok(())
        } else {
            Err((self, Error::from_raw(code)))
        }
    }

    /// Current card status, given the status code, the raw status word
    /// and the active-protocol word the native status call reported.
    pub fn status(&self, code: i64, raw_status: u32, raw_protocol: u32) -> (r: Result<
        (Status, Protocol),
        Error,
    >)
        requires
            code == SCARD_S_SUCCESS ==> valid_protocol_raw(raw_protocol),
        ensures
            code == SCARD_S_SUCCESS ==> (r matches Ok(sp)
                && sp.0.bits == raw_status & STATUS_MASK
                && sp.1 == protocol_from_raw(raw_protocol)),
            code != SCARD_S_SUCCESS ==> (r matches Err(e) && e == error_from_code(code)),
    {
        if code == SCARD_S_SUCCESS {
            Ok((Status::from_bits_truncate(raw_status), Protocol::from_raw(raw_protocol)))
        } else {
            Err(Error::from_raw(code))
        }
    }

    /// An attribute of the card or reader, read into the caller's buffer.
    ///
    /// The caller sizes `buffer`; the native call fills its prefix and
    /// reports the attribute length `len`.  On success the result is the
    /// sub-slice of `buffer` holding exactly the reported length; a buffer
    /// too small for the attribute is reported as `InsufficientBuffer`,
    /// and the caller retries with a larger one.
    pub fn get_attribute<'buf>(
        &self,
        attribute: Attribute,
        buffer: &'buf [u8],
        code: i64,
        len: usize,
    ) -> (r: Result<&'buf [u8], Error>)
        requires
            code == SCARD_S_SUCCESS ==> len <= buffer@.len(),
        ensures
            code == SCARD_S_SUCCESS ==> (r matches Ok(data) && data@ == buffer@.take(len as int)),
            code != SCARD_S_SUCCESS ==> (r matches Err(e) && e == error_from_code(code)),
    {
        if code == SCARD_S_SUCCESS {
            Ok(slice_subrange(buffer, 0, len))
        } else {
            Err(Error::from_raw(code))
        }
    }

    /// Set an attribute of the card or reader, given the status code the
    /// native call reported.
    pub fn set_attribute(&self, attribute: Attribute, attribute_data: &[u8], code: i64) -> (r:
        Result<(), Error>)
        ensures
            code == SCARD_S_SUCCESS ==> r is Ok,
            code != SCARD_S_SUCCESS ==> (r matches Err(e) && e == error_from_code(code)),
    {
        if code == SCARD_S_SUCCESS {
            Ok(())
        } else {
            Err(Error::from_raw(code))
        }
    }

    /// Transmit an APDU to the card and return its response.
    ///
    /// The APDU bytes are opaque to this layer.  The caller sizes
    /// `receive_buffer`; the native call fills its prefix with the
    /// response and reports the response length.  On success the result
    /// is the sub-slice of `receive_buffer` holding exactly the reported
    /// length; a buffer too small for the response is reported as
    /// `InsufficientBuffer`.
    pub fn transmit<'buf>(
        &self,
        send_buffer: &[u8],
        receive_buffer: &'buf [u8],
        code: i64,
        receive_len: usize,
    ) -> (r: Result<&'buf [u8], Error>)
        requires
            code == SCARD_S_SUCCESS ==> receive_len <= receive_buffer@.len(),
        ensures
            code == SCARD_S_SUCCESS ==> (r matches Ok(data)
                && data@ == receive_buffer@.take(receive_len as int)),
            code != SCARD_S_SUCCESS ==> (r matches Err(e) && e == error_from_code(code)),
    {
        if code == SCARD_S_SUCCESS {
            Ok(slice_subrange(receive_buffer, 0, receive_len))
        } else {
            Err(Error::from_raw(code))
        }
    }
}

/// An exclusive transaction with a card.
///
/// Owns the card for its whole lifetime and forwards the card's
/// operations, so the caller can treat it as the card itself; ending it
/// hands the card back.
#[derive(Debug)]
pub struct Transaction {
    card: Card,
}

impl Transaction {
    /// The card the transaction owns.
    pub closed spec fn spec_card(&self) -> Card {
        self.card
    }

    /// End the transaction, given the status code the native
    /// end-transaction call reported.
    ///
    /// On success the card comes back to the caller, free for further
    /// operations or a new transaction.  On failure ownership of the
    /// whole transaction returns to the caller beside the mapped error,
    /// so the caller may retry.
    pub fn end(self, disposition: Disposition, code: i64) -> (r: Result<
        Card,
        (Transaction, Error),
    >)
        ensures
            code == SCARD_S_SUCCESS ==> (r matches Ok(c) && c == self.spec_card()),
            code != SCARD_S_SUCCESS ==> (r matches Err(p)
                && p.0 == self && p.1 == error_from_code(code)),
    {
        if code == SCARD_S_SUCCESS {
            Ok(self.card)
        } else {
            Err((self, Error::from_raw(code)))
        }
    }

    /// The owned card's native connection handle, for the shell to pass
    /// to the native entry points.
    pub fn handle(&self) -> (r: u64)
        ensures
            r == self.spec_card().spec_handle(),
    {
        self.card.handle()
    }

    /// The currently active communication protocol of the owned card.
    pub fn active_protocol(&self) -> (r: Protocol)
        ensures
            r == self.spec_card().spec_protocol(),
    {
        self.card.active_protocol()
    }

    /// Current card status; forwards to the owned card.
    pub fn status(&self, code: i64, raw_status: u32, raw_protocol: u32) -> (r: Result<
        (Status, Protocol),
        Error,
    >)
        requires
            code == SCARD_S_SUCCESS ==> valid_protocol_raw(raw_protocol),
        ensures
            code == SCARD_S_SUCCESS ==> (r matches Ok(sp)
                && sp.0.bits == raw_status & STATUS_MASK
                && sp.1 == protocol_from_raw(raw_protocol)),
            code != SCARD_S_SUCCESS ==> (r matches Err(e) && e == error_from_code(code)),
    {
        self.card.status(code, raw_status, raw_protocol)
    }

    /// Read an attribute; forwards to the owned card.
    pub fn get_attribute<'buf>(
        &self,
        attribute: Attribute,
        buffer: &'buf [u8],
        code: i64,
        len: usize,
    ) -> (r: Result<&'buf [u8], Error>)
        requires
            code == SCARD_S_SUCCESS ==> len <= buffer@.len(),
        ensures
            code == SCARD_S_SUCCESS ==> (r matches Ok(data) && data@ == buffer@.take(len as int)),
            code != SCARD_S_SUCCESS ==> (r matches Err(e) && e == error_from_code(code)),
    {
        self.card.get_attribute(attribute, buffer, code, len)
    }

    /// Set an attribute; forwards to the owned card.
    pub fn set_attribute(&self, attribute: Attribute, attribute_data: &[u8], code: i64) -> (r:
        Result<(), Error>)
        ensures
            code == SCARD_S_SUCCESS ==> r is Ok,
            code != SCARD_S_SUCCESS ==> (r matches Err(e) && e == error_from_code(code)),
    {
        self.card.set_attribute(attribute, attribute_data, code)
    }

    /// Transmit an APDU; forwards to the owned card.
    pub fn transmit<'buf>(
        &self,
        send_buffer: &[u8],
        receive_buffer: &'buf [u8],
        code: i64,
        receive_len: usize,
    ) -> (r: Result<&'buf [u8], Error>)
        requires
            code == SCARD_S_SUCCESS ==> receive_len <= receive_buffer@.len(),
        ensures
            code == SCARD_S_SUCCESS ==> (r matches Ok(data)
                && data@ == receive_buffer@.take(receive_len as int)),
            code != SCARD_S_SUCCESS ==> (r matches Err(e) && e == error_from_code(code)),
    {
        self.card.transmit(send_buffer, receive_buffer, code, receive_len)
    }

    /// Reconnect to the owned card; forwards to it.
    pub fn reconnect(
        &mut self,
        share_mode: ShareMode,
        preferred_protocols: Protocols,
        initialization: Disposition,
        code: i64,
        raw_protocol: u32,
    ) -> (r: Result<(), Error>)
        requires
            code == SCARD_S_SUCCESS ==> valid_protocol_raw(raw_protocol),
        ensures
            final(self).spec_card().spec_handle() == old(self).spec_card().spec_handle(),
            code == SCARD_S_SUCCESS ==> r is Ok
                && final(self).spec_card().spec_protocol() == protocol_from_raw(raw_protocol),
            code != SCARD_S_SUCCESS ==> (r matches Err(e) && e == error_from_code(code))
                && final(self).spec_card().spec_protocol() == old(self).spec_card().spec_protocol(),
    {
        self.card.reconnect(share_mode, preferred_protocols, initialization, code, raw_protocol)
    }
}

} // verus!
