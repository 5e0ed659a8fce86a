//! A verified resource-management layer for PC/SC style smart-card access.
//!
//! The native smart-card service is reached through opaque integer handles
//! and reports every outcome as a signed status code.  This crate holds the
//! part of such a binding that is worth proving: the status-code-to-error
//! taxonomy, the ownership and lifetime rules for contexts, cards and
//! transactions, the caller-sized buffer protocol, the reader-name decoding
//! and the reader-state records used for change polling.
//!
//! The native entry points themselves live in an unverified shell around
//! this crate.  Each fallible operation here takes, besides its ordinary
//! arguments, the raw values the native call reported (the status code and
//! any output words); its contract states exactly which result the caller
//! receives for every such report.

use vstd::prelude::*;

mod card;
mod context;
mod error;
mod flags;
mod names;
mod params;
mod reader_state;

pub use crate::card::Card;
pub use crate::card::Transaction;
pub use crate::context::events_recorded;
pub use crate::context::timeout_millis;
pub use crate::context::Canceler;
pub use crate::context::Context;
pub use crate::context::INFINITE;
pub use crate::context::SCARD_E_NO_READERS_AVAILABLE;
pub use crate::error::code_of;
pub use crate::error::error_from_code;
pub use crate::error::hard_failure_code;
pub use crate::error::lemma_hard_failure_range_exact;
pub use crate::error::lemma_unmapped_code_is_catch_all;
pub use crate::error::lemma_warning_range_exact;
pub use crate::error::warning_code;
pub use crate::error::Error;
pub use crate::error::SCARD_S_SUCCESS;
pub use crate::flags::Protocols;
pub use crate::flags::State;
pub use crate::flags::Status;
pub use crate::flags::PROTOCOL_ANY;
pub use crate::flags::PROTOCOL_RAW;
pub use crate::flags::PROTOCOL_T0;
pub use crate::flags::PROTOCOL_T1;
pub use crate::flags::PROTOCOL_UNDEFINED;
pub use crate::flags::STATE_ATRMATCH;
pub use crate::flags::STATE_CHANGED;
pub use crate::flags::STATE_EMPTY;
pub use crate::flags::STATE_EXCLUSIVE;
pub use crate::flags::STATE_IGNORE;
pub use crate::flags::STATE_INUSE;
pub use crate::flags::STATE_MASK;
pub use crate::flags::STATE_MUTE;
pub use crate::flags::STATE_PRESENT;
pub use crate::flags::STATE_UNAVAILABLE;
pub use crate::flags::STATE_UNAWARE;
pub use crate::flags::STATE_UNKNOWN;
pub use crate::flags::STATE_UNPOWERED;
pub use crate::flags::STATUS_ABSENT;
pub use crate::flags::STATUS_MASK;
pub use crate::flags::STATUS_NEGOTIABLE;
pub use crate::flags::STATUS_POWERED;
pub use crate::flags::STATUS_PRESENT;
pub use crate::flags::STATUS_SPECIFIC;
pub use crate::flags::STATUS_SWALLOWED;
pub use crate::flags::STATUS_UNKNOWN;
pub use crate::names::encode_names;
pub use crate::names::first_nul;
pub use crate::names::lemma_first_nul;
pub use crate::names::lemma_names_round_trip;
pub use crate::names::parse_names;
pub use crate::names::pnp_notification_name;
pub use crate::names::ReaderNames;
pub use crate::names::PNP_NOTIFICATION;
pub use crate::params::attribute_class_raw;
pub use crate::params::attribute_raw;
pub use crate::params::disposition_raw;
pub use crate::params::protocol_from_raw;
pub use crate::params::scope_raw;
pub use crate::params::share_mode_raw;
pub use crate::params::valid_protocol_raw;
pub use crate::params::Attribute;
pub use crate::params::AttributeClass;
pub use crate::params::Disposition;
pub use crate::params::Protocol;
pub use crate::params::Scope;
pub use crate::params::ShareMode;
pub use crate::reader_state::event_count_of;
pub use crate::reader_state::lemma_event_count_is_high_half;
pub use crate::reader_state::lemma_single_event_counts_once;
pub use crate::reader_state::ReaderState;

verus! {

/// Maximum number of bytes in an ATR.
pub const MAX_ATR_SIZE: usize = 33;

/// Maximum number of bytes in a short APDU command or response.
pub const MAX_BUFFER_SIZE: usize = 264;

/// Maximum number of bytes in an extended APDU command or response.
pub const MAX_BUFFER_SIZE_EXTENDED: usize = 65548;

} // verus!
