//! Delegated-spending authorization ledgers.
//!
//! An owner account configures a delegate and a set of spending constraints;
//! the delegate (or the owner) may then trigger value transfers to an
//! intermediary recipient as long as every constraint holds.  The ledgers in
//! this crate are pure state machines: the ambient facts a host environment
//! would supply (the caller's address, the current time, the value transfer
//! itself) enter and leave each operation as plain values, so the host shim
//! that performs the actual transfer stays outside the verified core.
//!
//! Modules:
//! - [`account`]: the address type shared by all ledgers.
//! - [`card_contract`]: the full ledger, combining a cumulative spending cap,
//!   a per-transaction limit, and a quota that resets on a rolling time window.
//! - [`basic_card`]: the bare pay/delegate variant with no limit accounting.
//! - [`smart_card`]: the wallet variant with a delegate set and a single
//!   cumulative limit.
//! - [`intermediary_escrow`]: the pass-through collector that payments are
//!   forwarded to.

pub mod account;
pub mod basic_card;
pub mod card_contract;
pub mod intermediary_escrow;
pub mod smart_card;
