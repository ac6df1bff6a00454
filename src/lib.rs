//! Ledger primitives for contract-style applications: a fungible token
//! (balances, allowances, supply), a role registry with a per-role admin
//! hierarchy, and an ownership singleton.
//!
//! Every operation is a state transition on an explicit in-memory store.
//! Caller identity is passed in by the host; a failed operation returns an
//! error and leaves the state untouched.

pub mod access_control;
pub mod address;
pub mod erc20;
pub mod error;
pub mod keys;
pub mod ownable;
pub mod table;
pub mod uint;

pub use access_control::{AccessControl, AccessControlEvent, MemberKey};
pub use address::{Address, AddressKind};
pub use erc20::{AllowanceKey, ERC20Event, ERC20};
pub use error::Error;
pub use keys::key_to_str;
pub use ownable::{OwnableEvent, OwnableLib};
pub use uint::U256;
