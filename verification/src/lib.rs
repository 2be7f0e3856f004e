//! Settlement core of a two-asset constant-product exchange.
//!
//! The crate decides; it never talks to the ledger itself. An instruction is
//! decoded from bytes, its accounts are bound to their roles and validated, and
//! the outcome is an action that the host program carries out.

pub mod curve;
pub mod error;
pub mod instruction;
pub mod address;
pub mod processor;
pub mod ledger;

pub use crate::address::{Address, Reserve, WALLET_A_SEED, WALLET_B_SEED};
pub use crate::curve::{quote, SCALE};
pub use crate::error::SwapError;
pub use crate::instruction::SwapInstruction;
pub use crate::ledger::Ledger;
pub use crate::processor::{
    plan_provisioning, plan_swap, process_instruction, Account, Action, Creation, Direction,
    HostReply, Provisioning, ReserveAuthority, Settlement,
};
