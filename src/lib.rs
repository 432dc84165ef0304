//! A crowdfunding ledger program: campaigns with a funding target, an escrow
//! account derived from the creator and the campaign name, contributions into
//! that escrow, and a single withdrawal by the creator once the target is met.
//!
//! Everything here is decision logic over plain values: the host ledger's
//! account creation and value transfers come out as actions for the caller
//! to carry out, and the campaign record as the bytes to store.

pub mod address;
pub mod codec;
pub mod error;
pub mod instruction;
pub mod ledger;
pub mod lifecycle;
pub mod processor;
pub mod state;

pub use address::{verify_bank_address, verify_pda, verify_project_address, Address};
pub use error::CrowdError;
pub use instruction::{ComplimentParams, CreateParams, Instruction};
pub use ledger::{AccountState, Effects, HostAction, Rent};
pub use processor::Processor;
pub use state::ProjectInfo;
