use vstd::prelude::*;

verus! {

/// Every way an operation of the program can be refused.
#[derive(Debug, Clone, Copy, PartialEq, Eq, Structural)]
pub enum CrowdError {
    /// The instruction buffer is empty, has an unknown tag, or is malformed.
    InvalidInstruction,
    /// No such campaign exists.
    InvalidProject,
    /// The creator did not sign the instruction.
    IllegalCreator,
    /// The contributor did not sign the instruction.
    IllegalDonator,
    /// The escrow address is not the one derived from the owner and the name.
    UnexpectedBankAddress,
    /// The campaign-record address is not the one derived from the escrow.
    UnexpectedProjectAddress,
    /// The bump given with the instruction is not the derived one.
    UnexpectedBump,
    /// The campaign-record address already holds an account.
    ProjectAddressCollision,
    /// The escrow address already holds an account.
    BankAddressCollision,
    /// The campaign record does not fit in an account.
    LargeProjectInfo,
    /// The campaign record does not decode.
    CorruptedProjectData,
    /// The campaign has already been withdrawn.
    InactiveProject,
    /// The escrow account given is not the one the campaign records.
    BankAddressMismatch,
    /// The campaign-record account is not owned by the program.
    IllegalProjectAddressOwner,
    /// The withdrawer did not sign, or is not the campaign's owner.
    IllegalWithdrawer,
    /// The campaign has not raised its target yet.
    UnfulfilledMilestone,
    /// An instruction names fewer accounts than the operation needs.
    NotEnoughAccountKeys,
    /// A contribution would take the raised total past the largest amount.
    RaisedOverflow,
}

/// The numeric code under which an error is reported to the host.
pub open spec fn error_code(e: CrowdError) -> u32 {
    match e {
        CrowdError::InvalidInstruction => 0,
        CrowdError::InvalidProject => 1,
        CrowdError::IllegalCreator => 2,
        CrowdError::IllegalDonator => 3,
        CrowdError::UnexpectedBankAddress => 4,
        CrowdError::UnexpectedProjectAddress => 5,
        CrowdError::UnexpectedBump => 6,
        CrowdError::ProjectAddressCollision => 7,
        CrowdError::BankAddressCollision => 8,
        CrowdError::LargeProjectInfo => 9,
        CrowdError::CorruptedProjectData => 10,
        CrowdError::InactiveProject => 11,
        CrowdError::BankAddressMismatch => 12,
        CrowdError::IllegalProjectAddressOwner => 13,
        CrowdError::IllegalWithdrawer => 14,
        CrowdError::UnfulfilledMilestone => 15,
        CrowdError::NotEnoughAccountKeys => 16,
        CrowdError::RaisedOverflow => 17,
    }
}

impl CrowdError {
    /// The numeric code of this error, in declaration order from zero.
    pub fn code(&self) -> (r: u32)
        ensures
            r == error_code(*self),
    {
        match self {
            CrowdError::InvalidInstruction => 0,
            CrowdError::InvalidProject => 1,
            CrowdError::IllegalCreator => 2,
            CrowdError::IllegalDonator => 3,
            CrowdError::UnexpectedBankAddress => 4,
            CrowdError::UnexpectedProjectAddress => 5,
            CrowdError::UnexpectedBump => 6,
            CrowdError::ProjectAddressCollision => 7,
            CrowdError::BankAddressCollision => 8,
            CrowdError::LargeProjectInfo => 9,
            CrowdError::CorruptedProjectData => 10,
            CrowdError::InactiveProject => 11,
            CrowdError::BankAddressMismatch => 12,
            CrowdError::IllegalProjectAddressOwner => 13,
            CrowdError::IllegalWithdrawer => 14,
            CrowdError::UnfulfilledMilestone => 15,
            CrowdError::NotEnoughAccountKeys => 16,
            CrowdError::RaisedOverflow => 17,
        }
    }
}

} // verus!
