use crate::address::{
    bank_seeds, make_bank_seeds, make_project_seeds, pda_check, project_seeds,
    verify_bank_address, verify_project_address, Address,
};
use crate::error::CrowdError;
use crate::instruction::{
    decode_instruction, ComplimentParams, CreateParams, Instruction, InstructionView,
};
use crate::ledger::{
    accounts_view, in_use, minimum_balance_of, AccountState, AccountView, ActionView, Effects,
    EffectsView, HostAction, Rent,
};
use crate::state::{decode_record, encode_record, record_len, ProjectInfo, ProjectView};
use vstd::prelude::*;
use vstd::utf8::encode_utf8;

verus! {

broadcast use vstd::utf8::decode_utf8_encode_utf8;

/// Runs the program's operations against a fixed rent economics.
pub struct Processor {
    pub rent: Rent,
}

/// The seeds of a derived address followed by its bump, as signed with.
pub open spec fn signer_seeds(seeds: Seq<Seq<u8>>, bump: u8) -> Seq<Seq<u8>> {
    seeds.push(seq![bump])
}

/// The record of a newly opened campaign.
pub open spec fn new_record(owner: Seq<u8>, bank: Seq<u8>, target: u64, name: Seq<char>) -> ProjectView {
    ProjectView { bank, owner, milestone: target, raised: 0, name, withdrawn: false }
}

/// Opening a campaign. Accounts: host service, creator, escrow, record.
pub open spec fn open_outcome(
    rent: Rent,
    program: Seq<u8>,
    target: u64,
    name: Seq<char>,
    expected_bump: u8,
    accounts: Seq<AccountView>,
) -> Result<EffectsView, CrowdError> {
    if accounts.len() < 4 {
        Err(CrowdError::NotEnoughAccountKeys)
    } else {
        let system = accounts[0];
        let creator = accounts[1];
        let bank = accounts[2];
        let project = accounts[3];
        if !creator.is_signer {
            Err(CrowdError::IllegalCreator)
        } else {
            match pda_check(program, bank.key, bank_seeds(creator.key, name)) {
                Err(_) => Err(CrowdError::UnexpectedBankAddress),
                Ok(bank_bump) => match pda_check(
                    program,
                    project.key,
                    project_seeds(bank.key, bank_bump),
                ) {
                    Err(_) => Err(CrowdError::UnexpectedProjectAddress),
                    Ok(project_bump) => {
                        let info = new_record(creator.key, bank.key, target, name);
                        if project_bump != expected_bump {
                            Err(CrowdError::UnexpectedBump)
                        } else if in_use(bank) {
                            Err(CrowdError::BankAddressCollision)
                        } else if in_use(project) {
                            Err(CrowdError::ProjectAddressCollision)
                        } else if encode_utf8(name).len() > u32::MAX {
                            Err(CrowdError::LargeProjectInfo)
                        } else {
                            match (
                                minimum_balance_of(rent, 0),
                                minimum_balance_of(rent, record_len(info)),
                            ) {
                                (Some(bank_lamports), Some(project_lamports)) => Ok(
                                    EffectsView {
                                        actions: seq![
                                            ActionView::CreateAccount {
                                                payer: creator.key,
                                                account: bank.key,
                                                lamports: bank_lamports,
                                                space: 0,
                                                owner: system.key,
                                                seeds: signer_seeds(
                                                    bank_seeds(creator.key, name),
                                                    bank_bump,
                                                ),
                                            },
                                            ActionView::CreateAccount {
                                                payer: creator.key,
                                                account: project.key,
                                                lamports: project_lamports,
                                                space: record_len(info) as u64,
                                                owner: program,
                                                seeds: signer_seeds(
                                                    project_seeds(bank.key, bank_bump),
                                                    project_bump,
                                                ),
                                            },
                                        ],
                                        record_account: project.key,
                                        record: encode_record(info),
                                    },
                                ),
                                _ => Err(CrowdError::LargeProjectInfo),
                            }
                        }
                    },
                },
            }
        }
    }
}

/// Contributing `amount`. Accounts: host service, contributor, record, escrow.
pub open spec fn contribute_outcome(program: Seq<u8>, amount: u64, accounts: Seq<AccountView>) -> Result<
    EffectsView,
    CrowdError,
> {
    if accounts.len() < 4 {
        Err(CrowdError::NotEnoughAccountKeys)
    } else {
        let donor = accounts[1];
        let project = accounts[2];
        let bank = accounts[3];
        if !donor.is_signer {
            Err(CrowdError::IllegalDonator)
        } else if project.owner != program {
            Err(CrowdError::IllegalProjectAddressOwner)
        } else {
            match decode_record(project.data) {
                Err(_) => Err(CrowdError::CorruptedProjectData),
                Ok(info) => if info.withdrawn {
                    Err(CrowdError::InactiveProject)
                } else if bank.key != info.bank {
                    Err(CrowdError::BankAddressMismatch)
                } else if info.raised + amount > u64::MAX {
                    Err(CrowdError::RaisedOverflow)
                } else {
                    Ok(
                        EffectsView {
                            actions: seq![
                                ActionView::Transfer {
                                    from: donor.key,
                                    to: info.bank,
                                    lamports: amount,
                                    seeds: seq![],
                                },
                            ],
                            record_account: project.key,
                            record: encode_record(
                                ProjectView { raised: (info.raised + amount) as u64, ..info },
                            ),
                        },
                    )
                },
            }
        }
    }
}

/// Withdrawing the escrow. Accounts: host service, withdrawer, record, escrow.
pub open spec fn withdraw_outcome(program: Seq<u8>, accounts: Seq<AccountView>) -> Result<
    EffectsView,
    CrowdError,
> {
    if accounts.len() < 4 {
        Err(CrowdError::NotEnoughAccountKeys)
    } else {
        let withdrawer = accounts[1];
        let project = accounts[2];
        let bank = accounts[3];
        if !withdrawer.is_signer {
            Err(CrowdError::IllegalWithdrawer)
        } else {
            match decode_record(project.data) {
                Err(_) => Err(CrowdError::CorruptedProjectData),
                Ok(info) => if withdrawer.key != info.owner {
                    Err(CrowdError::IllegalWithdrawer)
                } else if bank.key != info.bank {
                    Err(CrowdError::UnexpectedBankAddress)
                } else if info.raised < info.milestone {
                    Err(CrowdError::UnfulfilledMilestone)
                } else if info.withdrawn {
                    Err(CrowdError::InactiveProject)
                } else {
                    match pda_check(program, bank.key, bank_seeds(info.owner, info.name)) {
                        Err(_) => Err(CrowdError::UnexpectedBankAddress),
                        Ok(bank_bump) => Ok(
                            EffectsView {
                                actions: seq![
                                    ActionView::Transfer {
                                        from: info.bank,
                                        to: info.owner,
                                        lamports: bank.lamports,
                                        seeds: signer_seeds(
                                            bank_seeds(info.owner, info.name),
                                            bank_bump,
                                        ),
                                    },
                                ],
                                record_account: project.key,
                                record: encode_record(ProjectView { withdrawn: true, ..info }),
                            },
                        ),
                    }
                },
            }
        }
    }
}

/// What an instruction buffer does: it is decoded, then carried out.
pub open spec fn process_outcome(
    rent: Rent,
    program: Seq<u8>,
    accounts: Seq<AccountView>,
    instructions: Seq<u8>,
) -> Result<EffectsView, CrowdError> {
    match decode_instruction(instructions) {
        Err(e) => Err(e),
        Ok(InstructionView::Create { target, name, project_bump }) => open_outcome(
            rent,
            program,
            target,
            name,
            project_bump,
            accounts,
        ),
        Ok(InstructionView::Compliment { amount }) => contribute_outcome(program, amount, accounts),
        Ok(InstructionView::Withdraw) => withdraw_outcome(program, accounts),
    }
}

/// The view of an operation's result.
pub open spec fn effects_result_view(r: Result<Effects, CrowdError>) -> Result<EffectsView, CrowdError> {
    match r {
        Ok(e) => Ok(e@),
        Err(e) => Err(e),
    }
}

/// Appends the bump to a list of seeds.
fn with_bump(seeds: Vec<Vec<u8>>, bump: u8) -> (r: Vec<Vec<u8>>)
    ensures
        r.deep_view() == signer_seeds(seeds.deep_view(), bump),
{
    let mut r = seeds;
    let mut b: Vec<u8> = Vec::new();
    b.push(bump);
    r.push(b);
    assert(r@[r@.len() - 1].deep_view() =~= seq![bump]);
    assert(r.deep_view() =~= signer_seeds(seeds.deep_view(), bump));
    r
}

impl Processor {
    /// A processor that funds new accounts according to `rent`.
    pub fn new(rent: Rent) -> (r: Processor)
        ensures
            r.rent == rent,
    {
        Processor { rent }
    }

    /// Decodes an instruction and carries it out; returns what the host is
    /// to do, or the error that refuses the whole instruction.
    pub fn process(
        &self,
        program_id: &Address,
        account_info: &Vec<AccountState>,
        instructions: &[u8],
    ) -> (r: Result<Effects, CrowdError>)
        ensures
            effects_result_view(r) == process_outcome(
                self.rent,
                program_id@,
                accounts_view(account_info@),
                instructions@,
            ),
    {
        match Instruction::unpack(instructions) {
            Err(e) => Err(e),
            Ok(Instruction::Create { params }) => self.create_project(params, program_id, account_info),
            Ok(Instruction::Compliment { params }) => self.compliment_project(
                params,
                program_id,
                account_info,
            ),
            Ok(Instruction::Withdraw) => self.withdraw_funds(program_id, account_info),
        }
    }

    /// Opens a campaign: checks the creator's signature and both derived
    /// addresses, then asks for the escrow and the record to be created.
    pub fn create_project(
        &self,
        params: CreateParams,
        program_id: &Address,
        account_info: &Vec<AccountState>,
    ) -> (r: Result<Effects, CrowdError>)
        ensures
            effects_result_view(r) == open_outcome(
                self.rent,
                program_id@,
                params.target,
                params.name@,
                params.project_bump,
                accounts_view(account_info@),
            ),
    {
        let ghost accounts = accounts_view(account_info@);
        if account_info.len() < 4 {
            return Err(CrowdError::NotEnoughAccountKeys);
        }
        let system_account = &account_info[0];
        let creator = &account_info[1];
        let bank = &account_info[2];
        let project = &account_info[3];
        assert(accounts[0] == system_account@ && accounts[1] == creator@ && accounts[2] == bank@
            && accounts[3] == project@);
        if !creator.is_signer {
            return Err(CrowdError::IllegalCreator);
        }
        let bank_bump = match verify_bank_address(
            program_id,
            &bank.key,
            params.name.as_str(),
            &creator.key,
        ) {
            Ok(b) => b,
            Err(e) => return Err(e),
        };
        let project_bump = match verify_project_address(
            program_id,
            &project.key,
            &bank.key,
            bank_bump,
        ) {
            Ok(b) => b,
            Err(e) => return Err(e),
        };
        if project_bump != params.project_bump {
            return Err(CrowdError::UnexpectedBump);
        }
        if bank.lamports > 0 || bank.data.len() > 0 {
            return Err(CrowdError::BankAddressCollision);
        }
        if project.lamports > 0 || project.data.len() > 0 {
            return Err(CrowdError::ProjectAddressCollision);
        }
        if params.name.as_str().as_bytes().len() as u64 > 0xffff_ffffu64 {
            return Err(CrowdError::LargeProjectInfo);
        }
        let bank_seed = make_bank_seeds(&creator.key, params.name.as_str());
        let project_seed = make_project_seeds(&bank.key, bank_bump);
        let project_info = ProjectInfo {
            bank: bank.key,
            owner: creator.key,
            milestone: params.target,
            raised: 0,
            name: params.name,
            withdrawn: false,
        };
        assert(project_info@ == new_record(
            creator.key@,
            bank.key@,
            params.target,
            params.name@,
        ));
        let space = match project_info.size() {
            Some(s) => s,
            None => return Err(CrowdError::LargeProjectInfo),
        };
        let bank_lamports = match self.rent.minimum_balance(0) {
            Some(l) => l,
            None => return Err(CrowdError::LargeProjectInfo),
        };
        let project_lamports = match self.rent.minimum_balance(space) {
            Some(l) => l,
            None => return Err(CrowdError::LargeProjectInfo),
        };
        let record = project_info.pack();
        let mut actions: Vec<HostAction> = Vec::new();
        actions.push(
            HostAction::CreateAccount {
                payer: creator.key,
                account: bank.key,
                lamports: bank_lamports,
                space: 0,
                owner: system_account.key,
                seeds: with_bump(bank_seed, bank_bump),
            },
        );
        actions.push(
            HostAction::CreateAccount {
                payer: creator.key,
                account: project.key,
                lamports: project_lamports,
                space,
                owner: *program_id,
                seeds: with_bump(project_seed, project_bump),
            },
        );
        let r = Effects { actions, record_account: project.key, record };
        assert(r@.actions =~= open_outcome(
            self.rent,
            program_id@,
            params.target,
            params.name@,
            params.project_bump,
            accounts,
        )->Ok_0.actions);
        Ok(r)
    }

    /// Contributes to a campaign: checks the contributor's signature, the
    /// record's owner and contents and the escrow, then asks for the transfer
    /// and records the new total.
    pub fn compliment_project(
        &self,
        params: ComplimentParams,
        program_id: &Address,
        account_info: &Vec<AccountState>,
    ) -> (r: Result<Effects, CrowdError>)
        ensures
            effects_result_view(r) == contribute_outcome(
                program_id@,
                params.amount,
                accounts_view(account_info@),
            ),
    {
        let ghost accounts = accounts_view(account_info@);
        if account_info.len() < 4 {
            return Err(CrowdError::NotEnoughAccountKeys);
        }
        let creditor = &account_info[1];
        let project = &account_info[2];
        let bank = &account_info[3];
        assert(accounts[1] == creditor@ && accounts[2] == project@ && accounts[3] == bank@);
        if !creditor.is_signer {
            return Err(CrowdError::IllegalDonator);
        }
        if project.owner != *program_id {
            return Err(CrowdError::IllegalProjectAddressOwner);
        }
        let mut project_info = match ProjectInfo::unpack(project.data.as_slice()) {
            Ok(p) => p,
            Err(_) => return Err(CrowdError::CorruptedProjectData),
        };
        if project_info.withdrawn {
            return Err(CrowdError::InactiveProject);
        }
        if bank.key != project_info.bank {
            return Err(CrowdError::BankAddressMismatch);
        }
        project_info.raised = match project_info.raised.checked_add(params.amount) {
            Some(v) => v,
            None => return Err(CrowdError::RaisedOverflow),
        };
        let no_seeds: Vec<Vec<u8>> = Vec::new();
        assert(no_seeds.deep_view() =~= Seq::<Seq<u8>>::empty());
        let mut actions: Vec<HostAction> = Vec::new();
        actions.push(
            HostAction::Transfer {
                from: creditor.key,
                to: project_info.bank,
                lamports: params.amount,
                seeds: no_seeds,
            },
        );
        let record = project_info.pack();
        let r = Effects { actions, record_account: project.key, record };
        assert(r@.actions =~= contribute_outcome(program_id@, params.amount, accounts)->Ok_0.actions);
        Ok(r)
    }

    /// Withdraws a funded campaign: checks that its owner signed, the escrow,
    /// the target and that it was not withdrawn before, then asks for the
    /// escrow's whole balance to go to the owner and marks it withdrawn.
    pub fn withdraw_funds(&self, program_id: &Address, account_info: &Vec<AccountState>) -> (r:
        Result<Effects, CrowdError>)
        ensures
            effects_result_view(r) == withdraw_outcome(program_id@, accounts_view(account_info@)),
    {
        let ghost accounts = accounts_view(account_info@);
        if account_info.len() < 4 {
            return Err(CrowdError::NotEnoughAccountKeys);
        }
        let withdrawer = &account_info[1];
        let project = &account_info[2];
        let bank = &account_info[3];
        assert(accounts[1] == withdrawer@ && accounts[2] == project@ && accounts[3] == bank@);
        if !withdrawer.is_signer {
            return Err(CrowdError::IllegalWithdrawer);
        }
        let mut project_info = match ProjectInfo::unpack(project.data.as_slice()) {
            Ok(p) => p,
            Err(_) => return Err(CrowdError::CorruptedProjectData),
        };
        if withdrawer.key != project_info.owner {
            return Err(CrowdError::IllegalWithdrawer);
        }
        if bank.key != project_info.bank {
            return Err(CrowdError::UnexpectedBankAddress);
        }
        if project_info.raised < project_info.milestone {
            return Err(CrowdError::UnfulfilledMilestone);
        }
        if project_info.withdrawn {
            return Err(CrowdError::InactiveProject);
        }
        let bank_bump = match verify_bank_address(
            program_id,
            &bank.key,
            project_info.name.as_str(),
            &project_info.owner,
        ) {
            Ok(b) => b,
            Err(e) => return Err(e),
        };
        let bank_seed = make_bank_seeds(&project_info.owner, project_info.name.as_str());
        let mut actions: Vec<HostAction> = Vec::new();
        actions.push(
            HostAction::Transfer {
                from: project_info.bank,
                to: project_info.owner,
                lamports: bank.lamports,
                seeds: with_bump(bank_seed, bank_bump),
            },
        );
        project_info.withdrawn = true;
        let record = project_info.pack();
        let r = Effects { actions, record_account: project.key, record };
        assert(r@.actions =~= withdraw_outcome(program_id@, accounts)->Ok_0.actions);
        Ok(r)
    }
}

} // verus!
