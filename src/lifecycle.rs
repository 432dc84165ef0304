use crate::address::{bank_seeds, pda_check};
use crate::error::CrowdError;
use crate::ledger::{in_use, AccountView, EffectsView, Rent};
use crate::processor::{contribute_outcome, new_record, open_outcome, withdraw_outcome};
use crate::state::{decode_record, encode_record, lemma_record_round_trip, record_encodable, ProjectView};
use vstd::prelude::*;

verus! {

broadcast use vstd::utf8::decode_utf8_encode_utf8;

/// The accounts after the host wrote `data` into the account at `i`.
pub open spec fn set_data(accounts: Seq<AccountView>, i: int, data: Seq<u8>) -> Seq<AccountView> {
    accounts.update(i, AccountView { data, ..accounts[i] })
}

/// The accounts after a run of contributions, each carried out on the record
/// that the one before wrote; the first error stops the run.
pub open spec fn contribute_all(program: Seq<u8>, amounts: Seq<u64>, accounts: Seq<AccountView>) -> Result<
    Seq<AccountView>,
    CrowdError,
>
    decreases amounts.len(),
{
    if amounts.len() == 0 {
        Ok(accounts)
    } else {
        match contribute_outcome(program, amounts[0], accounts) {
            Err(e) => Err(e),
            Ok(fx) => contribute_all(program, amounts.drop_first(), set_data(accounts, 2, fx.record)),
        }
    }
}

/// The sum of a list of amounts.
pub open spec fn total(amounts: Seq<u64>) -> int
    decreases amounts.len(),
{
    if amounts.len() == 0 {
        0
    } else {
        amounts[0] + total(amounts.drop_first())
    }
}

/// A decoded record can be stored again.
proof fn lemma_decoded_encodable(d: Seq<u8>)
    requires
        decode_record(d) is Ok,
    ensures
        record_encodable(decode_record(d)->Ok_0),
{
}

/// Once an opening has succeeded and its record has been written, opening the
/// same owner's campaign of the same name again fails with a collision,
/// whatever its target.
pub proof fn lemma_no_double_open(
    rent: Rent,
    program: Seq<u8>,
    target: u64,
    name: Seq<char>,
    expected_bump: u8,
    accounts: Seq<AccountView>,
    target2: u64,
    accounts2: Seq<AccountView>,
)
    requires
        open_outcome(rent, program, target, name, expected_bump, accounts) is Ok,
        accounts2.len() >= 4,
        accounts2[1].key == accounts[1].key,
        accounts2[1].is_signer,
        accounts2[2].key == accounts[2].key,
        accounts2[3].key == accounts[3].key,
        accounts2[3].data == open_outcome(rent, program, target, name, expected_bump, accounts)->Ok_0.record,
    ensures
        open_outcome(rent, program, target2, name, expected_bump, accounts2) == Err::<
            EffectsView,
            CrowdError,
        >(CrowdError::BankAddressCollision) || open_outcome(
            rent,
            program,
            target2,
            name,
            expected_bump,
            accounts2,
        ) == Err::<EffectsView, CrowdError>(CrowdError::ProjectAddressCollision),
{
    let info = new_record(accounts[1].key, accounts[2].key, target, name);
    assert(encode_record(info).len() > 0);
    assert(in_use(accounts2[3]));
}

/// A run of contributions that all succeed adds exactly their sum to the
/// raised total and changes nothing else in the record; the total never
/// goes down.
pub proof fn lemma_monotonic_funding(program: Seq<u8>, amounts: Seq<u64>, accounts: Seq<AccountView>)
    requires
        accounts.len() >= 4,
        decode_record(accounts[2].data) is Ok,
        contribute_all(program, amounts, accounts) is Ok,
    ensures
        ({
            let before = decode_record(accounts[2].data)->Ok_0;
            let after = contribute_all(program, amounts, accounts)->Ok_0;
            &&& after.len() == accounts.len()
            &&& decode_record(after[2].data) is Ok
            &&& decode_record(after[2].data)->Ok_0.raised == before.raised + total(amounts)
            &&& decode_record(after[2].data)->Ok_0.raised >= before.raised
            &&& decode_record(after[2].data)->Ok_0 == (ProjectView {
                raised: decode_record(after[2].data)->Ok_0.raised,
                ..before
            })
        }),
    decreases amounts.len(),
{
    if amounts.len() > 0 {
        let fx = contribute_outcome(program, amounts[0], accounts)->Ok_0;
        let info = decode_record(accounts[2].data)->Ok_0;
        let next = ProjectView { raised: (info.raised + amounts[0]) as u64, ..info };
        lemma_decoded_encodable(accounts[2].data);
        lemma_record_round_trip(next);
        let accounts1 = set_data(accounts, 2, fx.record);
        assert(accounts1[2].data == encode_record(next));
        lemma_monotonic_funding(program, amounts.drop_first(), accounts1);
    }
}

/// Withdrawal by the owner, with the campaign's escrow: it fails as
/// unfulfilled while the target is not raised; once it is, it succeeds exactly
/// when the campaign was not withdrawn (and the escrow is the derived one),
/// and on the record it writes every later withdrawal or contribution fails
/// as inactive.
pub proof fn lemma_withdrawal_gating(program: Seq<u8>, accounts: Seq<AccountView>, amount: u64)
    requires
        accounts.len() >= 4,
        decode_record(accounts[2].data) is Ok,
        accounts[1].is_signer,
        accounts[1].key == decode_record(accounts[2].data)->Ok_0.owner,
        accounts[3].key == decode_record(accounts[2].data)->Ok_0.bank,
    ensures
        ({
            let p = decode_record(accounts[2].data)->Ok_0;
            &&& p.raised < p.milestone ==> withdraw_outcome(program, accounts) == Err::<
                EffectsView,
                CrowdError,
            >(CrowdError::UnfulfilledMilestone)
            &&& p.raised >= p.milestone && p.withdrawn ==> withdraw_outcome(program, accounts)
                == Err::<EffectsView, CrowdError>(CrowdError::InactiveProject)
            &&& p.raised >= p.milestone && !p.withdrawn ==> (withdraw_outcome(program, accounts) is Ok
                <==> pda_check(program, p.bank, bank_seeds(p.owner, p.name)) is Ok)
            &&& withdraw_outcome(program, accounts) is Ok ==> {
                let after = set_data(accounts, 2, withdraw_outcome(program, accounts)->Ok_0.record);
                &&& decode_record(after[2].data) == Ok::<ProjectView, CrowdError>(
                    ProjectView { withdrawn: true, ..p },
                )
                &&& withdraw_outcome(program, after) == Err::<
                    EffectsView,
                    CrowdError,
                >(CrowdError::InactiveProject)
                &&& after[2].owner == program ==> contribute_outcome(program, amount, after)
                    == Err::<EffectsView, CrowdError>(CrowdError::InactiveProject)
            }
        }),
{
    let p = decode_record(accounts[2].data)->Ok_0;
    if withdraw_outcome(program, accounts) is Ok {
        let done = ProjectView { withdrawn: true, ..p };
        lemma_decoded_encodable(accounts[2].data);
        lemma_record_round_trip(done);
        let after = set_data(accounts, 2, withdraw_outcome(program, accounts)->Ok_0.record);
        assert(after[2].data == encode_record(done));
        assert(after[1] == accounts[1] && after[3] == accounts[3]);
    }
}

} // verus!
