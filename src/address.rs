use crate::codec::bytes_to_vec;
use crate::error::CrowdError;
use vstd::prelude::*;
use vstd::utf8::encode_utf8;

verus! {

/// A 32-byte account identity: a key, or an address derived from seeds.
#[derive(Debug, Clone, Copy)]
pub struct Address {
    pub bytes: [u8; 32],
}

impl View for Address {
    type V = Seq<u8>;

    open spec fn view(&self) -> Seq<u8> {
        self.bytes@
    }
}

impl PartialEq for Address {
    fn eq(&self, other: &Address) -> (r: bool)
        ensures
            r == (self@ == other@),
    {
        let mut i: usize = 0;
        while i < 32
            invariant
                0 <= i <= 32,
                forall|j: int| 0 <= j < i ==> self@[j] == other@[j],
            decreases 32 - i,
        {
            if self.bytes[i] != other.bytes[i] {
                return false;
            }
            i = i + 1;
        }
        assert(self@ =~= other@);
        true
    }
}

impl vstd::std_specs::cmp::PartialEqSpecImpl for Address {
    open spec fn obeys_eq_spec() -> bool {
        true
    }

    open spec fn eq_spec(&self, other: &Address) -> bool {
        self@ == other@
    }
}

impl Eq for Address {
}

impl Address {
    /// The address with the given bytes.
    pub fn new(bytes: [u8; 32]) -> (r: Address)
        ensures
            r@ == bytes@,
    {
        Address { bytes }
    }

    /// The bytes of the address, in order.
    pub fn to_vec(&self) -> (r: Vec<u8>)
        ensures
            r@ == self@,
    {
        let mut r: Vec<u8> = Vec::new();
        let mut i: usize = 0;
        while i < 32
            invariant
                0 <= i <= 32,
                r@ == self@.subrange(0, i as int),
            decreases 32 - i,
        {
            r.push(self.bytes[i]);
            i = i + 1;
        }
        assert(r@ =~= self@);
        r
    }
}

/// The address that the host ledger derives for a program and a list of seeds,
/// together with its bump, or `None` where the search finds none.
pub uninterp spec fn program_address(program: Seq<u8>, seeds: Seq<Seq<u8>>) -> Option<(Seq<u8>, u8)>;

/// Relies on solana_program's `Pubkey::try_find_program_address`: it searches
/// the bump from 255 downwards and returns the first address off the curve, so
/// its result depends on the seeds and the program identity alone.
#[verifier::external_body]
fn find_program_address(seeds: &Vec<Vec<u8>>, program_id: &Address) -> (r: Option<(Address, u8)>)
    ensures
        match r {
            Some((a, b)) => program_address(program_id@, seeds.deep_view()) == Some((a@, b)),
            None => program_address(program_id@, seeds.deep_view()) is None,
        },
{
    let slices: Vec<&[u8]> = seeds.iter().map(|s| s.as_slice()).collect();
    let program = solana_program::pubkey::Pubkey::new_from_array(program_id.bytes);
    solana_program::pubkey::Pubkey::try_find_program_address(&slices, &program).map(
        |(a, b)| (Address { bytes: a.to_bytes() }, b),
    )
}

/// What checking `candidate` against the derivation for `seeds` gives: the bump
/// where the derived address is the candidate, else the derived address, if any.
pub open spec fn pda_check(program: Seq<u8>, candidate: Seq<u8>, seeds: Seq<Seq<u8>>) -> Result<
    u8,
    Option<Seq<u8>>,
> {
    match program_address(program, seeds) {
        Some((a, b)) => if a == candidate {
            Ok(b)
        } else {
            Err(Some(a))
        },
        None => Err(None),
    }
}

/// The view of a check's result, with addresses as byte sequences.
pub open spec fn check_view(r: Result<u8, Option<Address>>) -> Result<u8, Option<Seq<u8>>> {
    match r {
        Ok(b) => Ok(b),
        Err(Some(a)) => Err(Some(a@)),
        Err(None) => Err(None),
    }
}

/// The seeds of a campaign's escrow: its owner and the bytes of its name.
pub open spec fn bank_seeds(owner: Seq<u8>, name: Seq<char>) -> Seq<Seq<u8>> {
    seq![owner, encode_utf8(name)]
}

/// The seeds of a campaign's record: its escrow address and the escrow's bump.
pub open spec fn project_seeds(bank: Seq<u8>, bank_bump: u8) -> Seq<Seq<u8>> {
    seq![bank, seq![bank_bump]]
}

/// Checks that `expected_address` is the address derived for `seeds`, and
/// returns its bump; else returns the derived address, if there is one.
pub fn verify_pda(program_id: &Address, expected_address: &Address, seeds: &Vec<Vec<u8>>) -> (r:
    Result<u8, Option<Address>>)
    ensures
        check_view(r) == pda_check(program_id@, expected_address@, seeds.deep_view()),
{
    match find_program_address(seeds, program_id) {
        Some((address, bump)) => {
            if address == *expected_address {
                Ok(bump)
            } else {
                Err(Some(address))
            }
        },
        None => Err(None),
    }
}

/// The escrow seeds as byte vectors.
pub fn make_bank_seeds(owner: &Address, name: &str) -> (r: Vec<Vec<u8>>)
    ensures
        r.deep_view() == bank_seeds(owner@, name@),
{
    let mut r: Vec<Vec<u8>> = Vec::new();
    r.push(owner.to_vec());
    r.push(bytes_to_vec(name.as_bytes()));
    assert(r@[0].deep_view() =~= owner@);
    assert(r@[1].deep_view() =~= encode_utf8(name@));
    assert(r.deep_view() =~= bank_seeds(owner@, name@));
    r
}

/// The campaign-record seeds as byte vectors.
pub fn make_project_seeds(bank: &Address, bank_bump: u8) -> (r: Vec<Vec<u8>>)
    ensures
        r.deep_view() == project_seeds(bank@, bank_bump),
{
    let mut r: Vec<Vec<u8>> = Vec::new();
    r.push(bank.to_vec());
    let mut bump: Vec<u8> = Vec::new();
    bump.push(bank_bump);
    r.push(bump);
    assert(r@[0].deep_view() =~= bank@);
    assert(r@[1].deep_view() =~= seq![bank_bump]);
    assert(r.deep_view() =~= project_seeds(bank@, bank_bump));
    r
}

/// Checks that `bank_address` is the escrow derived from the campaign's owner
/// and name, and returns the escrow's bump.
pub fn verify_bank_address(
    program_id: &Address,
    bank_address: &Address,
    project_name: &str,
    project_owner: &Address,
) -> (r: Result<u8, CrowdError>)
    ensures
        r == match pda_check(program_id@, bank_address@, bank_seeds(project_owner@, project_name@)) {
            Ok(b) => Ok(b),
            Err(_) => Err(CrowdError::UnexpectedBankAddress),
        },
{
    let seeds = make_bank_seeds(project_owner, project_name);
    match verify_pda(program_id, bank_address, &seeds) {
        Ok(b) => Ok(b),
        Err(_) => Err(CrowdError::UnexpectedBankAddress),
    }
}

/// Checks that `project_address` is the campaign record derived from the escrow
/// and its bump, and returns the record's bump.
pub fn verify_project_address(
    program_id: &Address,
    project_address: &Address,
    bank_address: &Address,
    bank_bump: u8,
) -> (r: Result<u8, CrowdError>)
    ensures
        r == match pda_check(program_id@, project_address@, project_seeds(bank_address@, bank_bump)) {
            Ok(b) => Ok(b),
            Err(_) => Err(CrowdError::UnexpectedProjectAddress),
        },
{
    let seeds = make_project_seeds(bank_address, bank_bump);
    match verify_pda(program_id, project_address, &seeds) {
        Ok(b) => Ok(b),
        Err(_) => Err(CrowdError::UnexpectedProjectAddress),
    }
}

/// Derivation is deterministic: two checks of one candidate against the same
/// program and seeds give the same result, and at most one candidate passes,
/// always with the same bump.
pub proof fn lemma_derivation_deterministic(
    program: Seq<u8>,
    seeds: Seq<Seq<u8>>,
    c1: Seq<u8>,
    c2: Seq<u8>,
    r1: Result<u8, Option<Address>>,
    r2: Result<u8, Option<Address>>,
)
    requires
        check_view(r1) == pda_check(program, c1, seeds),
        check_view(r2) == pda_check(program, c2, seeds),
    ensures
        c1 == c2 ==> check_view(r1) == check_view(r2),
        r1 is Ok && r2 is Ok ==> c1 == c2 && r1 == r2,
{
}

} // verus!
