use crate::address::Address;
use vstd::prelude::*;

verus! {

/// What the program sees of an account that an instruction names.
#[derive(Debug)]
pub struct AccountState {
    pub key: Address,
    pub is_signer: bool,
    /// The program that owns the account.
    pub owner: Address,
    pub lamports: u64,
    pub data: Vec<u8>,
}

pub struct AccountView {
    pub key: Seq<u8>,
    pub is_signer: bool,
    pub owner: Seq<u8>,
    pub lamports: u64,
    pub data: Seq<u8>,
}

impl View for AccountState {
    type V = AccountView;

    open spec fn view(&self) -> AccountView {
        AccountView {
            key: self.key@,
            is_signer: self.is_signer,
            owner: self.owner@,
            lamports: self.lamports,
            data: self.data@,
        }
    }
}

/// The views of a list of accounts.
pub open spec fn accounts_view(a: Seq<AccountState>) -> Seq<AccountView> {
    a.map_values(|x: AccountState| x@)
}

/// Whether an account is already in use: it holds value or data.
pub open spec fn in_use(a: AccountView) -> bool {
    a.lamports > 0 || a.data.len() > 0
}

/// A request to the host ledger, carried out by the caller in order. Where
/// `seeds` is not empty, the program signs for the derived address with them.
#[derive(Debug)]
pub enum HostAction {
    /// Create `account`, funded by `payer`, with `space` bytes, owned by `owner`.
    CreateAccount {
        payer: Address,
        account: Address,
        lamports: u64,
        space: u64,
        owner: Address,
        seeds: Vec<Vec<u8>>,
    },
    /// Move `lamports` from `from` to `to`.
    Transfer { from: Address, to: Address, lamports: u64, seeds: Vec<Vec<u8>> },
}

pub enum ActionView {
    CreateAccount {
        payer: Seq<u8>,
        account: Seq<u8>,
        lamports: u64,
        space: u64,
        owner: Seq<u8>,
        seeds: Seq<Seq<u8>>,
    },
    Transfer { from: Seq<u8>, to: Seq<u8>, lamports: u64, seeds: Seq<Seq<u8>> },
}

impl View for HostAction {
    type V = ActionView;

    open spec fn view(&self) -> ActionView {
        match self {
            HostAction::CreateAccount { payer, account, lamports, space, owner, seeds } => {
                ActionView::CreateAccount {
                    payer: payer@,
                    account: account@,
                    lamports: *lamports,
                    space: *space,
                    owner: owner@,
                    seeds: seeds.deep_view(),
                }
            },
            HostAction::Transfer { from, to, lamports, seeds } => ActionView::Transfer {
                from: from@,
                to: to@,
                lamports: *lamports,
                seeds: seeds.deep_view(),
            },
        }
    }
}

/// What a successful operation asks of the host: the actions, in order, then
/// `record` written at the start of the data of the account `record_account`.
#[derive(Debug)]
pub struct Effects {
    pub actions: Vec<HostAction>,
    pub record_account: Address,
    pub record: Vec<u8>,
}

pub struct EffectsView {
    pub actions: Seq<ActionView>,
    pub record_account: Seq<u8>,
    pub record: Seq<u8>,
}

impl View for Effects {
    type V = EffectsView;

    open spec fn view(&self) -> EffectsView {
        EffectsView {
            actions: self.actions@.map_values(|a: HostAction| a@),
            record_account: self.record_account@,
            record: self.record@,
        }
    }
}

/// The storage overhead that the host adds to every account's data size.
pub const ACCOUNT_STORAGE_OVERHEAD: u64 = 128;

/// The economics of rent exemption: an account is exempt when it holds
/// `lamports_per_byte_year` for each byte, for `exemption_years` years.
#[derive(Debug, Clone, Copy, PartialEq, Eq, Structural)]
pub struct Rent {
    pub lamports_per_byte_year: u64,
    pub exemption_years: u64,
}

/// The smallest balance that keeps an account of `space` bytes exempt, if it
/// fits a `u64`.
pub open spec fn minimum_balance_of(rent: Rent, space: int) -> Option<u64> {
    let v = (ACCOUNT_STORAGE_OVERHEAD + space) * rent.lamports_per_byte_year * rent.exemption_years;
    if 0 <= space && v <= u64::MAX {
        Some(v as u64)
    } else {
        None
    }
}

impl Rent {
    /// The host's default economics: 3480 lamports per byte-year, two years.
    pub fn default_rent() -> (r: Rent)
        ensures
            r.lamports_per_byte_year == 3480,
            r.exemption_years == 2,
    {
        Rent { lamports_per_byte_year: 3480, exemption_years: 2 }
    }

    /// The smallest balance that keeps an account of `space` bytes exempt.
    pub fn minimum_balance(&self, space: u64) -> (r: Option<u64>)
        ensures
            r == minimum_balance_of(*self, space as int),
    {
        if self.lamports_per_byte_year == 0 || self.exemption_years == 0 {
            assert((ACCOUNT_STORAGE_OVERHEAD + space) * self.lamports_per_byte_year
                * self.exemption_years == 0) by (nonlinear_arith)
                requires
                    self.lamports_per_byte_year == 0 || self.exemption_years == 0,
            ;
            return Some(0);
        }
        let ghost total = (ACCOUNT_STORAGE_OVERHEAD + space) * self.lamports_per_byte_year
            * self.exemption_years;
        assert(total >= (ACCOUNT_STORAGE_OVERHEAD + space) * self.lamports_per_byte_year
            >= ACCOUNT_STORAGE_OVERHEAD + space) by (nonlinear_arith)
            requires
                self.lamports_per_byte_year >= 1,
                self.exemption_years >= 1,
                total == (ACCOUNT_STORAGE_OVERHEAD + space) * self.lamports_per_byte_year
                    * self.exemption_years,
                space >= 0,
        ;
        let size = match space.checked_add(ACCOUNT_STORAGE_OVERHEAD) {
            Some(s) => s,
            None => return None,
        };
        let per_year = match size.checked_mul(self.lamports_per_byte_year) {
            Some(v) => v,
            None => return None,
        };
        match per_year.checked_mul(self.exemption_years) {
            Some(v) => Some(v),
            None => None,
        }
    }
}

} // verus!
