use crowdfund::{AccountState, Address, CrowdError, Effects, HostAction, Processor, ProjectInfo, Rent};
use solana_program::pubkey::Pubkey;

const PROGRAM: [u8; 32] = [7; 32];
const SYSTEM: [u8; 32] = [0; 32];
const ALICE: [u8; 32] = [0xA1; 32];
const BOB: [u8; 32] = [0xB0; 32];

fn derive(seeds: &[&[u8]]) -> (Address, u8) {
    let (a, b) = Pubkey::find_program_address(seeds, &Pubkey::new_from_array(PROGRAM));
    (Address::new(a.to_bytes()), b)
}

fn campaign(owner: [u8; 32], name: &str) -> (Address, u8, Address, u8) {
    let (bank, bank_bump) = derive(&[&owner, name.as_bytes()]);
    let (project, project_bump) = derive(&[&bank.bytes, &[bank_bump]]);
    (bank, bank_bump, project, project_bump)
}

fn account(key: Address, is_signer: bool, owner: [u8; 32], lamports: u64, data: Vec<u8>) -> AccountState {
    AccountState { key, is_signer, owner: Address::new(owner), lamports, data }
}

fn open_instruction(target: u64, name: &str, bump: u8) -> Vec<u8> {
    let mut b = vec![0u8];
    b.extend_from_slice(&target.to_le_bytes());
    b.extend_from_slice(&(name.len() as u32).to_le_bytes());
    b.extend_from_slice(name.as_bytes());
    b.push(bump);
    b
}

fn contribute_instruction(amount: u64) -> Vec<u8> {
    let mut b = vec![1u8];
    b.extend_from_slice(&amount.to_le_bytes());
    b
}

fn processor() -> Processor {
    Processor::new(Rent::default_rent())
}

fn open_accounts(owner: [u8; 32], bank: Address, project: Address) -> Vec<AccountState> {
    vec![
        account(Address::new(SYSTEM), false, SYSTEM, 1, vec![]),
        account(Address::new(owner), true, SYSTEM, 1_000_000_000, vec![]),
        account(bank, false, SYSTEM, 0, vec![]),
        account(project, false, SYSTEM, 0, vec![]),
    ]
}

fn use_accounts(signer: [u8; 32], record: &[u8], bank: Address, project: Address, bank_lamports: u64) -> Vec<AccountState> {
    vec![
        account(Address::new(SYSTEM), false, SYSTEM, 1, vec![]),
        account(Address::new(signer), true, SYSTEM, 1_000_000_000, vec![]),
        account(project, false, PROGRAM, 1_000_000, record.to_vec()),
        account(bank, false, SYSTEM, bank_lamports, vec![]),
    ]
}

fn opened(name: &str, target: u64) -> (Address, Address, Vec<u8>) {
    let (bank, _, project, project_bump) = campaign(ALICE, name);
    let accounts = open_accounts(ALICE, bank, project);
    let fx = processor()
        .process(&Address::new(PROGRAM), &accounts, &open_instruction(target, name, project_bump))
        .unwrap();
    (bank, project, fx.record)
}

fn record_of(fx: &Effects) -> ProjectInfo {
    ProjectInfo::unpack(&fx.record).unwrap()
}

#[test]
fn open_campaign_creates_escrow_and_record() {
    let (bank, bank_bump, project, project_bump) = campaign(ALICE, "garden");
    let accounts = open_accounts(ALICE, bank, project);
    let fx = processor()
        .process(&Address::new(PROGRAM), &accounts, &open_instruction(100, "garden", project_bump))
        .unwrap();
    assert_eq!(fx.actions.len(), 2);
    match &fx.actions[0] {
        HostAction::CreateAccount { payer, account, lamports, space, owner, seeds } => {
            assert!(*payer == Address::new(ALICE));
            assert!(*account == bank);
            assert_eq!(*lamports, 890_880);
            assert_eq!(*space, 0);
            assert!(*owner == Address::new(SYSTEM));
            assert_eq!(seeds, &vec![ALICE.to_vec(), b"garden".to_vec(), vec![bank_bump]]);
        }
        other => panic!("unexpected action {:?}", other),
    }
    match &fx.actions[1] {
        HostAction::CreateAccount { account, lamports, space, owner, seeds, .. } => {
            assert!(*account == project);
            assert_eq!(*space, 91);
            assert_eq!(*lamports, (128 + 91) * 3480 * 2);
            assert!(*owner == Address::new(PROGRAM));
            assert_eq!(seeds, &vec![bank.bytes.to_vec(), vec![bank_bump], vec![project_bump]]);
        }
        other => panic!("unexpected action {:?}", other),
    }
    assert!(fx.record_account == project);
    let info = record_of(&fx);
    assert!(info.owner == Address::new(ALICE));
    assert!(info.bank == bank);
    assert_eq!(info.milestone, 100);
    assert_eq!(info.raised, 0);
    assert_eq!(info.name, "garden");
    assert!(!info.withdrawn);
    assert_eq!(info.size(), Some(91));
}

#[test]
fn garden_scenario() {
    let program = Address::new(PROGRAM);
    let (bank, project, record) = opened("garden", 100);
    let p = processor();

    let fx = p.process(&program, &use_accounts(BOB, &record, bank, project, 890_880), &contribute_instruction(40)).unwrap();
    assert_eq!(record_of(&fx).raised, 40);
    match &fx.actions[0] {
        HostAction::Transfer { from, to, lamports, seeds } => {
            assert!(*from == Address::new(BOB));
            assert!(*to == bank);
            assert_eq!(*lamports, 40);
            assert!(seeds.is_empty());
        }
        other => panic!("unexpected action {:?}", other),
    }
    let record = fx.record;

    let err = p.process(&program, &use_accounts(ALICE, &record, bank, project, 890_920), &[2]).unwrap_err();
    assert_eq!(err, CrowdError::UnfulfilledMilestone);

    let fx = p.process(&program, &use_accounts(BOB, &record, bank, project, 890_920), &contribute_instruction(60)).unwrap();
    assert_eq!(record_of(&fx).raised, 100);
    let record = fx.record;

    let fx = p.process(&program, &use_accounts(ALICE, &record, bank, project, 890_980), &[2]).unwrap();
    let info = record_of(&fx);
    assert!(info.withdrawn);
    assert_eq!(info.raised, 100);
    match &fx.actions[0] {
        HostAction::Transfer { from, to, lamports, seeds } => {
            assert!(*from == bank);
            assert!(*to == Address::new(ALICE));
            assert_eq!(*lamports, 890_980);
            assert_eq!(seeds.len(), 3);
        }
        other => panic!("unexpected action {:?}", other),
    }
    let record = fx.record;

    let err = p.process(&program, &use_accounts(ALICE, &record, bank, project, 0), &[2]).unwrap_err();
    assert_eq!(err, CrowdError::InactiveProject);
    let err = p.process(&program, &use_accounts(BOB, &record, bank, project, 0), &contribute_instruction(5)).unwrap_err();
    assert_eq!(err, CrowdError::InactiveProject);
}

#[test]
fn second_open_collides() {
    let program = Address::new(PROGRAM);
    let (bank, project, record) = opened("drive", 10);
    let (_, _, _, project_bump) = campaign(ALICE, "drive");
    let mut accounts = open_accounts(ALICE, bank, project);
    accounts[3].data = record.clone();
    let err = processor().process(&program, &accounts, &open_instruction(999, "drive", project_bump)).unwrap_err();
    assert_eq!(err, CrowdError::ProjectAddressCollision);
    accounts[2].lamports = 890_880;
    let err = processor().process(&program, &accounts, &open_instruction(5, "drive", project_bump)).unwrap_err();
    assert_eq!(err, CrowdError::BankAddressCollision);
}

#[test]
fn contributions_add_up() {
    let program = Address::new(PROGRAM);
    let (bank, project, mut record) = opened("fund", 1_000);
    let amounts = [3u64, 0, 17, 250, 1];
    let mut last = 0u64;
    for a in amounts {
        let fx = processor()
            .process(&program, &use_accounts(BOB, &record, bank, project, 1), &contribute_instruction(a))
            .unwrap();
        let raised = record_of(&fx).raised;
        assert!(raised >= last);
        last = raised;
        record = fx.record;
    }
    assert_eq!(last, 271);
}

#[test]
fn open_errors() {
    let program = Address::new(PROGRAM);
    let (bank, _, project, project_bump) = campaign(ALICE, "garden");
    let ix = open_instruction(100, "garden", project_bump);
    let p = processor();

    let mut accounts = open_accounts(ALICE, bank, project);
    accounts[1].is_signer = false;
    assert_eq!(p.process(&program, &accounts, &ix).unwrap_err(), CrowdError::IllegalCreator);

    let accounts = open_accounts(ALICE, project, project);
    assert_eq!(p.process(&program, &accounts, &ix).unwrap_err(), CrowdError::UnexpectedBankAddress);

    let accounts = open_accounts(ALICE, bank, bank);
    assert_eq!(p.process(&program, &accounts, &ix).unwrap_err(), CrowdError::UnexpectedProjectAddress);

    let accounts = open_accounts(ALICE, bank, project);
    let wrong = open_instruction(100, "garden", project_bump.wrapping_add(1));
    assert_eq!(p.process(&program, &accounts, &wrong).unwrap_err(), CrowdError::UnexpectedBump);

    let mut short = open_accounts(ALICE, bank, project);
    short.truncate(3);
    assert_eq!(p.process(&program, &short, &ix).unwrap_err(), CrowdError::NotEnoughAccountKeys);

    let costly = Processor::new(Rent { lamports_per_byte_year: u64::MAX, exemption_years: 2 });
    assert_eq!(costly.process(&program, &accounts, &ix).unwrap_err(), CrowdError::LargeProjectInfo);
}

#[test]
fn contribute_errors() {
    let program = Address::new(PROGRAM);
    let (bank, project, record) = opened("garden", 100);
    let p = processor();
    let ix = contribute_instruction(1);

    let mut accounts = use_accounts(BOB, &record, bank, project, 1);
    accounts[1].is_signer = false;
    assert_eq!(p.process(&program, &accounts, &ix).unwrap_err(), CrowdError::IllegalDonator);

    let mut accounts = use_accounts(BOB, &record, bank, project, 1);
    accounts[2].owner = Address::new(SYSTEM);
    assert_eq!(p.process(&program, &accounts, &ix).unwrap_err(), CrowdError::IllegalProjectAddressOwner);

    let accounts = use_accounts(BOB, &record[..50], bank, project, 1);
    assert_eq!(p.process(&program, &accounts, &ix).unwrap_err(), CrowdError::CorruptedProjectData);

    let accounts = use_accounts(BOB, &record, project, project, 1);
    assert_eq!(p.process(&program, &accounts, &ix).unwrap_err(), CrowdError::BankAddressMismatch);

    let accounts = use_accounts(BOB, &record, bank, project, 1);
    let fx = p.process(&program, &accounts, &contribute_instruction(u64::MAX)).unwrap();
    let accounts = use_accounts(BOB, &fx.record, bank, project, 1);
    assert_eq!(p.process(&program, &accounts, &ix).unwrap_err(), CrowdError::RaisedOverflow);
}

#[test]
fn withdraw_errors() {
    let program = Address::new(PROGRAM);
    let (bank, project, record) = opened("garden", 0);
    let p = processor();

    let mut accounts = use_accounts(ALICE, &record, bank, project, 1);
    accounts[1].is_signer = false;
    assert_eq!(p.process(&program, &accounts, &[2]).unwrap_err(), CrowdError::IllegalWithdrawer);

    let accounts = use_accounts(BOB, &record, bank, project, 1);
    assert_eq!(p.process(&program, &accounts, &[2]).unwrap_err(), CrowdError::IllegalWithdrawer);

    let accounts = use_accounts(ALICE, &record, project, project, 1);
    assert_eq!(p.process(&program, &accounts, &[2]).unwrap_err(), CrowdError::UnexpectedBankAddress);

    let mut bad = record.clone();
    let last = bad.len() - 1;
    bad[last] = 2;
    let accounts = use_accounts(ALICE, &bad, bank, project, 1);
    assert_eq!(p.process(&program, &accounts, &[2]).unwrap_err(), CrowdError::CorruptedProjectData);

    let accounts = use_accounts(ALICE, &record, bank, project, 1);
    assert!(p.process(&program, &accounts, &[2]).is_ok());
}

#[test]
fn error_codes_follow_declaration_order() {
    assert_eq!(CrowdError::InvalidInstruction.code(), 0);
    assert_eq!(CrowdError::UnexpectedBump.code(), 6);
    assert_eq!(CrowdError::CorruptedProjectData.code(), 10);
    assert_eq!(CrowdError::UnfulfilledMilestone.code(), 15);
    assert_eq!(CrowdError::RaisedOverflow.code(), 17);
}

#[test]
fn minimum_balance_values() {
    let rent = Rent::default_rent();
    assert_eq!(rent.minimum_balance(0), Some(890_880));
    assert_eq!(rent.minimum_balance(91), Some(1_524_240));
    assert_eq!(rent.minimum_balance(u64::MAX), None);
    let free = Rent { lamports_per_byte_year: 0, exemption_years: 2 };
    assert_eq!(free.minimum_balance(u64::MAX), Some(0));
}
