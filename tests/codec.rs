use crowdfund::{verify_bank_address, verify_pda, verify_project_address, Address, ComplimentParams, CreateParams, CrowdError, Instruction, ProjectInfo};
use solana_program::pubkey::Pubkey;

const PROGRAM: [u8; 32] = [7; 32];

fn cat_buffer() -> Vec<u8> {
    let mut b = vec![0u8];
    b.extend_from_slice(&5u64.to_le_bytes());
    b.extend_from_slice(&3u32.to_le_bytes());
    b.extend_from_slice(b"cat");
    b.push(7);
    b
}

#[test]
fn decode_open_campaign() {
    match Instruction::unpack(&cat_buffer()).unwrap() {
        Instruction::Create { params } => {
            assert_eq!(params.target, 5);
            assert_eq!(params.name, "cat");
            assert_eq!(params.project_bump, 7);
        }
        other => panic!("unexpected {:?}", other),
    }
}

#[test]
fn truncated_buffers_fail() {
    let b = cat_buffer();
    for k in 0..b.len() {
        assert_eq!(Instruction::unpack(&b[..k]).unwrap_err(), CrowdError::InvalidInstruction);
    }
    let c = [1u8, 1, 2, 3, 4, 5, 6, 7, 8];
    for k in 0..c.len() {
        assert_eq!(Instruction::unpack(&c[..k]).unwrap_err(), CrowdError::InvalidInstruction);
    }
}

#[test]
fn decode_contribute_and_withdraw() {
    match Instruction::unpack(&[1, 0x2c, 0x01, 0, 0, 0, 0, 0, 0]).unwrap() {
        Instruction::Compliment { params } => assert_eq!(params, ComplimentParams { amount: 300 }),
        other => panic!("unexpected {:?}", other),
    }
    assert!(matches!(Instruction::unpack(&[2]).unwrap(), Instruction::Withdraw));
}

#[test]
fn decode_rejects_bad_input() {
    assert_eq!(Instruction::unpack(&[]).unwrap_err(), CrowdError::InvalidInstruction);
    assert_eq!(Instruction::unpack(&[3, 0, 0]).unwrap_err(), CrowdError::InvalidInstruction);
    let mut b = vec![0u8];
    b.extend_from_slice(&5u64.to_le_bytes());
    b.extend_from_slice(&2u32.to_le_bytes());
    b.extend_from_slice(&[0xff, 0xfe]);
    b.push(7);
    assert_eq!(Instruction::unpack(&b).unwrap_err(), CrowdError::InvalidInstruction);
    let mut long = vec![0u8];
    long.extend_from_slice(&5u64.to_le_bytes());
    long.extend_from_slice(&u32::MAX.to_le_bytes());
    long.extend_from_slice(b"cat");
    assert_eq!(Instruction::unpack(&long).unwrap_err(), CrowdError::InvalidInstruction);
}

#[test]
fn instruction_round_trip() {
    let create = Instruction::Create { params: CreateParams { target: 123_456_789_012, name: "héllo wörld".to_string(), project_bump: 254 } };
    match Instruction::unpack(&create.pack()).unwrap() {
        Instruction::Create { params } => {
            assert_eq!(params.target, 123_456_789_012);
            assert_eq!(params.name, "héllo wörld");
            assert_eq!(params.project_bump, 254);
        }
        other => panic!("unexpected {:?}", other),
    }
    let give = Instruction::Compliment { params: ComplimentParams { amount: u64::MAX - 1 } };
    assert_eq!(give.pack(), vec![1, 0xfe, 0xff, 0xff, 0xff, 0xff, 0xff, 0xff, 0xff]);
    match Instruction::unpack(&give.pack()).unwrap() {
        Instruction::Compliment { params } => assert_eq!(params.amount, u64::MAX - 1),
        other => panic!("unexpected {:?}", other),
    }
    assert_eq!(Instruction::Withdraw.pack(), vec![2]);
    let cat = Instruction::Create { params: CreateParams { target: 5, name: "cat".to_string(), project_bump: 7 } };
    assert_eq!(cat.pack(), cat_buffer());
}

#[test]
fn decode_program_info() {
    let bytes: &'static [u8] = &[
        239, 235, 154, 51, 49, 12, 176, 239, 99, 184, 111, 48, 121, 138, 50, 89, 245, 68, 194, 192,
        163, 104, 135, 15, 185, 191, 147, 174, 159, 175, 158, 80, 174, 215, 37, 55, 92, 154, 200,
        27, 251, 169, 125, 127, 173, 229, 243, 235, 233, 122, 253, 252, 114, 223, 125, 234, 174,
        172, 80, 149, 20, 76, 136, 200, 0, 228, 11, 84, 2, 0, 0, 0, 0, 0, 0, 0, 0, 0, 0, 0, 9, 0,
        0, 0, 99, 114, 111, 119, 100, 102, 117, 110, 100, 0, 0, 0, 0, 0, 0, 0, 0, 0, 0, 0,
    ];
    let info = ProjectInfo::unpack(bytes).unwrap();
    assert_eq!(info.owner.bytes.to_vec(), bytes[..32].to_vec());
    assert_eq!(info.bank.bytes.to_vec(), bytes[32..64].to_vec());
    assert_eq!(info.milestone, 10_000_000_000);
    assert_eq!(info.raised, 0);
    assert_eq!(info.name, "crowdfund");
    assert!(!info.withdrawn);
}

#[test]
fn record_round_trip() {
    let info = ProjectInfo {
        bank: Address::new([3; 32]),
        owner: Address::new([4; 32]),
        milestone: 77,
        raised: 12,
        name: "ünïcode".to_string(),
        withdrawn: true,
    };
    let bytes = info.pack();
    assert_eq!(bytes.len() as u64, info.size().unwrap());
    assert_eq!(&bytes[..32], &[4u8; 32]);
    assert_eq!(*bytes.last().unwrap(), 1);
    let back = ProjectInfo::unpack(&bytes).unwrap();
    assert!(back.bank == info.bank && back.owner == info.owner);
    assert_eq!((back.milestone, back.raised, back.withdrawn), (77, 12, true));
    assert_eq!(back.name, info.name);
}

#[test]
fn derivation_is_deterministic() {
    let program = Address::new(PROGRAM);
    let owner = Address::new([9; 32]);
    let (expected, bump) = Pubkey::find_program_address(&[&[9u8; 32], b"drive"], &Pubkey::new_from_array(PROGRAM));
    let bank = Address::new(expected.to_bytes());
    let seeds = vec![vec![9u8; 32], b"drive".to_vec()];
    assert_eq!(verify_pda(&program, &bank, &seeds).unwrap(), bump);
    assert_eq!(verify_pda(&program, &bank, &seeds).unwrap(), bump);
    match verify_pda(&program, &owner, &seeds) {
        Err(Some(derived)) => assert!(derived == bank),
        other => panic!("unexpected {:?}", other),
    }
    assert_eq!(verify_bank_address(&program, &bank, "drive", &owner), Ok(bump));
    assert_eq!(verify_bank_address(&program, &bank, "drivE", &owner), Err(CrowdError::UnexpectedBankAddress));
    let (record, record_bump) = Pubkey::find_program_address(&[&expected.to_bytes(), &[bump]], &Pubkey::new_from_array(PROGRAM));
    assert_eq!(verify_project_address(&program, &Address::new(record.to_bytes()), &bank, bump), Ok(record_bump));
    assert_eq!(verify_project_address(&program, &bank, &bank, bump), Err(CrowdError::UnexpectedProjectAddress));
}

#[test]
fn too_many_seeds_derive_nothing() {
    let program = Address::new(PROGRAM);
    let seeds: Vec<Vec<u8>> = (0..16u8).map(|i| vec![i]).collect();
    assert!(matches!(verify_pda(&program, &program, &seeds), Err(None)));
}
