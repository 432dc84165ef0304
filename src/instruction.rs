use crate::codec::{
    bytes_to_vec, le_bytes_u32, le_bytes_u64, lemma_u32_le_round_trip, lemma_u64_le_round_trip,
    push_bytes, push_u32, push_u64, read_u32, read_u64, string_from_utf8, u32_from_le,
    u64_from_le,
};
use crate::error::CrowdError;
use vstd::prelude::*;
use vstd::utf8::{decode_utf8, encode_utf8, valid_utf8};

verus! {

broadcast use vstd::utf8::encode_utf8_decode_utf8, vstd::utf8::encode_utf8_valid_utf8;

/// One operation of the program, as decoded from an instruction buffer.
#[derive(Debug)]
#[allow(inconsistent_fields)]
pub enum Instruction {
    /// Open a campaign (tag 0).
    Create { params: CreateParams },
    /// Contribute to a campaign (tag 1).
    Compliment { params: ComplimentParams },
    /// Withdraw a funded campaign's escrow (tag 2, no payload).
    Withdraw,
}

/// The payload of an open-campaign instruction.
#[derive(Debug)]
pub struct CreateParams {
    pub target: u64,
    pub name: String,
    pub project_bump: u8,
}

/// The payload of a contribution.
#[derive(Debug, Clone, Copy, PartialEq, Eq, Structural)]
pub struct ComplimentParams {
    pub amount: u64,
}

/// An instruction with its campaign name as characters.
pub enum InstructionView {
    Create { target: u64, name: Seq<char>, project_bump: u8 },
    Compliment { amount: u64 },
    Withdraw,
}

impl View for Instruction {
    type V = InstructionView;

    open spec fn view(&self) -> InstructionView {
        match self {
            Instruction::Create { params } => InstructionView::Create {
                target: params.target,
                name: params.name@,
                project_bump: params.project_bump,
            },
            Instruction::Compliment { params } => InstructionView::Compliment {
                amount: params.amount,
            },
            Instruction::Withdraw => InstructionView::Withdraw,
        }
    }
}

/// The tag byte of an open-campaign instruction.
pub const TAG_CREATE: u8 = 0;

/// The tag byte of a contribution.
pub const TAG_COMPLIMENT: u8 = 1;

/// The tag byte of a withdrawal.
pub const TAG_WITHDRAW: u8 = 2;

/// Whether an instruction has an encoding: its name's length fits the
/// four-byte length prefix.
pub open spec fn encodable(i: InstructionView) -> bool {
    match i {
        InstructionView::Create { name, .. } => encode_utf8(name).len() <= u32::MAX,
        _ => true,
    }
}

/// The bytes of an instruction: its tag, then its fields in order, the name
/// as a four-byte length followed by its UTF-8 bytes.
pub open spec fn encode_instruction(i: InstructionView) -> Seq<u8> {
    match i {
        InstructionView::Create { target, name, project_bump } => seq![TAG_CREATE] + le_bytes_u64(
            target,
        ) + le_bytes_u32(encode_utf8(name).len() as u32) + encode_utf8(name) + seq![project_bump],
        InstructionView::Compliment { amount } => seq![TAG_COMPLIMENT] + le_bytes_u64(amount),
        InstructionView::Withdraw => seq![TAG_WITHDRAW],
    }
}

/// The payload of an open-campaign instruction: eight bytes of target, four
/// of name length, the name, one byte of bump. Bytes after it are ignored.
pub open spec fn decode_create(d: Seq<u8>) -> Result<InstructionView, CrowdError> {
    if d.len() < 12 {
        Err(CrowdError::InvalidInstruction)
    } else {
        let n = u32_from_le(d.subrange(8, 12)) as int;
        if d.len() < 12 + n + 1 {
            Err(CrowdError::InvalidInstruction)
        } else if !valid_utf8(d.subrange(12, 12 + n)) {
            Err(CrowdError::InvalidInstruction)
        } else {
            Ok(
                InstructionView::Create {
                    target: u64_from_le(d.subrange(0, 8)),
                    name: decode_utf8(d.subrange(12, 12 + n)),
                    project_bump: d[12 + n],
                },
            )
        }
    }
}

/// What an instruction buffer decodes to.
pub open spec fn decode_instruction(b: Seq<u8>) -> Result<InstructionView, CrowdError> {
    if b.len() == 0 {
        Err(CrowdError::InvalidInstruction)
    } else {
        let d = b.subrange(1, b.len() as int);
        if b[0] == TAG_CREATE {
            decode_create(d)
        } else if b[0] == TAG_COMPLIMENT {
            if d.len() < 8 {
                Err(CrowdError::InvalidInstruction)
            } else {
                Ok(InstructionView::Compliment { amount: u64_from_le(d) })
            }
        } else if b[0] == TAG_WITHDRAW {
            Ok(InstructionView::Withdraw)
        } else {
            Err(CrowdError::InvalidInstruction)
        }
    }
}

/// The view of a decoding result.
pub open spec fn decoded_view(r: Result<Instruction, CrowdError>) -> Result<InstructionView, CrowdError> {
    match r {
        Ok(i) => Ok(i@),
        Err(e) => Err(e),
    }
}

impl Instruction {
    /// Decodes an instruction buffer; fails on an empty buffer, an unknown
    /// tag, a field that runs past the end, or a name that is not UTF-8.
    pub fn unpack(instruction_bytes: &[u8]) -> (r: Result<Instruction, CrowdError>)
        ensures
            decoded_view(r) == decode_instruction(instruction_bytes@),
    {
        if instruction_bytes.len() == 0 {
            return Err(CrowdError::InvalidInstruction);
        }
        let index = instruction_bytes[0];
        let (_, data) = instruction_bytes.split_at(1);
        if index == TAG_CREATE {
            if data.len() < 12 {
                return Err(CrowdError::InvalidInstruction);
            }
            let (target_bytes, rest) = data.split_at(8);
            let target = match read_u64(target_bytes) {
                Some(v) => v,
                None => return Err(CrowdError::InvalidInstruction),
            };
            let (name_length_bytes, rest) = rest.split_at(4);
            let name_length = match read_u32(name_length_bytes) {
                Some(v) => v as usize,
                None => return Err(CrowdError::InvalidInstruction),
            };
            assert(target_bytes@ =~= data@.subrange(0, 8));
            assert(name_length_bytes@ =~= data@.subrange(8, 12));
            if rest.len() < name_length || rest.len() - name_length < 1 {
                return Err(CrowdError::InvalidInstruction);
            }
            let (name_bytes, rest) = rest.split_at(name_length);
            assert(name_bytes@ =~= data@.subrange(12, 12 + name_length));
            let name = match string_from_utf8(bytes_to_vec(name_bytes)) {
                Some(s) => s,
                None => return Err(CrowdError::InvalidInstruction),
            };
            let project_bump = rest[0];
            Ok(Instruction::Create { params: CreateParams { target, name, project_bump } })
        } else if index == TAG_COMPLIMENT {
            if data.len() < 8 {
                return Err(CrowdError::InvalidInstruction);
            }
            let amount = match read_u64(data) {
                Some(v) => v,
                None => return Err(CrowdError::InvalidInstruction),
            };
            Ok(Instruction::Compliment { params: ComplimentParams { amount } })
        } else if index == TAG_WITHDRAW {
            Ok(Instruction::Withdraw)
        } else {
            Err(CrowdError::InvalidInstruction)
        }
    }

    /// Encodes the instruction in the layout that `unpack` reads.
    pub fn pack(&self) -> (r: Vec<u8>)
        requires
            encodable(self@),
        ensures
            r@ == encode_instruction(self@),
    {
        let mut out: Vec<u8> = Vec::new();
        match self {
            Instruction::Create { params } => {
                out.push(TAG_CREATE);
                push_u64(&mut out, params.target);
                let name_bytes = params.name.as_str().as_bytes();
                push_u32(&mut out, name_bytes.len() as u32);
                push_bytes(&mut out, name_bytes);
                out.push(params.project_bump);
                assert(out@ =~= encode_instruction(self@));
            },
            Instruction::Compliment { params } => {
                out.push(TAG_COMPLIMENT);
                push_u64(&mut out, params.amount);
                assert(out@ =~= encode_instruction(self@));
            },
            Instruction::Withdraw => {
                out.push(TAG_WITHDRAW);
                assert(out@ =~= encode_instruction(self@));
            },
        }
        out
    }
}

/// Encoding then decoding an instruction gives it back, and no strict prefix
/// of its encoding decodes: a truncated buffer always fails.
pub proof fn lemma_instruction_round_trip(i: InstructionView)
    requires
        encodable(i),
    ensures
        decode_instruction(encode_instruction(i)) == Ok::<InstructionView, CrowdError>(i),
        forall|k: int|
            0 <= k < encode_instruction(i).len() ==> #[trigger] decode_instruction(
                encode_instruction(i).subrange(0, k),
            ) is Err,
{
    let e = encode_instruction(i);
    match i {
        InstructionView::Create { target, name, project_bump } => {
            let nb = encode_utf8(name);
            let n = nb.len() as u32;
            lemma_u64_le_round_trip(target);
            lemma_u32_le_round_trip(n);
            let d = e.subrange(1, e.len() as int);
            assert(d.subrange(0, 8) =~= le_bytes_u64(target));
            assert(d.subrange(8, 12) =~= le_bytes_u32(n));
            assert(d.subrange(12, 12 + n as int) =~= nb);
            assert(d[12 + n as int] == project_bump);
            assert forall|k: int| 0 <= k < e.len() implies #[trigger] decode_instruction(
                e.subrange(0, k),
            ) is Err by {
                let p = e.subrange(0, k);
                if k > 0 {
                    let pd = p.subrange(1, k);
                    if pd.len() >= 12 {
                        assert(pd.subrange(8, 12) =~= le_bytes_u32(n));
                    }
                }
            }
        },
        InstructionView::Compliment { amount } => {
            lemma_u64_le_round_trip(amount);
            let d = e.subrange(1, e.len() as int);
            assert(d =~= le_bytes_u64(amount));
            assert forall|k: int| 0 <= k < e.len() implies #[trigger] decode_instruction(
                e.subrange(0, k),
            ) is Err by {
                let p = e.subrange(0, k);
                if k > 0 {
                    assert(p.subrange(1, k).len() < 8);
                }
            }
        },
        InstructionView::Withdraw => {
            assert forall|k: int| 0 <= k < e.len() implies #[trigger] decode_instruction(
                e.subrange(0, k),
            ) is Err by {
                assert(k == 0);
            }
        },
    }
}

} // verus!
