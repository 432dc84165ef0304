use crate::address::Address;
use crate::codec::{
    bytes_to_vec, le_bytes_u32, le_bytes_u64, lemma_u32_le_round_trip, lemma_u64_le_round_trip,
    push_bytes, push_u32, push_u64, read_u32, read_u64, string_from_utf8, u32_from_le,
    u64_from_le,
};
use crate::error::CrowdError;
use vstd::prelude::*;
use vstd::utf8::{decode_utf8, encode_utf8, valid_utf8};

verus! {

broadcast use vstd::utf8::encode_utf8_decode_utf8, vstd::utf8::encode_utf8_valid_utf8;

/// The persisted record of one campaign.
#[derive(Debug, Clone)]
pub struct ProjectInfo {
    /// The escrow account that holds what was contributed.
    pub bank: Address,
    /// The creator, who alone may withdraw.
    pub owner: Address,
    /// The funding target.
    pub milestone: u64,
    /// What has been contributed so far.
    pub raised: u64,
    /// The campaign's name, unique per owner.
    pub name: String,
    /// Whether the escrow has been withdrawn; no operation succeeds after it.
    pub withdrawn: bool,
}

/// A campaign record with addresses as bytes and the name as characters.
pub struct ProjectView {
    pub bank: Seq<u8>,
    pub owner: Seq<u8>,
    pub milestone: u64,
    pub raised: u64,
    pub name: Seq<char>,
    pub withdrawn: bool,
}

impl View for ProjectInfo {
    type V = ProjectView;

    open spec fn view(&self) -> ProjectView {
        ProjectView {
            bank: self.bank@,
            owner: self.owner@,
            milestone: self.milestone,
            raised: self.raised,
            name: self.name@,
            withdrawn: self.withdrawn,
        }
    }
}

/// The bytes before the name: two addresses, the target and the raised total.
pub const FIXED_PREFIX_LEN: usize = 80;

/// Whether a record has an encoding: its addresses are 32 bytes and its
/// name's length fits the four-byte length prefix.
pub open spec fn record_encodable(p: ProjectView) -> bool {
    &&& p.bank.len() == 32
    &&& p.owner.len() == 32
    &&& encode_utf8(p.name).len() <= u32::MAX
}

/// The persisted bytes of a record: owner, escrow, target, raised, the name
/// as a four-byte length followed by its UTF-8 bytes, and the withdrawn flag.
pub open spec fn encode_record(p: ProjectView) -> Seq<u8> {
    p.owner + p.bank + le_bytes_u64(p.milestone) + le_bytes_u64(p.raised) + le_bytes_u32(
        encode_utf8(p.name).len() as u32,
    ) + encode_utf8(p.name) + seq![if p.withdrawn { 1u8 } else { 0u8 }]
}

/// The number of bytes that a record takes.
pub open spec fn record_len(p: ProjectView) -> int {
    FIXED_PREFIX_LEN + 4 + encode_utf8(p.name).len() + 1
}

/// What stored bytes decode to; bytes after the record are ignored.
pub open spec fn decode_record(d: Seq<u8>) -> Result<ProjectView, CrowdError> {
    if d.len() < 84 {
        Err(CrowdError::CorruptedProjectData)
    } else {
        let n = u32_from_le(d.subrange(80, 84)) as int;
        if d.len() < 84 + n + 1 {
            Err(CrowdError::CorruptedProjectData)
        } else if !valid_utf8(d.subrange(84, 84 + n)) {
            Err(CrowdError::CorruptedProjectData)
        } else if d[84 + n] > 1 {
            Err(CrowdError::CorruptedProjectData)
        } else {
            Ok(
                ProjectView {
                    owner: d.subrange(0, 32),
                    bank: d.subrange(32, 64),
                    milestone: u64_from_le(d.subrange(64, 72)),
                    raised: u64_from_le(d.subrange(72, 80)),
                    name: decode_utf8(d.subrange(84, 84 + n)),
                    withdrawn: d[84 + n] == 1,
                },
            )
        }
    }
}

/// The view of a record-decoding result.
pub open spec fn record_result_view(r: Result<ProjectInfo, CrowdError>) -> Result<
    ProjectView,
    CrowdError,
> {
    match r {
        Ok(p) => Ok(p@),
        Err(e) => Err(e),
    }
}

/// The address held in the first 32 bytes of `b`.
pub fn address_from_slice(b: &[u8]) -> (r: Address)
    requires
        b@.len() >= 32,
    ensures
        r@ == b@.subrange(0, 32),
{
    let mut bytes = [0u8; 32];
    let mut i: usize = 0;
    while i < 32
        invariant
            0 <= i <= 32,
            b@.len() >= 32,
            forall|j: int| 0 <= j < i ==> bytes@[j] == b@[j],
        decreases 32 - i,
    {
        bytes[i] = b[i];
        i = i + 1;
    }
    let r = Address { bytes };
    assert(r@ =~= b@.subrange(0, 32));
    r
}

impl ProjectInfo {
    /// The number of bytes that the record takes when stored, if it fits a `u64`.
    pub fn size(&self) -> (r: Option<u64>)
        ensures
            r == (if record_len(self@) <= u64::MAX {
                Some(record_len(self@) as u64)
            } else {
                None::<u64>
            }),
    {
        let n = self.name.as_str().as_bytes().len();
        if n as u64 > u64::MAX - 85 {
            None
        } else {
            Some(n as u64 + 85)
        }
    }

    /// Encodes the record in its stored layout.
    pub fn pack(&self) -> (r: Vec<u8>)
        requires
            record_encodable(self@),
        ensures
            r@ == encode_record(self@),
            r@.len() == record_len(self@),
    {
        let mut out = self.owner.to_vec();
        push_bytes(&mut out, self.bank.to_vec().as_slice());
        push_u64(&mut out, self.milestone);
        push_u64(&mut out, self.raised);
        let name_bytes = self.name.as_str().as_bytes();
        push_u32(&mut out, name_bytes.len() as u32);
        push_bytes(&mut out, name_bytes);
        out.push(if self.withdrawn { 1u8 } else { 0u8 });
        assert(out@ =~= encode_record(self@));
        out
    }

    /// Decodes a stored record; fails with `CorruptedProjectData` where the
    /// bytes end early, the name is not UTF-8 or the flag is not 0 or 1.
    pub fn unpack(data: &[u8]) -> (r: Result<ProjectInfo, CrowdError>)
        ensures
            record_result_view(r) == decode_record(data@),
    {
        if data.len() < 84 {
            return Err(CrowdError::CorruptedProjectData);
        }
        let owner = address_from_slice(data);
        let (_, rest) = data.split_at(32);
        let bank = address_from_slice(rest);
        let (_, rest) = rest.split_at(32);
        assert(bank@ =~= data@.subrange(32, 64));
        let milestone = match read_u64(rest) {
            Some(v) => v,
            None => return Err(CrowdError::CorruptedProjectData),
        };
        let (_, rest) = rest.split_at(8);
        let raised = match read_u64(rest) {
            Some(v) => v,
            None => return Err(CrowdError::CorruptedProjectData),
        };
        let (_, rest) = rest.split_at(8);
        let name_length = match read_u32(rest) {
            Some(v) => v as usize,
            None => return Err(CrowdError::CorruptedProjectData),
        };
        let (_, rest) = rest.split_at(4);
        assert(data@.subrange(64, 72) =~= data@.subrange(64, data@.len() as int).subrange(0, 8));
        assert(data@.subrange(72, 80) =~= data@.subrange(72, data@.len() as int).subrange(0, 8));
        assert(data@.subrange(80, 84) =~= data@.subrange(80, data@.len() as int).subrange(0, 4));
        if rest.len() < name_length || rest.len() - name_length < 1 {
            return Err(CrowdError::CorruptedProjectData);
        }
        let (name_bytes, rest) = rest.split_at(name_length);
        assert(name_bytes@ =~= data@.subrange(84, 84 + name_length));
        let name = match string_from_utf8(bytes_to_vec(name_bytes)) {
            Some(s) => s,
            None => return Err(CrowdError::CorruptedProjectData),
        };
        let flag = rest[0];
        if flag > 1 {
            return Err(CrowdError::CorruptedProjectData);
        }
        Ok(ProjectInfo { bank, owner, milestone, raised, name, withdrawn: flag == 1 })
    }
}

/// Decoding a stored record gives it back, and its encoding is never empty.
pub proof fn lemma_record_round_trip(p: ProjectView)
    requires
        record_encodable(p),
    ensures
        decode_record(encode_record(p)) == Ok::<ProjectView, CrowdError>(p),
        encode_record(p).len() == record_len(p),
        encode_record(p).len() > 0,
{
    let e = encode_record(p);
    let nb = encode_utf8(p.name);
    let n = nb.len() as u32;
    lemma_u64_le_round_trip(p.milestone);
    lemma_u64_le_round_trip(p.raised);
    lemma_u32_le_round_trip(n);
    assert(e.subrange(0, 32) =~= p.owner);
    assert(e.subrange(32, 64) =~= p.bank);
    assert(e.subrange(64, 72) =~= le_bytes_u64(p.milestone));
    assert(e.subrange(72, 80) =~= le_bytes_u64(p.raised));
    assert(e.subrange(80, 84) =~= le_bytes_u32(n));
    assert(e.subrange(84, 84 + n as int) =~= nb);
}

} // verus!
