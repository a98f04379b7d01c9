use vstd::prelude::*;
use crate::error::DataAccountError;
use crate::state::{bool_from_byte, bool_of_byte, bool_byte};

verus! {

/// Arguments of the request that creates a data account and its metadata.
#[derive(Clone, Debug)]
pub struct InitializeDataAccountArgs {
    /// Whether the data account already exists; if not, it is allocated first.
    pub is_created: bool,
    /// Size in bytes of the data account to allocate.
    pub space: u64,
    /// The owner recorded in the metadata.
    pub authority: [u8; 32],
    /// Whether the data account may be resized later.
    pub is_dynamic: bool,
}

/// Arguments of the request that writes into a data account.
#[derive(Clone, Debug)]
pub struct UpdateDataAccountArgs {
    /// Where in the data account the write starts.
    pub offset: u64,
    /// The bytes written.
    pub data: Vec<u8>,
    /// The data type recorded in the metadata.
    pub data_type: u8,
    /// Whether a dynamic data account shrinks to the end of the write.
    pub realloc_down: bool,
}

/// Arguments of the request that closes a data account.
#[derive(Clone, Copy, Debug)]
pub struct CloseAccountArgs {}

/// The requests that the program serves.
#[derive(Clone, Debug)]
pub enum DataAccountInstruction {
    InitializeDataAccount(InitializeDataAccountArgs),
    UpdateDataAccount(UpdateDataAccountArgs),
    CloseDataAccount(CloseAccountArgs),
}

/// Mathematical view of a request.
pub ghost enum InstructionView {
    Initialize { is_created: bool, space: u64, authority: Seq<u8>, is_dynamic: bool },
    Update { offset: u64, data: Seq<u8>, data_type: u8, realloc_down: bool },
    Close,
}

impl View for DataAccountInstruction {
    type V = InstructionView;

    open spec fn view(&self) -> InstructionView {
        match self {
            DataAccountInstruction::InitializeDataAccount(a) => InstructionView::Initialize {
                is_created: a.is_created,
                space: a.space,
                authority: a.authority@,
                is_dynamic: a.is_dynamic,
            },
            DataAccountInstruction::UpdateDataAccount(a) => InstructionView::Update {
                offset: a.offset,
                data: a.data@,
                data_type: a.data_type,
                realloc_down: a.realloc_down,
            },
            DataAccountInstruction::CloseDataAccount(_) => InstructionView::Close,
        }
    }
}

/// Whether a request can be encoded: an address has 32 bytes, and the
/// length of written data fits the 32-bit length prefix.
pub open spec fn is_encodable(v: InstructionView) -> bool {
    match v {
        InstructionView::Initialize { authority, .. } => authority.len() == 32,
        InstructionView::Update { data, .. } => data.len() <= u32::MAX,
        InstructionView::Close => true,
    }
}

/// The eight little-endian bytes of `x`.
pub open spec fn u64_le_bytes(x: u64) -> Seq<u8> {
    seq![
        (x & 0xff) as u8,
        ((x >> 8u64) & 0xff) as u8,
        ((x >> 16u64) & 0xff) as u8,
        ((x >> 24u64) & 0xff) as u8,
        ((x >> 32u64) & 0xff) as u8,
        ((x >> 40u64) & 0xff) as u8,
        ((x >> 48u64) & 0xff) as u8,
        ((x >> 56u64) & 0xff) as u8,
    ]
}

/// The number whose little-endian bytes are the first eight of `s`.
pub open spec fn u64_from_le(s: Seq<u8>) -> u64 {
    (s[0] as u64) | ((s[1] as u64) << 8u64) | ((s[2] as u64) << 16u64) | ((s[3] as u64) << 24u64)
        | ((s[4] as u64) << 32u64) | ((s[5] as u64) << 40u64) | ((s[6] as u64) << 48u64)
        | ((s[7] as u64) << 56u64)
}

/// The four little-endian bytes of `x`.
pub open spec fn u32_le_bytes(x: u32) -> Seq<u8> {
    seq![
        (x & 0xff) as u8,
        ((x >> 8u32) & 0xff) as u8,
        ((x >> 16u32) & 0xff) as u8,
        ((x >> 24u32) & 0xff) as u8,
    ]
}

/// The number whose little-endian bytes are the first four of `s`.
pub open spec fn u32_from_le(s: Seq<u8>) -> u32 {
    (s[0] as u32) | ((s[1] as u32) << 8u32) | ((s[2] as u32) << 16u32) | ((s[3] as u32) << 24u32)
}

/// The binary form of a request: a tag byte, then the fields in order, with
/// integers little-endian, flags as one byte 0 or 1, and the written data
/// behind its 32-bit length.
pub open spec fn instruction_bytes(v: InstructionView) -> Seq<u8> {
    match v {
        InstructionView::Initialize { is_created, space, authority, is_dynamic } =>
            seq![0u8, bool_byte(is_created)] + u64_le_bytes(space) + authority + seq![bool_byte(is_dynamic)],
        InstructionView::Update { offset, data, data_type, realloc_down } =>
            seq![1u8] + u64_le_bytes(offset) + u32_le_bytes(data.len() as u32) + data
                + seq![data_type, bool_byte(realloc_down)],
        InstructionView::Close => seq![2u8],
    }
}

/// The request that `b` encodes, if it is one.
pub open spec fn parse_instruction(b: Seq<u8>) -> Option<InstructionView> {
    if b.len() == 0 {
        None
    } else if b[0] == 0 {
        if b.len() != 43 || bool_of_byte(b[1]) is None || bool_of_byte(b[42]) is None {
            None
        } else {
            Some(InstructionView::Initialize {
                is_created: bool_of_byte(b[1]).unwrap(),
                space: u64_from_le(b.subrange(2, 10)),
                authority: b.subrange(10, 42),
                is_dynamic: bool_of_byte(b[42]).unwrap(),
            })
        }
    } else if b[0] == 1 {
        if b.len() < 15 {
            None
        } else {
            let n = u32_from_le(b.subrange(9, 13)) as int;
            if b.len() != 15 + n || bool_of_byte(b[14 + n]) is None {
                None
            } else {
                Some(InstructionView::Update {
                    offset: u64_from_le(b.subrange(1, 9)),
                    data: b.subrange(13, 13 + n),
                    data_type: b[13 + n],
                    realloc_down: bool_of_byte(b[14 + n]).unwrap(),
                })
            }
        }
    } else if b[0] == 2 {
        if b.len() == 1 { Some(InstructionView::Close) } else { None }
    } else {
        None
    }
}

proof fn lemma_u64_le_round_trip(x: u64)
    ensures
        u64_from_le(u64_le_bytes(x)) == x,
{
    let s = u64_le_bytes(x);
    assert(((x & 0xff) as u8 as u64) | ((((x >> 8u64) & 0xff) as u8 as u64) << 8u64)
        | ((((x >> 16u64) & 0xff) as u8 as u64) << 16u64) | ((((x >> 24u64) & 0xff) as u8 as u64) << 24u64)
        | ((((x >> 32u64) & 0xff) as u8 as u64) << 32u64) | ((((x >> 40u64) & 0xff) as u8 as u64) << 40u64)
        | ((((x >> 48u64) & 0xff) as u8 as u64) << 48u64) | ((((x >> 56u64) & 0xff) as u8 as u64) << 56u64)
        == x) by (bit_vector);
}

proof fn lemma_u32_le_round_trip(x: u32)
    ensures
        u32_from_le(u32_le_bytes(x)) == x,
{
    assert(((x & 0xff) as u8 as u32) | ((((x >> 8u32) & 0xff) as u8 as u32) << 8u32)
        | ((((x >> 16u32) & 0xff) as u8 as u32) << 16u32) | ((((x >> 24u32) & 0xff) as u8 as u32) << 24u32)
        == x) by (bit_vector);
}

/// Decoding the binary form of an encodable request gives the request back.
pub proof fn lemma_instruction_round_trip(v: InstructionView)
    requires
        is_encodable(v),
    ensures
        parse_instruction(instruction_bytes(v)) == Some(v),
{
    let b = instruction_bytes(v);
    match v {
        InstructionView::Initialize { is_created, space, authority, is_dynamic } => {
            lemma_u64_le_round_trip(space);
            assert(b.subrange(2, 10) =~= u64_le_bytes(space));
            assert(b.subrange(10, 42) =~= authority);
        },
        InstructionView::Update { offset, data, data_type, realloc_down } => {
            let n = data.len() as int;
            lemma_u64_le_round_trip(offset);
            lemma_u32_le_round_trip(n as u32);
            assert(b.subrange(1, 9) =~= u64_le_bytes(offset));
            assert(b.subrange(9, 13) =~= u32_le_bytes(n as u32));
            assert(b.subrange(13, 13 + n) =~= data);
        },
        InstructionView::Close => {},
    }
}

fn push_u64_le(out: &mut Vec<u8>, x: u64)
    ensures
        final(out)@ == old(out)@ + u64_le_bytes(x),
{
    out.push((x & 0xff) as u8);
    out.push(((x >> 8u64) & 0xff) as u8);
    out.push(((x >> 16u64) & 0xff) as u8);
    out.push(((x >> 24u64) & 0xff) as u8);
    out.push(((x >> 32u64) & 0xff) as u8);
    out.push(((x >> 40u64) & 0xff) as u8);
    out.push(((x >> 48u64) & 0xff) as u8);
    out.push(((x >> 56u64) & 0xff) as u8);
    assert(final(out)@ =~= old(out)@ + u64_le_bytes(x));
}

fn push_u32_le(out: &mut Vec<u8>, x: u32)
    ensures
        final(out)@ == old(out)@ + u32_le_bytes(x),
{
    out.push((x & 0xff) as u8);
    out.push(((x >> 8u32) & 0xff) as u8);
    out.push(((x >> 16u32) & 0xff) as u8);
    out.push(((x >> 24u32) & 0xff) as u8);
    assert(final(out)@ =~= old(out)@ + u32_le_bytes(x));
}

fn push_all(out: &mut Vec<u8>, d: &[u8])
    ensures
        final(out)@ == old(out)@ + d@,
{
    let mut i: usize = 0;
    while i < d.len()
        invariant
            i <= d@.len(),
            out@ == old(out)@ + d@.subrange(0, i as int),
        decreases d@.len() - i,
    {
        out.push(d[i]);
        assert(d@.subrange(0, i + 1) =~= d@.subrange(0, i as int).push(d@[i as int]));
        i = i + 1;
    }
    assert(d@.subrange(0, d@.len() as int) =~= d@);
}

fn flag_byte(b: bool) -> (r: u8)
    ensures
        r == bool_byte(b),
{
    if b { 1 } else { 0 }
}

/// Writes a request in its binary form.
pub fn encode_instruction(ins: &DataAccountInstruction) -> (r: Vec<u8>)
    requires
        is_encodable(ins@),
    ensures
        r@ == instruction_bytes(ins@),
{
    let mut out: Vec<u8> = Vec::new();
    match ins {
        DataAccountInstruction::InitializeDataAccount(a) => {
            out.push(0u8);
            out.push(flag_byte(a.is_created));
            push_u64_le(&mut out, a.space);
            push_all(&mut out, &a.authority);
            out.push(flag_byte(a.is_dynamic));
        },
        DataAccountInstruction::UpdateDataAccount(a) => {
            out.push(1u8);
            push_u64_le(&mut out, a.offset);
            push_u32_le(&mut out, a.data.len() as u32);
            push_all(&mut out, a.data.as_slice());
            out.push(a.data_type);
            out.push(flag_byte(a.realloc_down));
        },
        DataAccountInstruction::CloseDataAccount(_) => {
            out.push(2u8);
        },
    }
    assert(out@ =~= instruction_bytes(ins@));
    out
}

fn read_u64_le(b: &[u8], at: usize) -> (r: u64)
    requires
        at + 8 <= b@.len(),
    ensures
        r == u64_from_le(b@.subrange(at as int, at + 8)),
{
    (b[at] as u64) | ((b[at + 1] as u64) << 8u64) | ((b[at + 2] as u64) << 16u64)
        | ((b[at + 3] as u64) << 24u64) | ((b[at + 4] as u64) << 32u64) | ((b[at + 5] as u64) << 40u64)
        | ((b[at + 6] as u64) << 48u64) | ((b[at + 7] as u64) << 56u64)
}

fn read_u32_le(b: &[u8], at: usize) -> (r: u32)
    requires
        at + 4 <= b@.len(),
    ensures
        r == u32_from_le(b@.subrange(at as int, at + 4)),
{
    (b[at] as u32) | ((b[at + 1] as u32) << 8u32) | ((b[at + 2] as u32) << 16u32) | ((b[at + 3] as u32) << 24u32)
}

/// Reads a request from its binary form; the whole input must be one request.
pub fn decode_instruction(b: &[u8]) -> (r: Result<DataAccountInstruction, DataAccountError>)
    ensures
        match r {
            Ok(ins) => parse_instruction(b@) == Some(ins@),
            Err(e) => parse_instruction(b@) is None && e == DataAccountError::InvalidInstructionData,
        },
{
    if b.len() == 0 {
        return Err(DataAccountError::InvalidInstructionData);
    }
    if b[0] == 0 {
        if b.len() != 43 {
            return Err(DataAccountError::InvalidInstructionData);
        }
        let is_created = match bool_from_byte(b[1]) {
            Some(v) => v,
            None => { return Err(DataAccountError::InvalidInstructionData); },
        };
        let is_dynamic = match bool_from_byte(b[42]) {
            Some(v) => v,
            None => { return Err(DataAccountError::InvalidInstructionData); },
        };
        let space = read_u64_le(b, 2);
        let mut authority: [u8; 32] = [0u8; 32];
        let mut i: usize = 0;
        while i < 32
            invariant
                i <= 32,
                b@.len() == 43,
                forall|j: int| 0 <= j < i ==> authority@[j] == b@[j + 10],
            decreases 32 - i,
        {
            authority.set(i, b[i + 10]);
            i = i + 1;
        }
        assert(authority@ =~= b@.subrange(10, 42));
        Ok(DataAccountInstruction::InitializeDataAccount(
            InitializeDataAccountArgs { is_created, space, authority, is_dynamic },
        ))
    } else if b[0] == 1 {
        if b.len() < 15 {
            return Err(DataAccountError::InvalidInstructionData);
        }
        let n = read_u32_le(b, 9) as usize;
        if b.len() - 15 != n {
            return Err(DataAccountError::InvalidInstructionData);
        }
        let realloc_down = match bool_from_byte(b[14 + n]) {
            Some(v) => v,
            None => { return Err(DataAccountError::InvalidInstructionData); },
        };
        let offset = read_u64_le(b, 1);
        let blen = b.len();
        let mut data: Vec<u8> = Vec::new();
        let mut i: usize = 0;
        while i < n
            invariant
                blen == b@.len(),
                i <= n,
                b@.len() == 15 + n,
                data@ == b@.subrange(13, 13 + i),
            decreases n - i,
        {
            data.push(b[13 + i]);
            assert(b@.subrange(13, 13 + i + 1) =~= b@.subrange(13, 13 + i).push(b@[13 + i]));
            i = i + 1;
        }
        Ok(DataAccountInstruction::UpdateDataAccount(
            UpdateDataAccountArgs { offset, data, data_type: b[13 + n], realloc_down },
        ))
    } else if b[0] == 2 {
        if b.len() != 1 {
            return Err(DataAccountError::InvalidInstructionData);
        }
        Ok(DataAccountInstruction::CloseDataAccount(CloseAccountArgs {}))
    } else {
        Err(DataAccountError::InvalidInstructionData)
    }
}

} // verus!
