//! The three operations and their wire format: one tag byte, then each field
//! as eight bytes, least significant first.

use vstd::prelude::*;
use crate::error::SwapError;

verus! {

/// An operation of the exchange, as a caller requests it.
#[derive(Debug, Clone, Copy, PartialEq, Eq, Structural)]
pub enum SwapInstruction {
    /// Pay `amount` into reserve A and take the counter-amount out of reserve B.
    SwapAtoB { amount: u64 },
    /// Pay `amount` into reserve B and take the counter-amount out of reserve A.
    SwapBtoA { amount: u64 },
    /// Create the two reserve accounts with these initial balances.
    CreateAccounts { amount_a: u64, amount_b: u64 },
}

/// Tag byte of `SwapAtoB`.
pub const TAG_SWAP_A_TO_B: u8 = 0;

/// Tag byte of `SwapBtoA`.
pub const TAG_SWAP_B_TO_A: u8 = 1;

/// Tag byte of `CreateAccounts`.
pub const TAG_CREATE_ACCOUNTS: u8 = 2;

/// The number that eight bytes stand for, least significant byte first.
pub open spec fn le_value(bytes: Seq<u8>) -> int
    recommends
        bytes.len() == 8,
{
    bytes[0] + 0x100 * bytes[1] + 0x1_0000 * bytes[2] + 0x100_0000 * bytes[3] + 0x1_0000_0000
        * bytes[4] + 0x100_0000_0000 * bytes[5] + 0x1_0000_0000_0000 * bytes[6]
        + 0x100_0000_0000_0000 * bytes[7]
}

/// The eight bytes that stand for a number, least significant byte first.
pub open spec fn le_bytes(value: u64) -> Seq<u8> {
    seq![
        (value % 0x100) as u8,
        (value / 0x100 % 0x100) as u8,
        (value / 0x1_0000 % 0x100) as u8,
        (value / 0x100_0000 % 0x100) as u8,
        (value / 0x1_0000_0000 % 0x100) as u8,
        (value / 0x100_0000_0000 % 0x100) as u8,
        (value / 0x1_0000_0000_0000 % 0x100) as u8,
        (value / 0x100_0000_0000_0000 % 0x100) as u8,
    ]
}

/// The instruction that a payload encodes, if it encodes one. The payload has
/// to match in full: a known tag and exactly the bytes of its fields.
pub open spec fn decode(bytes: Seq<u8>) -> Option<SwapInstruction> {
    if bytes.len() == 9 && bytes[0] == TAG_SWAP_A_TO_B {
        Some(SwapInstruction::SwapAtoB { amount: le_value(bytes.subrange(1, 9)) as u64 })
    } else if bytes.len() == 9 && bytes[0] == TAG_SWAP_B_TO_A {
        Some(SwapInstruction::SwapBtoA { amount: le_value(bytes.subrange(1, 9)) as u64 })
    } else if bytes.len() == 17 && bytes[0] == TAG_CREATE_ACCOUNTS {
        Some(
            SwapInstruction::CreateAccounts {
                amount_a: le_value(bytes.subrange(1, 9)) as u64,
                amount_b: le_value(bytes.subrange(9, 17)) as u64,
            },
        )
    } else {
        None
    }
}

/// The payload that encodes an instruction.
pub open spec fn encode(instruction: SwapInstruction) -> Seq<u8> {
    match instruction {
        SwapInstruction::SwapAtoB { amount } => seq![TAG_SWAP_A_TO_B] + le_bytes(amount),
        SwapInstruction::SwapBtoA { amount } => seq![TAG_SWAP_B_TO_A] + le_bytes(amount),
        SwapInstruction::CreateAccounts { amount_a, amount_b } => seq![TAG_CREATE_ACCOUNTS]
            + le_bytes(amount_a) + le_bytes(amount_b),
    }
}

/// Eight bytes always stand for a number of the 64-bit unsigned range.
pub proof fn lemma_le_value_range(bytes: Seq<u8>)
    requires
        bytes.len() == 8,
    ensures
        0 <= le_value(bytes) <= u64::MAX,
{
}

/// Writing a number out and reading it back gives the number.
pub proof fn lemma_le_value_of_bytes(value: u64)
    ensures
        le_bytes(value).len() == 8,
        le_value(le_bytes(value)) == value,
{
    let v0 = value as int;
    let v1 = v0 / 0x100;
    let v2 = v1 / 0x100;
    let v3 = v2 / 0x100;
    let v4 = v3 / 0x100;
    let v5 = v4 / 0x100;
    let v6 = v5 / 0x100;
    let v7 = v6 / 0x100;
    assert(v2 == v0 / 0x1_0000);
    assert(v3 == v0 / 0x100_0000);
    assert(v4 == v0 / 0x1_0000_0000);
    assert(v5 == v0 / 0x100_0000_0000);
    assert(v6 == v0 / 0x1_0000_0000_0000);
    assert(v7 == v0 / 0x100_0000_0000_0000);
    assert(v7 < 0x100);
    assert(v0 == v0 % 0x100 + 0x100 * v1);
    assert(v1 == v1 % 0x100 + 0x100 * v2);
    assert(v2 == v2 % 0x100 + 0x100 * v3);
    assert(v3 == v3 % 0x100 + 0x100 * v4);
    assert(v4 == v4 % 0x100 + 0x100 * v5);
    assert(v5 == v5 % 0x100 + 0x100 * v6);
    assert(v6 == v6 % 0x100 + 0x100 * v7);
    assert(v7 == v7 % 0x100);
}

/// Reading eight bytes and writing the number out gives the same bytes.
pub proof fn lemma_le_bytes_of_value(bytes: Seq<u8>)
    requires
        bytes.len() == 8,
    ensures
        le_bytes(le_value(bytes) as u64) == bytes,
{
    let t7 = bytes[7] as int;
    let t6 = bytes[6] + 0x100 * t7;
    let t5 = bytes[5] + 0x100 * t6;
    let t4 = bytes[4] + 0x100 * t5;
    let t3 = bytes[3] + 0x100 * t4;
    let t2 = bytes[2] + 0x100 * t3;
    let t1 = bytes[1] + 0x100 * t2;
    let t0 = bytes[0] + 0x100 * t1;
    assert(t0 == le_value(bytes));
    assert(t0 / 0x100 == t1 && t0 % 0x100 == bytes[0]);
    assert(t1 / 0x100 == t2 && t1 % 0x100 == bytes[1]);
    assert(t2 / 0x100 == t3 && t2 % 0x100 == bytes[2]);
    assert(t3 / 0x100 == t4 && t3 % 0x100 == bytes[3]);
    assert(t4 / 0x100 == t5 && t4 % 0x100 == bytes[4]);
    assert(t5 / 0x100 == t6 && t5 % 0x100 == bytes[5]);
    assert(t6 / 0x100 == t7 && t6 % 0x100 == bytes[6]);
    assert(t7 % 0x100 == bytes[7]);
    assert(t0 / 0x1_0000 == t2);
    assert(t0 / 0x100_0000 == t3);
    assert(t0 / 0x1_0000_0000 == t4);
    assert(t0 / 0x100_0000_0000 == t5);
    assert(t0 / 0x1_0000_0000_0000 == t6);
    assert(t0 / 0x100_0000_0000_0000 == t7);
    assert(le_bytes(t0 as u64) =~= bytes);
}

/// Decoding undoes encoding: every instruction is read back from its payload.
pub proof fn lemma_decode_encode(instruction: SwapInstruction)
    ensures
        decode(encode(instruction)) == Some(instruction),
{
    let bytes = encode(instruction);
    match instruction {
        SwapInstruction::SwapAtoB { amount } => {
            lemma_le_value_of_bytes(amount);
            assert(bytes.subrange(1, 9) =~= le_bytes(amount));
        },
        SwapInstruction::SwapBtoA { amount } => {
            lemma_le_value_of_bytes(amount);
            assert(bytes.subrange(1, 9) =~= le_bytes(amount));
        },
        SwapInstruction::CreateAccounts { amount_a, amount_b } => {
            lemma_le_value_of_bytes(amount_a);
            lemma_le_value_of_bytes(amount_b);
            assert(bytes.subrange(1, 9) =~= le_bytes(amount_a));
            assert(bytes.subrange(9, 17) =~= le_bytes(amount_b));
        },
    }
}

/// The encoding is canonical: a payload that decodes is the encoding of what
/// it decodes to, so no two payloads stand for one instruction.
pub proof fn lemma_encode_decode(bytes: Seq<u8>)
    requires
        decode(bytes) is Some,
    ensures
        encode(decode(bytes)->Some_0) == bytes,
{
    lemma_le_value_range(bytes.subrange(1, 9));
    lemma_le_bytes_of_value(bytes.subrange(1, 9));
    if bytes.len() == 17 {
        lemma_le_value_range(bytes.subrange(9, 17));
        lemma_le_bytes_of_value(bytes.subrange(9, 17));
    }
    assert(encode(decode(bytes)->Some_0) =~= bytes);
}

/// Reads the eight bytes that start at `at` as a number.
fn read_u64(input: &[u8], at: usize) -> (value: u64)
    requires
        at + 8 <= input@.len(),
    ensures
        value == le_value(input@.subrange(at as int, at + 8)),
{
    let b0: u64 = input[at] as u64;
    let b1: u64 = input[at + 1] as u64;
    let b2: u64 = input[at + 2] as u64;
    let b3: u64 = input[at + 3] as u64;
    let b4: u64 = input[at + 4] as u64;
    let b5: u64 = input[at + 5] as u64;
    let b6: u64 = input[at + 6] as u64;
    let b7: u64 = input[at + 7] as u64;
    b0 + 0x100 * b1 + 0x1_0000 * b2 + 0x100_0000 * b3 + 0x1_0000_0000 * b4 + 0x100_0000_0000 * b5
        + 0x1_0000_0000_0000 * b6 + 0x100_0000_0000_0000 * b7
}

/// Appends the eight bytes of a number.
fn write_u64(out: &mut Vec<u8>, value: u64)
    ensures
        final(out)@ == old(out)@ + le_bytes(value),
{
    out.push((value % 0x100) as u8);
    out.push((value / 0x100 % 0x100) as u8);
    out.push((value / 0x1_0000 % 0x100) as u8);
    out.push((value / 0x100_0000 % 0x100) as u8);
    out.push((value / 0x1_0000_0000 % 0x100) as u8);
    out.push((value / 0x100_0000_0000 % 0x100) as u8);
    out.push((value / 0x1_0000_0000_0000 % 0x100) as u8);
    out.push((value / 0x100_0000_0000_0000 % 0x100) as u8);
    assert(out@ =~= old(out)@ + le_bytes(value));
}

impl SwapInstruction {
    /// Decodes a payload. Nothing is read leniently: an unknown tag, a missing
    /// byte or a byte too many is a malformed instruction.
    pub fn try_from_slice(input: &[u8]) -> (result: Result<SwapInstruction, SwapError>)
        ensures
            decode(input@) matches Some(instruction) ==> result == Ok::<
                SwapInstruction,
                SwapError,
            >(instruction),
            decode(input@) is None ==> result == Err::<SwapInstruction, SwapError>(
                SwapError::MalformedInstruction,
            ),
    {
        if input.len() == 0 {
            return Err(SwapError::MalformedInstruction);
        }
        let tag: u8 = input[0];
        if tag == TAG_SWAP_A_TO_B && input.len() == 9 {
            Ok(SwapInstruction::SwapAtoB { amount: read_u64(input, 1) })
        } else if tag == TAG_SWAP_B_TO_A && input.len() == 9 {
            Ok(SwapInstruction::SwapBtoA { amount: read_u64(input, 1) })
        } else if tag == TAG_CREATE_ACCOUNTS && input.len() == 17 {
            let amount_a: u64 = read_u64(input, 1);
            let amount_b: u64 = read_u64(input, 9);
            Ok(SwapInstruction::CreateAccounts { amount_a, amount_b })
        } else {
            Err(SwapError::MalformedInstruction)
        }
    }

    /// Encodes the instruction as the payload that `try_from_slice` reads back.
    pub fn to_bytes(&self) -> (bytes: Vec<u8>)
        ensures
            bytes@ == encode(*self),
    {
        let mut out: Vec<u8> = Vec::new();
        match self {
            SwapInstruction::SwapAtoB { amount } => {
                out.push(TAG_SWAP_A_TO_B);
                write_u64(&mut out, *amount);
            },
            SwapInstruction::SwapBtoA { amount } => {
                out.push(TAG_SWAP_B_TO_A);
                write_u64(&mut out, *amount);
            },
            SwapInstruction::CreateAccounts { amount_a, amount_b } => {
                out.push(TAG_CREATE_ACCOUNTS);
                write_u64(&mut out, *amount_a);
                write_u64(&mut out, *amount_b);
            },
        }
        assert(out@ =~= encode(*self));
        out
    }
}

} // verus!
