//! Bit-exact decoding of one byte into one instruction.
//!
//! Bits 7 and 6 hold the tone, bits 5 to 3 the operation, and bits 2, 1, 0
//! the three specifier flags, in that order.

use vstd::prelude::*;

verus! {

/// The social tone that prefixes every instruction.
#[derive(Clone, Copy, Debug, PartialEq, Eq, Structural)]
pub enum PrefixType {
    PoliteStrong,
    Polite,
    Demanding,
    DemandingStrong,
}

/// The eight operation kinds.
#[derive(Clone, Copy, Debug, PartialEq, Eq, Structural)]
pub enum OperationType {
    Increment,
    To,
    Access,
    Loop,
    BranchIfGreater,
    BranchIfZero,
    BranchIfEqual,
    Jump,
}

/// One decoded instruction: a tone, an operation and three specifier flags.
/// `s0` comes from bit 2 of the byte, `s1` from bit 1, `s2` from bit 0.
#[derive(Clone, Copy, Debug, PartialEq, Eq, Structural)]
pub struct Instruction {
    pub tone: PrefixType,
    pub operation: OperationType,
    pub s0: bool,
    pub s1: bool,
    pub s2: bool,
}

/// The two-bit code of a tone.
pub open spec fn tone_code(t: PrefixType) -> int {
    match t {
        PrefixType::PoliteStrong => 3,
        PrefixType::Polite => 2,
        PrefixType::Demanding => 1,
        PrefixType::DemandingStrong => 0,
    }
}

/// The three-bit code of an operation.
pub open spec fn operation_code(o: OperationType) -> int {
    match o {
        OperationType::Increment => 0,
        OperationType::To => 1,
        OperationType::Access => 2,
        OperationType::Loop => 3,
        OperationType::BranchIfGreater => 4,
        OperationType::BranchIfZero => 5,
        OperationType::BranchIfEqual => 6,
        OperationType::Jump => 7,
    }
}

pub open spec fn tone_of_code(c: int) -> PrefixType {
    if c == 3 {
        PrefixType::PoliteStrong
    } else if c == 2 {
        PrefixType::Polite
    } else if c == 1 {
        PrefixType::Demanding
    } else {
        PrefixType::DemandingStrong
    }
}

pub open spec fn operation_of_code(c: int) -> OperationType {
    if c == 0 {
        OperationType::Increment
    } else if c == 1 {
        OperationType::To
    } else if c == 2 {
        OperationType::Access
    } else if c == 3 {
        OperationType::Loop
    } else if c == 4 {
        OperationType::BranchIfGreater
    } else if c == 5 {
        OperationType::BranchIfZero
    } else if c == 6 {
        OperationType::BranchIfEqual
    } else {
        OperationType::Jump
    }
}

pub open spec fn bit(b: bool) -> int {
    if b { 1 } else { 0 }
}

/// The instruction that a byte stands for.
pub open spec fn decoded(byte: u8) -> Instruction {
    Instruction {
        tone: tone_of_code(byte as int / 64),
        operation: operation_of_code((byte as int / 8) % 8),
        s0: (byte as int / 4) % 2 == 1,
        s1: (byte as int / 2) % 2 == 1,
        s2: byte as int % 2 == 1,
    }
}

/// The byte that an instruction is written as.
pub open spec fn encoded(ins: Instruction) -> int {
    tone_code(ins.tone) * 64 + operation_code(ins.operation) * 8 + bit(ins.s0) * 4 + bit(ins.s1)
        * 2 + bit(ins.s2)
}

impl PrefixType {
    /// The tone of a two-bit code, most significant bit first.
    pub fn find(code: [bool; 2]) -> (r: PrefixType)
        ensures
            tone_code(r) == bit(code[0]) * 2 + bit(code[1]),
    {
        if code[0] {
            if code[1] {
                PrefixType::PoliteStrong
            } else {
                PrefixType::Polite
            }
        } else {
            if code[1] {
                PrefixType::Demanding
            } else {
                PrefixType::DemandingStrong
            }
        }
    }

    /// Polite and PoliteStrong use the polite register pair and move the
    /// program counter forward; the other two use the demanding pair and move
    /// it backward.
    pub fn is_polite_family(self) -> (r: bool)
        ensures
            r == is_polite(self),
    {
        match self {
            PrefixType::PoliteStrong => true,
            PrefixType::Polite => true,
            _ => false,
        }
    }
}

pub open spec fn is_polite(t: PrefixType) -> bool {
    t == PrefixType::Polite || t == PrefixType::PoliteStrong
}

impl OperationType {
    /// The operation of a three-bit code, most significant bit first.
    pub fn find(code: [bool; 3]) -> (r: OperationType)
        ensures
            operation_code(r) == bit(code[0]) * 4 + bit(code[1]) * 2 + bit(code[2]),
    {
        if code[0] {
            if code[1] {
                if code[2] {
                    OperationType::Jump
                } else {
                    OperationType::BranchIfEqual
                }
            } else {
                if code[2] {
                    OperationType::BranchIfZero
                } else {
                    OperationType::BranchIfGreater
                }
            }
        } else {
            if code[1] {
                if code[2] {
                    OperationType::Loop
                } else {
                    OperationType::Access
                }
            } else {
                if code[2] {
                    OperationType::To
                } else {
                    OperationType::Increment
                }
            }
        }
    }
}

proof fn lemma_codes(c: int)
    ensures
        0 <= c < 4 ==> tone_code(tone_of_code(c)) == c,
        0 <= c < 8 ==> operation_code(operation_of_code(c)) == c,
{
}

proof fn lemma_code_bits(b: u8)
    ensures
        b / 64 == (if b / 128 == 1 { 2u8 } else { 0u8 }) + (if (b / 64) % 2 == 1 { 1u8 } else { 0u8 }),
        (b / 8) % 8 == (if (b / 32) % 2 == 1 { 4u8 } else { 0u8 }) + (if (b / 16) % 2 == 1 { 2u8 } else { 0u8 })
            + (if (b / 8) % 2 == 1 { 1u8 } else { 0u8 }),
{
    assert(b / 64 == (if b / 128 == 1 { 2u8 } else { 0u8 }) + (if (b / 64) % 2 == 1 { 1u8 } else { 0u8 }))
        by (bit_vector);
    assert((b / 8) % 8 == (if (b / 32) % 2 == 1 { 4u8 } else { 0u8 }) + (if (b / 16) % 2 == 1 { 2u8 } else { 0u8 })
        + (if (b / 8) % 2 == 1 { 1u8 } else { 0u8 })) by (bit_vector);
}

/// Decodes one byte. Every byte stands for exactly one instruction.
pub fn convert_to_instruction(byte: u8) -> (r: Instruction)
    ensures
        r == decoded(byte),
        encoded(r) == byte as int,
{
    let tone = PrefixType::find([byte / 128 == 1, (byte / 64) % 2 == 1]);
    let operation = OperationType::find([(byte / 32) % 2 == 1, (byte / 16) % 2 == 1, (byte / 8) % 2 == 1]);
    proof {
        lemma_codes(byte as int / 64);
        lemma_codes((byte as int / 8) % 8);
        lemma_code_bits(byte);
        lemma_decode_then_encode(byte);
    }
    Instruction { tone, operation, s0: (byte / 4) % 2 == 1, s1: (byte / 2) % 2 == 1, s2: byte % 2 == 1 }
}

/// Decodes a whole program, one instruction per byte.
pub fn decode_program(bytes: &[u8]) -> (r: Vec<Instruction>)
    ensures
        r@.len() == bytes@.len(),
        forall|i: int| 0 <= i < bytes@.len() ==> r@[i] == decoded(bytes@[i]),
{
    let mut r: Vec<Instruction> = Vec::new();
    let mut i: usize = 0;
    while i < bytes.len()
        invariant
            0 <= i <= bytes@.len(),
            r@.len() == i,
            forall|j: int| 0 <= j < i ==> r@[j] == decoded(bytes@[j]),
        decreases bytes@.len() - i,
    {
        r.push(convert_to_instruction(bytes[i]));
        i = i + 1;
    }
    r
}

/// Writes an instruction back as the byte it was decoded from.
pub fn encode(ins: Instruction) -> (r: u8)
    ensures
        r as int == encoded(ins),
        decoded(r) == ins,
{
    let t: u8 = match ins.tone {
        PrefixType::PoliteStrong => 3,
        PrefixType::Polite => 2,
        PrefixType::Demanding => 1,
        PrefixType::DemandingStrong => 0,
    };
    let o: u8 = match ins.operation {
        OperationType::Increment => 0,
        OperationType::To => 1,
        OperationType::Access => 2,
        OperationType::Loop => 3,
        OperationType::BranchIfGreater => 4,
        OperationType::BranchIfZero => 5,
        OperationType::BranchIfEqual => 6,
        OperationType::Jump => 7,
    };
    let a: u8 = if ins.s0 { 4 } else { 0 };
    let b: u8 = if ins.s1 { 2 } else { 0 };
    let c: u8 = if ins.s2 { 1 } else { 0 };
    let r: u8 = t * 64 + o * 8 + a + b + c;
    proof {
        lemma_encoded_decodes(ins);
    }
    r
}

/// Decoding is total and exact: re-encoding the instruction of any byte gives
/// the byte back.
pub proof fn lemma_decode_then_encode(byte: u8)
    ensures
        encoded(decoded(byte)) == byte as int,
{
    let b = byte as int;
    lemma_codes(b / 64);
    lemma_codes((b / 8) % 8);
    assert(b == (b / 64) * 64 + ((b / 8) % 8) * 8 + ((b / 4) % 2) * 4 + ((b / 2) % 2) * 2 + b % 2)
        by (nonlinear_arith)
        requires
            0 <= b < 256,
    ;
}

/// Encoding is exact the other way too: decoding the byte of an instruction
/// gives the instruction back.
pub proof fn lemma_encode_then_decode(ins: Instruction)
    ensures
        0 <= encoded(ins) < 256,
        decoded(encoded(ins) as u8) == ins,
{
    lemma_encoded_decodes(ins);
}

proof fn lemma_encoded_decodes(ins: Instruction)
    ensures
        0 <= encoded(ins) < 256,
        decoded(encoded(ins) as u8) == ins,
{
    let t = tone_code(ins.tone);
    let o = operation_code(ins.operation);
    let e = encoded(ins);
    assert(0 <= t < 4 && 0 <= o < 8);
    assert(e / 64 == t && (e / 8) % 8 == o && (e / 4) % 2 == bit(ins.s0) && (e / 2) % 2 == bit(ins.s1)
        && e % 2 == bit(ins.s2)) by (nonlinear_arith)
        requires
            e == t * 64 + o * 8 + bit(ins.s0) * 4 + bit(ins.s1) * 2 + bit(ins.s2),
            0 <= t < 4,
            0 <= o < 8,
            0 <= bit(ins.s0) <= 1,
            0 <= bit(ins.s1) <= 1,
            0 <= bit(ins.s2) <= 1,
    ;
}

} // verus!
