use vstd::prelude::*;
use vstd::string::StrSliceExecFns;

verus! {

/// A micro-coded opcode: `opcode / 6` picks a character of each step's
/// pattern and `opcode % 6` one bit of that character's base64 value; the
/// step runs when that bit is set. The patterns below give, for opcodes 0-7:
/// 0 and 4 `a + b`, 1 and 5 `a + b + c`, 2 and 6 `a - b`, 3 and 7 `a - b - c`;
/// from 8 on no step runs.
pub type Opcode = u32;

/// The three registers of the micro-coded machine.
#[derive(Clone, Copy, Debug, PartialEq, Eq, Structural)]
pub struct Registers {
    pub a: u32,
    pub b: u32,
    pub c: u32,
}

/// Pattern of the step that loads `a` into the accumulator: opcodes 0-7.
pub const LOAD_A: &'static str = "/DAAAAAAAAAA";

/// Pattern of the step that adds `b`: opcodes 0, 1, 4, 5.
pub const ADD_B: &'static str = "zAAAAAAAAAAA";

/// Pattern of the step that subtracts `b`: opcodes 2, 3, 6, 7.
pub const SUB_B: &'static str = "MDAAAAAAAAAA";

/// Pattern of the step that adds `c`: opcodes 1, 5.
pub const ADD_C: &'static str = "iAAAAAAAAAAA";

/// Pattern of the step that subtracts `c`: opcodes 3, 7.
pub const SUB_C: &'static str = "ICAAAAAAAAAA";

/// Pattern of the step that stores the accumulator into `a`: opcodes 0-7.
pub const STORE_A: &'static str = "/DAAAAAAAAAA";

/// The number of characters in every pattern: opcodes run below `6 * 12`.
pub const PATTERN_LEN: u32 = 12;

/// The value of a base64 digit given by its code point: `A-Z` are 0-25,
/// `a-z` 26-51, `0-9` 52-61, `+` 62, and every other code point 63.
pub open spec fn base64_value(v: u32) -> u32 {
    if 65 <= v <= 90 {
        (v - 65) as u32
    } else if 97 <= v <= 122 {
        (v - 97 + 26) as u32
    } else if 48 <= v <= 57 {
        (v - 48 + 52) as u32
    } else if v == 43 {
        62
    } else {
        63
    }
}

/// Whether the step with pattern `p` runs for `opcode`: it runs when the
/// opcode's bit of the pattern's digit is set.
pub open spec fn step_runs(p: Seq<char>, opcode: u32) -> bool {
    base64_value(p[(opcode / 6) as int] as u32) & (1u32 << (opcode % 6)) != 0
}

/// `x` reduced into the 32-bit range.
pub open spec fn wrap32(x: int) -> u32 {
    (x % 0x1_0000_0000) as u32
}

proof fn lemma_wrapping32(x: u32, y: u32)
    ensures
        x.wrapping_add(y) == wrap32(x + y),
        x.wrapping_sub(y) == wrap32(x - y),
{
}

/// The registers after running `opcode`: the steps that run, in order, load
/// `a` into an accumulator that starts at 0, add or subtract `b`, add or
/// subtract `c` (wrapping), and store the accumulator into `a`.
pub open spec fn micro_ops(r: Registers, opcode: u32) -> Registers {
    let t1: u32 = if step_runs(LOAD_A@, opcode) { r.a } else { 0 };
    let t2: u32 = if step_runs(ADD_B@, opcode) { wrap32(t1 + r.b) } else { t1 };
    let t3: u32 = if step_runs(SUB_B@, opcode) { wrap32(t2 - r.b) } else { t2 };
    let t4: u32 = if step_runs(ADD_C@, opcode) { wrap32(t3 + r.c) } else { t3 };
    let t5: u32 = if step_runs(SUB_C@, opcode) { wrap32(t4 - r.c) } else { t4 };
    Registers { a: if step_runs(STORE_A@, opcode) { t5 } else { r.a }, ..r }
}

/// The code point of a character.
fn char_to_u32(c: char) -> (r: u32)
    ensures
        r == c as u32,
{
    c as u32
}

/// The value of the base64 digit with code point `value`.
fn decode_base64(value: u32) -> (r: u32)
    ensures
        r == base64_value(value),
{
    if value >= char_to_u32('A') && value <= char_to_u32('Z') {
        value - char_to_u32('A')
    } else if value >= char_to_u32('a') && value <= char_to_u32('z') {
        value - char_to_u32('a') + 26
    } else if value >= char_to_u32('0') && value <= char_to_u32('9') {
        value - char_to_u32('0') + 52
    } else if value == char_to_u32('+') {
        62
    } else {
        63
    }
}

/// Whether the step with pattern `p` runs for `opcode`.
fn runs(p: &str, opcode: Opcode) -> (r: bool)
    requires
        opcode / 6 < p@.len(),
    ensures
        r == step_runs(p@, opcode),
{
    let digit = decode_base64(char_to_u32(p.get_char((opcode / 6) as usize)));
    digit & (1u32 << (opcode % 6)) != 0
}

/// Runs the steps that `opcode` selects on `registers`.
pub fn execute_instruction(registers: &mut Registers, opcode: Opcode)
    requires
        opcode < 6 * PATTERN_LEN,
    ensures
        *final(registers) == micro_ops(*old(registers), opcode),
{
    proof {
        reveal_strlit("/DAAAAAAAAAA");
        reveal_strlit("zAAAAAAAAAAA");
        reveal_strlit("MDAAAAAAAAAA");
        reveal_strlit("iAAAAAAAAAAA");
        reveal_strlit("ICAAAAAAAAAA");
    }
    let mut temp: u32 = 0;
    if runs(LOAD_A, opcode) {
        temp = registers.a;
    }
    if runs(ADD_B, opcode) {
        proof { lemma_wrapping32(temp, registers.b); }
        temp = temp.wrapping_add(registers.b);
    }
    if runs(SUB_B, opcode) {
        proof { lemma_wrapping32(temp, registers.b); }
        temp = temp.wrapping_sub(registers.b);
    }
    if runs(ADD_C, opcode) {
        proof { lemma_wrapping32(temp, registers.c); }
        temp = temp.wrapping_add(registers.c);
    }
    if runs(SUB_C, opcode) {
        proof { lemma_wrapping32(temp, registers.c); }
        temp = temp.wrapping_sub(registers.c);
    }
    if runs(STORE_A, opcode) {
        registers.a = temp;
    }
}

} // verus!
