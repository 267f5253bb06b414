use vstd::prelude::*;
use crate::flags::{StatusRegFlags, flag_set};
use crate::model::{
    CpuView, STACK_BASE, adc_result, byte_at, clock_spec, complement, execute_spec, instr_spec,
    branch_taken, flag, lemma_instr_bounds, lemma_resolve_bounds, page, push_spec, resolve_spec, sign_extend,
    with_pc, wrap16, wrap64, wrap8,
};
use crate::opcode_table::{
    Instr, is_branch, lemma_base_cycles, opcode_entry, operand_len, pays_page_penalty,
    transfers_control,
};

verus! {

/// Decoding and running one opcode: counting the current tick, it takes the
/// table's base cycles, plus at most one page-crossing cycle (only for the
/// instructions that pay it), plus at most two for a taken branch; unless the
/// instruction transfers control, or is a branch not taken, PC ends just past
/// its operand bytes.
pub proof fn lemma_execute_timing(s: CpuView, op: u8)
    ensures
        ({
            let e = opcode_entry(op);
            let t = execute_spec(s, op);
            &&& e.cycles <= t.cycles + 1 <= e.cycles + if is_branch(e.instr) { 2int } else { 1int }
            &&& !is_branch(e.instr) && !pays_page_penalty(e.instr) ==> t.cycles + 1 == e.cycles
            &&& !transfers_control(e.instr) ==> t.regs.pc == wrap16(s.regs.pc + operand_len(e.mode))
            &&& is_branch(e.instr) && !branch_taken(e.instr, s.regs.status) ==> {
                &&& t.regs.pc == wrap16(s.regs.pc + operand_len(e.mode))
                &&& t.cycles + 1 == e.cycles
            }
        }),
{
    reveal(execute_spec);
    let e = opcode_entry(op);
    lemma_base_cycles(op);
    let s1 = CpuView { mode: e.mode, cycles: e.cycles, ..s };
    lemma_resolve_bounds(s1, e.mode);
    let s2 = resolve_spec(s1, e.mode).0;
    lemma_instr_bounds(s2, e.instr);
}

/// One tick at an instruction boundary, with no interrupt waiting, runs the
/// instruction at PC. Counting that tick, the instruction then takes its
/// table's base cycles, plus at most one page-crossing cycle (only for the
/// instructions that pay it), plus at most two for a taken branch. An
/// instruction that does not transfer control, and a branch that is not
/// taken, leave PC just past the instruction's own encoding: the opcode byte
/// and its operand bytes.
pub proof fn lemma_instruction_timing(s: CpuView)
    requires
        s.cycles == 0,
        !s.nmi_pending,
        !s.irq_pending,
    ensures
        ({
            let e = opcode_entry(byte_at(s, s.regs.pc));
            let t = clock_spec(s);
            &&& e.cycles <= t.cycles + 1 <= e.cycles + if is_branch(e.instr) { 2int } else { 1int }
            &&& !is_branch(e.instr) && !pays_page_penalty(e.instr) ==> t.cycles + 1 == e.cycles
            &&& !transfers_control(e.instr) ==> t.regs.pc == wrap16(
                s.regs.pc + 1 + operand_len(e.mode),
            )
            &&& is_branch(e.instr) && !branch_taken(e.instr, s.regs.status) ==> {
                &&& t.regs.pc == wrap16(s.regs.pc + 1 + operand_len(e.mode))
                &&& t.cycles + 1 == e.cycles
            }
        }),
{
    let op = byte_at(s, s.regs.pc);
    let e = opcode_entry(op);
    let pc1 = wrap16(s.regs.pc + 1);
    let s1 = with_pc(CpuView { irq_pending: false, ..s }, pc1);
    lemma_execute_timing(s1, op);
    assert(wrap16(pc1 + operand_len(e.mode)) == wrap16(s.regs.pc + 1 + operand_len(e.mode)))
        by {
        vstd::arithmetic::div_mod::lemma_add_mod_noop(
            s.regs.pc + 1,
            operand_len(e.mode),
            0x10000,
        );
        vstd::arithmetic::div_mod::lemma_mod_twice(operand_len(e.mode), 0x10000);
        vstd::arithmetic::div_mod::lemma_add_mod_noop(
            (s.regs.pc + 1) % 0x10000,
            operand_len(e.mode),
            0x10000,
        );
    }
}

/// BEQ takes two cycles when Z is clear, three when it branches within the
/// page of the next instruction, and four when it branches into another page;
/// it leaves PC at the branch target when taken and at the next instruction
/// otherwise.
pub proof fn lemma_beq_timing(s: CpuView)
    requires
        s.cycles == 0,
        !s.nmi_pending,
        !s.irq_pending,
        byte_at(s, s.regs.pc) == 0xF0,
    ensures
        ({
            let next = wrap16(s.regs.pc + 2);
            let target = wrap16(next + sign_extend(byte_at(s, wrap16(s.regs.pc + 1))));
            let t = clock_spec(s);
            &&& t.cycles + 1 == if !flag(s, StatusRegFlags::Z) {
                2int
            } else if page(target) == page(next) {
                3int
            } else {
                4int
            }
            &&& t.regs.pc == if flag(s, StatusRegFlags::Z) { target } else { next }
        }),
{
    reveal(execute_spec);
    reveal(opcode_entry);
    let pc1 = wrap16(s.regs.pc + 1);
    assert(wrap16(pc1 + 1) == wrap16(s.regs.pc + 2)) by {
        vstd::arithmetic::div_mod::lemma_add_mod_noop(s.regs.pc + 1, 1, 0x10000);
        vstd::arithmetic::div_mod::lemma_add_mod_noop(pc1 as int, 1, 0x10000);
        vstd::arithmetic::div_mod::lemma_mod_twice(s.regs.pc + 1, 0x10000);
    }
}

/// The state after `n` clock ticks.
pub open spec fn ticks(s: CpuView, n: nat) -> CpuView
    decreases n,
{
    if n == 0 {
        s
    } else {
        ticks(clock_spec(s), (n - 1) as nat)
    }
}

proof fn lemma_wrap64_add(x: int, n: int)
    ensures
        wrap64(wrap64(x) + n) == wrap64(x + n),
{
    vstd::arithmetic::div_mod::lemma_add_mod_noop(x, n, 0x1_0000_0000_0000_0000);
    vstd::arithmetic::div_mod::lemma_mod_twice(x, 0x1_0000_0000_0000_0000);
    vstd::arithmetic::div_mod::lemma_add_mod_noop(x % 0x1_0000_0000_0000_0000, n, 0x1_0000_0000_0000_0000);
}

/// While an instruction is in flight a tick only counts down: after `n`
/// ticks, `n` at most the cycles left, `cycles` is `n` less, `total_cycles`
/// is `n` more (wrapping at 2^64), and nothing else has changed.
pub proof fn lemma_count_down(s: CpuView, n: nat)
    requires
        n <= s.cycles,
    ensures
        ticks(s, n) == (CpuView {
            cycles: (s.cycles - n) as u8,
            total_cycles: wrap64(s.total_cycles + n),
            ..s
        }),
    decreases n,
{
    if n == 0 {
        vstd::arithmetic::div_mod::lemma_small_mod(s.total_cycles as nat, 0x1_0000_0000_0000_0000);
    } else {
        let t = clock_spec(s);
        lemma_count_down(t, (n - 1) as nat);
        lemma_wrap64_add(s.total_cycles + 1, n - 1);
    }
}

/// From an instruction boundary with no interrupt waiting, the instruction at
/// PC takes exactly `cost` ticks, `cost` bounded as in
/// `lemma_instruction_timing`: the processor is at a boundary again after
/// `cost` ticks and at none before, `total_cycles` has grown by exactly
/// `cost`, and the registers and memory are those left by the first tick.
pub proof fn lemma_instruction_completes(s: CpuView)
    requires
        s.cycles == 0,
        !s.nmi_pending,
        !s.irq_pending,
    ensures
        ({
            let t = clock_spec(s);
            let cost: nat = (t.cycles + 1) as nat;
            &&& ticks(s, cost).cycles == 0
            &&& forall|k: nat| 1 <= k < cost ==> #[trigger] ticks(s, k).cycles != 0
            &&& ticks(s, cost).total_cycles == wrap64(s.total_cycles + cost)
            &&& ticks(s, cost).regs == t.regs
            &&& ticks(s, cost).mem == t.mem
        }),
{
    let t = clock_spec(s);
    let cost: nat = (t.cycles + 1) as nat;
    lemma_count_down(t, t.cycles as nat);
    assert(ticks(s, cost) == ticks(t, t.cycles as nat));
    lemma_wrap64_add(s.total_cycles + 1, t.cycles as int);
    assert forall|k: nat| 1 <= k < cost implies #[trigger] ticks(s, k).cycles != 0 by {
        assert(ticks(s, k) == ticks(t, (k - 1) as nat));
        lemma_count_down(t, (k - 1) as nat);
    }
}

/// The accumulator after SBC: ADC of the operand's one's complement.
pub open spec fn sbc_result(a: u8, m: u8, status: u8) -> u8 {
    adc_result(a, complement(m), status)
}

/// SBC undoes ADC: adding `b` with carry-in `c` and then subtracting `b` with
/// carry-in `1 - c` gives back `a`, for every `a`, `b` and `c`.
pub proof fn lemma_adc_sbc_round_trip(a: u8, b: u8, adc_status: u8, sbc_status: u8)
    requires
        flag_set(sbc_status, StatusRegFlags::C) != flag_set(adc_status, StatusRegFlags::C),
    ensures
        sbc_result(adc_result(a, b, adc_status), b, sbc_status) == a,
{
    let c: int = if flag_set(adc_status, StatusRegFlags::C) { 1 } else { 0 };
    let r = (a + b + c) % 0x100;
    assert((r + (0xFF - b) + (1 - c)) % 0x100 == a as int) by {
        vstd::arithmetic::div_mod::lemma_add_mod_noop(a + b + c, 0x100 - b - c, 0x100);
        vstd::arithmetic::div_mod::lemma_mod_twice(0x100 - b - c, 0x100);
        vstd::arithmetic::div_mod::lemma_mod_add_multiples_vanish(a as int, 0x100);
        vstd::arithmetic::div_mod::lemma_add_mod_noop(r, 0x100 - b - c, 0x100);
        vstd::arithmetic::div_mod::lemma_mod_twice(a + b + c, 0x100);
    }
}

/// PHA pushes the accumulator and does nothing else.
pub proof fn lemma_pha_pushes(s: CpuView)
    ensures
        instr_spec(s, Instr::PHA).0 == push_spec(s, s.regs.a),
{
}

/// The state after PHA has run `n` times.
pub open spec fn pha_times(s: CpuView, n: nat) -> CpuView
    decreases n,
{
    if n == 0 {
        s
    } else {
        let t = pha_times(s, (n - 1) as nat);
        push_spec(t, t.regs.a)
    }
}

/// Each PHA moves SP down by one, wrapping within the stack page.
pub proof fn lemma_pushes_move_sp(s: CpuView, n: nat)
    ensures
        pha_times(s, n).regs.sp == wrap8(s.regs.sp - n),
    decreases n,
{
    if n > 0 {
        lemma_pushes_move_sp(s, (n - 1) as nat);
        let p = pha_times(s, (n - 1) as nat).regs.sp;
        assert(wrap8(p - 1) == wrap8(s.regs.sp - n)) by {
            vstd::arithmetic::div_mod::lemma_add_mod_noop(s.regs.sp - (n - 1), -1, 0x100);
            vstd::arithmetic::div_mod::lemma_mod_twice(-1, 0x100);
            vstd::arithmetic::div_mod::lemma_add_mod_noop(p as int, -1, 0x100);
        }
    }
}

/// 256 pushes bring SP back to where it started: the stack wraps within its
/// page and never leaves it.
pub proof fn lemma_stack_wraps(s: CpuView)
    ensures
        pha_times(s, 256).regs.sp == s.regs.sp,
{
    lemma_pushes_move_sp(s, 256);
    vstd::arithmetic::div_mod::lemma_mod_add_multiples_vanish(s.regs.sp - 256, 0x100);
}

/// After `n` pushes, `n` at most 256, A is unchanged and the `n` slots below
/// the starting SP (wrapping within the stack page) hold A.
pub proof fn lemma_pushes_fill(s: CpuView, n: nat)
    requires
        s.mem.len() == 0x10000,
        n <= 256,
    ensures
        pha_times(s, n).regs.a == s.regs.a,
        pha_times(s, n).mem.len() == 0x10000,
        forall|j: int|
            0 <= j < n ==> #[trigger] pha_times(s, n).mem[STACK_BASE + wrap8(s.regs.sp - j)]
                == s.regs.a,
    decreases n,
{
    if n > 0 {
        let m = (n - 1) as nat;
        lemma_pushes_fill(s, m);
        lemma_pushes_move_sp(s, m);
        assert forall|j: int| 0 <= j < n implies #[trigger] pha_times(s, n).mem[STACK_BASE
            + wrap8(s.regs.sp - j)] == s.regs.a by {
            if j < m {
                vstd::arithmetic::div_mod::lemma_mod_equivalence(s.regs.sp - j, s.regs.sp - m, 0x100);
                vstd::arithmetic::div_mod::lemma_small_mod((m - j) as nat, 0x100);
            }
        }
    }
}

/// 256 pushes fill the whole stack page with the accumulator.
pub proof fn lemma_stack_page_filled(s: CpuView)
    requires
        s.mem.len() == 0x10000,
    ensures
        forall|k: int| 0x100 <= k < 0x200 ==> #[trigger] pha_times(s, 256).mem[k] == s.regs.a,
{
    lemma_pushes_fill(s, 256);
    assert forall|k: int| 0x100 <= k < 0x200 implies #[trigger] pha_times(s, 256).mem[k]
        == s.regs.a by {
        let k1 = k - 0x100;
        let j = (s.regs.sp - k1) % 0x100;
        vstd::arithmetic::div_mod::lemma_fundamental_div_mod(s.regs.sp - k1, 0x100);
        let q = (s.regs.sp - k1) / 0x100;
        assert(s.regs.sp - j == 0x100 * q + k1);
        vstd::arithmetic::div_mod::lemma_mod_multiples_vanish(q, k1, 0x100);
        vstd::arithmetic::div_mod::lemma_small_mod(k1 as nat, 0x100);
        assert(wrap8(s.regs.sp - j) == k1);
        assert(pha_times(s, 256).mem[STACK_BASE + wrap8(s.regs.sp - j)] == s.regs.a);
    }
}

} // verus!
