//! Properties of the processor model that span several operations.
use vstd::prelude::*;

use crate::cpu::{
    asl_ok, asl_spec, adc_spec, and_spec, branch_spec, final_state, flag_set, halts,
    halts_within, in_memory, inx_spec, lda_spec, ldx_spec, ldy_spec, load_spec, operand, power_on_state,
    operand_address, reset_spec, sec_spec, run_spec, signed_overflow, signed_value, step_spec, tax_spec, with_flag,
    zn_flags, CpuState, Step, CARRY_FLAG, MEMORY_SIZE, NEGATIVE_FLAG, OVERFLOW_FLAG,
    PROGRAM_START, RESET_VECTOR, ZERO_FLAG,
};
use crate::instructions::{AddressingMode, opcode_table};

verus! {

/// Setting or clearing one status flag decides that flag and keeps every other one.
pub proof fn law_with_flag(status: u8, flag: u8, on: bool, other: u8)
    requires
        flag == CARRY_FLAG || flag == ZERO_FLAG || flag == OVERFLOW_FLAG || flag == NEGATIVE_FLAG,
        other == CARRY_FLAG || other == ZERO_FLAG || other == OVERFLOW_FLAG || other
            == NEGATIVE_FLAG,
    ensures
        flag_set(with_flag(status, flag, on), flag) == on,
        other != flag ==> flag_set(with_flag(status, flag, on), other) == flag_set(status, other),
{
    assert(flag_set(with_flag(status, flag, on), flag) == on && (other != flag ==> flag_set(
        with_flag(status, flag, on),
        other,
    ) == flag_set(status, other))) by (bit_vector)
        requires
            flag == 1u8 || flag == 2u8 || flag == 0x40u8 || flag == 0x80u8,
            other == 1u8 || other == 2u8 || other == 0x40u8 || other == 0x80u8,
    ;
}

/// After an instruction produces `result`, the zero flag tells whether it
/// is zero, the negative flag whether its bit 7 is set, and every other
/// bit of the status stays as it was.
pub proof fn law_zero_and_negative_flags(status: u8, result: u8)
    ensures
        (zn_flags(status, result) & 0x02 != 0) == (result == 0),
        (zn_flags(status, result) & 0x80 != 0) == (result >= 128),
        zn_flags(status, result) & 0x7d == status & 0x7d,
{
    assert(flag_set(zn_flags(status, result), ZERO_FLAG) == (result == 0)) by (bit_vector);
    assert(flag_set(zn_flags(status, result), NEGATIVE_FLAG) == (result >= 128)) by (bit_vector);
    assert(zn_flags(status, result) & 0x7d == status & 0x7d) by (bit_vector);
}

/// A byte written to memory is read back, and no other byte changes.
pub proof fn law_read_after_write(s: CpuState, addr: int, other: int, val: u8)
    requires
        s.mem.len() == MEMORY_SIZE,
        in_memory(addr),
        in_memory(other),
    ensures
        s.write(addr, val).read(addr) == val,
        other != addr ==> s.write(addr, val).read(other) == s.read(other),
        s.write(addr, val).mem.len() == MEMORY_SIZE,
{
}

/// A word written little-endian to memory is read back whole.
pub proof fn law_word_round_trip(s: CpuState, pos: int, data: u16)
    requires
        s.mem.len() == MEMORY_SIZE,
        0 <= pos,
        in_memory(pos + 1),
    ensures
        s.write_u16(pos, data).read_u16(pos) == data,
{
}

/// Words are little-endian: the low byte stands at the lower address.
/// Reading a word reads its two bytes; writing one writes its two bytes
/// and nothing else.
pub proof fn law_word_layout(s: CpuState, pos: int, addr: int, data: u16)
    requires
        s.mem.len() == MEMORY_SIZE,
        0 <= pos,
        in_memory(pos + 1),
        in_memory(addr),
    ensures
        s.read(addr) == s.mem[addr],
        s.read_u16(pos) == s.mem[pos] + 256 * s.mem[pos + 1],
        s.write_u16(pos, data).mem[pos] == data % 256,
        s.write_u16(pos, data).mem[pos + 1] == data / 256,
        addr != pos && addr != pos + 1 ==> s.write_u16(pos, data).mem[addr] == s.mem[addr],
        s.write_u16(pos, data).mem.len() == MEMORY_SIZE,
        s.write_u16(pos, data) == (CpuState { mem: s.write_u16(pos, data).mem, ..s }),
{
}

/// At power-on every register, the status and every byte of memory are zero.
pub proof fn law_power_on(addr: int)
    requires
        in_memory(addr),
    ensures
        power_on_state().a == 0 && power_on_state().x == 0 && power_on_state().y == 0,
        power_on_state().status == 0 && power_on_state().pc == 0 && power_on_state().sp == 0,
        power_on_state().mem.len() == MEMORY_SIZE,
        power_on_state().mem[addr] == 0,
{
}

/// Reset clears A, X, Y and the status, takes the program counter from the
/// little-endian word at 0xFFFC, and keeps the stack pointer and memory.
pub proof fn law_reset(s: CpuState)
    ensures
        reset_spec(s).a == 0 && reset_spec(s).x == 0 && reset_spec(s).y == 0,
        reset_spec(s).status == 0,
        reset_spec(s).pc == s.mem[0xfffc] + 256 * s.mem[0xfffd],
        reset_spec(s).sp == s.sp && reset_spec(s).mem == s.mem,
{
}

/// After a program is loaded and the processor reset, execution starts at
/// `PROGRAM_START`, the registers and the status are clear, and the
/// program's bytes stand at `PROGRAM_START` onwards (but for any that the
/// reset vector covers).
pub proof fn law_load_then_reset(s: CpuState, program: Seq<u8>, i: int)
    requires
        s.mem.len() == MEMORY_SIZE,
        PROGRAM_START + program.len() <= MEMORY_SIZE,
    ensures
        reset_spec(load_spec(s, program)).pc == PROGRAM_START,
        reset_spec(load_spec(s, program)).a == 0,
        reset_spec(load_spec(s, program)).x == 0,
        reset_spec(load_spec(s, program)).y == 0,
        reset_spec(load_spec(s, program)).status == 0,
        0 <= i < program.len() && PROGRAM_START + i < RESET_VECTOR ==> reset_spec(
            load_spec(s, program),
        ).read(PROGRAM_START + i) == program[i],
        in_memory(i) && !(PROGRAM_START <= i < PROGRAM_START + program.len()) && i != 0xfffc && i
            != 0xfffd ==> load_spec(s, program).mem[i] == s.mem[i],
        load_spec(s, program).mem.len() == MEMORY_SIZE,
        load_spec(s, program) == (CpuState { mem: load_spec(s, program).mem, ..s }),
{
}

/// ADC computes the unsigned sum of the accumulator, the operand and the
/// carry: the new accumulator holds its low byte and the carry its ninth
/// bit. The overflow flag tells whether the signed sum leaves the signed
/// byte range, which a positive and a negative operand never do. Only the
/// accumulator and the status change.
pub proof fn law_adc(s: CpuState, mode: AddressingMode)
    ensures
        ({
            let t = adc_spec(s, mode);
            let m = s.mem[operand_address(s, mode) as int];
            let c: int = if s.status & 0x01 != 0 { 1 } else { 0 };
            let c_out: int = if t.status & 0x01 != 0 { 1 } else { 0 };
            let sa: int = if s.a < 128 { s.a as int } else { s.a - 256 };
            let sm: int = if m < 128 { m as int } else { m - 256 };
            &&& t.a + 256 * c_out == s.a + m + c
            &&& (t.status & 0x40 != 0) == (sa + sm + c < -128 || sa + sm + c > 127)
            &&& ((s.a < 128) != (m < 128) ==> t.status & 0x40 == 0)
            &&& (t.status & 0x02 != 0) == (t.a == 0)
            &&& (t.status & 0x80 != 0) == (t.a >= 128)
            &&& t.status & 0x3c == s.status & 0x3c
            &&& t == (CpuState { a: t.a, status: t.status, ..s })
        }),
{
    let t = adc_spec(s, mode);
    let m = operand(s, mode);
    let c: int = if flag_set(s.status, CARRY_FLAG) { 1 } else { 0 };
    let sum = s.a + m + c;
    let r = (sum % 256) as u8;
    let z = zn_flags(s.status, r);
    let v = with_flag(z, OVERFLOW_FLAG, signed_overflow(s.a, m, c));
    law_zero_and_negative_flags(s.status, r);
    law_with_flag(z, OVERFLOW_FLAG, signed_overflow(s.a, m, c), ZERO_FLAG);
    law_with_flag(z, OVERFLOW_FLAG, signed_overflow(s.a, m, c), NEGATIVE_FLAG);
    law_with_flag(v, CARRY_FLAG, sum > 255, OVERFLOW_FLAG);
    law_with_flag(v, CARRY_FLAG, sum > 255, ZERO_FLAG);
    law_with_flag(v, CARRY_FLAG, sum > 255, NEGATIVE_FLAG);
    assert(flag_set(z, ZERO_FLAG) == (r == 0));
    assert(flag_set(z, NEGATIVE_FLAG) == (r >= 128));
    let st = s.status;
    let ov = signed_overflow(s.a, m, c);
    let co = sum > 255;
    assert(with_flag(with_flag(zn_flags(st, r), 0x40, ov), 0x01, co) & 0x3c == st & 0x3c)
        by (bit_vector);
}

/// Whether the carry and the overflow flag read the same in both status values.
pub open spec fn keeps_carry_and_overflow(before: u8, after: u8) -> bool {
    &&& flag_set(after, CARRY_FLAG) == flag_set(before, CARRY_FLAG)
    &&& flag_set(after, OVERFLOW_FLAG) == flag_set(before, OVERFLOW_FLAG)
}

/// The loads, AND, TAX and INX set only the zero and negative flags: the
/// carry and the overflow flag keep their values.
pub proof fn law_loads_keep_carry_and_overflow(s: CpuState, mode: AddressingMode)
    ensures
        keeps_carry_and_overflow(s.status, lda_spec(s, mode).status),
        keeps_carry_and_overflow(s.status, ldx_spec(s, mode).status),
        keeps_carry_and_overflow(s.status, ldy_spec(s, mode).status),
        keeps_carry_and_overflow(s.status, and_spec(s, mode).status),
        keeps_carry_and_overflow(s.status, tax_spec(s).status),
        keeps_carry_and_overflow(s.status, inx_spec(s).status),
{
    assert forall|r: u8| #[trigger] keeps_carry_and_overflow(s.status, zn_flags(s.status, r)) by {
        law_zero_and_negative_flags(s.status, r);
        let st = s.status;
        assert(st & 0x7d == zn_flags(st, r) & 0x7d ==> keeps_carry_and_overflow(
            st,
            zn_flags(st, r),
        )) by (bit_vector);
    }
}

/// ASL moves bit 7 of its operand into the carry and doubles the operand
/// modulo 256; on memory it leaves the accumulator alone, on the
/// accumulator it leaves memory alone.
pub proof fn law_asl(s: CpuState, mode: AddressingMode)
    requires
        s.mem.len() == MEMORY_SIZE,
        asl_ok(s, mode),
    ensures
        ({
            let t = asl_spec(s, mode);
            let on_a = mode == AddressingMode::NoneAddressing;
            let addr = operand_address(s, mode) as int;
            let value = if on_a { s.a } else { s.mem[addr] };
            let result = if on_a { t.a } else { t.mem[addr] };
            &&& result == (value * 2) % 256
            &&& (t.status & 0x01 != 0) == (value >= 128)
            &&& (t.status & 0x02 != 0) == (result == 0)
            &&& (t.status & 0x80 != 0) == (result >= 128)
            &&& t.status & 0x7c == s.status & 0x7c
            &&& (on_a ==> t.mem == s.mem)
            &&& (!on_a ==> t.a == s.a && t.mem == s.mem.update(addr, result))
            &&& t.x == s.x && t.y == s.y && t.pc == s.pc && t.sp == s.sp
        }),
{
    let on_a = mode == AddressingMode::NoneAddressing;
    let value = if on_a { s.a } else { operand(s, mode) };
    let result = ((value * 2) % 256) as u8;
    let st = with_flag(s.status, CARRY_FLAG, value >= 128);
    law_with_flag(s.status, CARRY_FLAG, value >= 128, CARRY_FLAG);
    law_zero_and_negative_flags(st, result);
    assert(flag_set(zn_flags(st, result), CARRY_FLAG) == flag_set(st, CARRY_FLAG)) by (bit_vector);
    let s0 = s.status;
    let b = value >= 128;
    assert(zn_flags(with_flag(s0, 0x01, b), result) & 0x7c == s0 & 0x7c) by (bit_vector);
}

/// Two shifts of the accumulator multiply it by four modulo 256: the carry
/// ends up holding bit 6 of the first value (the second shift replaces the
/// carry of the first), and the zero flag tells whether bits 0 to 5 were clear.
pub proof fn law_asl_twice(s: CpuState)
    requires
        s.mem.len() == MEMORY_SIZE,
    ensures
        ({
            let t = asl_spec(asl_spec(s, AddressingMode::NoneAddressing), AddressingMode::NoneAddressing);
            &&& t.a == (s.a * 4) % 256
            &&& flag_set(t.status, CARRY_FLAG) == (s.a & 0x40 != 0)
            &&& flag_set(t.status, ZERO_FLAG) == (s.a & 0x3f == 0)
            &&& flag_set(t.status, NEGATIVE_FLAG) == (s.a & 0x20 != 0)
            &&& t.mem == s.mem
        }),
{
    let m = AddressingMode::NoneAddressing;
    let u = asl_spec(s, m);
    let t = asl_spec(u, m);
    law_asl(s, m);
    law_asl(u, m);
    let a = s.a;
    let b = u.a;
    assert((b * 2) % 256 == (a * 4) % 256 && (b >= 128) == (a & 0x40 != 0) && ((b * 2) % 256
        == 0) == (a & 0x3f == 0) && ((b * 2) % 256 >= 128) == (a & 0x20 != 0)) by (bit_vector)
        requires
            b == (a * 2) % 256,
    ;
}

/// A branch changes nothing but the program counter; with a zero offset,
/// or when its condition fails, it changes nothing at all.
pub proof fn law_branch(s: CpuState, condition: bool)
    ensures
        branch_spec(s, condition) == (CpuState { pc: branch_spec(s, condition).pc, ..s }),
        (s.mem[s.pc as int] == 0 || !condition) ==> branch_spec(s, condition) == s,
{
}

/// The run's outcome does not depend on how much fuel proves that it stops.
pub proof fn law_final_state_fuel_independent(s: CpuState, n: nat, m: nat)
    requires
        halts_within(s, n),
        halts_within(s, m),
    ensures
        final_state(s, n) == final_state(s, m),
    decreases n,
{
    match step_spec(s) {
        Step::Running(t) => {
            law_final_state_fuel_independent(t, (n - 1) as nat, (m - 1) as nat);
        },
        _ => {},
    }
}

/// A run that stops within some fuel stops within more.
pub proof fn law_halts_within_monotone(s: CpuState, n: nat, m: nat)
    requires
        halts_within(s, n),
        n <= m,
    ensures
        halts_within(s, m),
    decreases n,
{
    match step_spec(s) {
        Step::Running(t) => {
            law_halts_within_monotone(t, (n - 1) as nat, (m - 1) as nat);
        },
        _ => {},
    }
}

/// The state a run stops in is the one reached along any halting path.
pub proof fn law_run_spec_by_fuel(s: CpuState, n: nat)
    requires
        halts_within(s, n),
    ensures
        halts(s),
        run_spec(s) == final_state(s, n),
{
    let k = choose|fuel: nat| halts_within(s, fuel);
    law_final_state_fuel_independent(s, k, n);
}

/// A run that is about to fetch `BRK` stops at once, one byte further on.
pub proof fn law_brk_stops(s: CpuState)
    requires
        in_memory(s.pc as int),
        s.mem[s.pc as int] == 0,
    ensures
        halts(s),
        run_spec(s) == (CpuState { pc: (s.pc + 1) as u16, ..s }),
{
    law_run_spec_by_fuel(s, 0);
}

/// After a completed instruction the processor stops exactly when it
/// would have from the state before it, and in the same state.
pub proof fn law_run_after_step(s: CpuState, t: CpuState)
    requires
        step_spec(s) == Step::Running(t),
    ensures
        halts(s) == halts(t),
        halts(t) ==> run_spec(s) == run_spec(t),
{
    if halts(s) {
        let n = choose|fuel: nat| halts_within(s, fuel);
        assert(halts_within(t, (n - 1) as nat));
    }
    if halts(t) {
        let m = choose|fuel: nat| halts_within(t, fuel);
        assert(halts_within(s, m + 1));
        law_run_spec_by_fuel(s, m + 1);
        law_run_spec_by_fuel(t, m);
    }
}

/// A completed instruction other than a branch moves the program counter
/// past the opcode and its operand bytes; a taken branch moves it to the
/// address of its offset byte plus the offset read as a signed byte. Only ASL on memory changes
/// memory.
pub proof fn law_step(s: CpuState, t: CpuState)
    requires
        step_spec(s) == Step::Running(t),
    ensures
        ({
            let code = s.mem[s.pc as int];
            let op = opcode_table(code)->0;
            let offset = s.mem[s.pc + 1];
            &&& code != 0x90 && code != 0xb0 && code != 0xf0 ==> t.pc == s.pc + op.bytes
            &&& (code == 0x90 || code == 0xb0 || code == 0xf0) ==> (t.pc == s.pc + 2 || (
            offset != 0 && t.pc == s.pc + 1 + signed_value(offset)))
            &&& code != 0x06 && code != 0x16 && code != 0x0e && code != 0x1e ==> t.mem == s.mem
        }),
{
}

/// Each addressing mode finds its operand where the 6502 does (with this
/// core's indirect forms): the byte after the opcode, a zero-page byte
/// indexed within page zero, or a little-endian word indexed as a 16-bit
/// sum wrapping at 0x10000.
#[verifier::rlimit(40)]
pub proof fn law_operand_address(s: CpuState, mode: AddressingMode)
    ensures
        ({
            let pc = s.pc as int;
            let lo = s.mem[pc];
            let word = s.mem[pc] + 256 * s.mem[pc + 1];
            let addr = operand_address(s, mode) as int;
            &&& mode == AddressingMode::Immediate ==> addr == pc
            &&& mode == AddressingMode::ZeroPage ==> addr == lo
            &&& mode == AddressingMode::ZeroPageX ==> addr == (lo + s.x) % 256
            &&& mode == AddressingMode::ZeroPageY ==> addr == (lo + s.y) % 256
            &&& mode == AddressingMode::Absolute ==> addr == word
            &&& mode == AddressingMode::AbsoluteX ==> addr == (word + s.x) % 0x10000
            &&& mode == AddressingMode::AbsoluteY ==> addr == (word + s.y) % 0x10000
            &&& mode == AddressingMode::IndirectX ==> addr == (s.mem[(lo + s.x) % 256] + 256 * s.mem[(
            lo + s.x + 1) % 256] + s.y) % 0x10000
            &&& mode == AddressingMode::IndirectY ==> addr == s.mem[lo as int] + 256 * s.mem[lo + 1]
        }),
{
    let pc = s.pc as int;
    let lo = s.mem[pc];
    let x = s.x;
    match mode {
        AddressingMode::IndirectX => {
            assert(((lo + x) % 256 + 1) % 256 == (lo + x + 1) % 256) by (bit_vector);
        },
        _ => {},
    }
}

/// Whether `after` holds the zero and negative flags of `result` and keeps
/// every other status bit of `before`.
pub open spec fn flags_of_result(before: u8, after: u8, result: u8) -> bool {
    &&& (after & 0x02 != 0) == (result == 0)
    &&& (after & 0x80 != 0) == (result >= 128)
    &&& after & 0x7d == before & 0x7d
}

/// LDA, LDX and LDY put the operand byte in their register and set the
/// zero and negative flags from it (not from any other register); nothing
/// else changes.
pub proof fn law_loads(s: CpuState, mode: AddressingMode)
    ensures
        ({
            let v = s.mem[operand_address(s, mode) as int];
            let ta = lda_spec(s, mode);
            let tx = ldx_spec(s, mode);
            let ty = ldy_spec(s, mode);
            &&& ta.a == v && flags_of_result(s.status, ta.status, v)
            &&& ta == (CpuState { a: ta.a, status: ta.status, ..s })
            &&& tx.x == v && flags_of_result(s.status, tx.status, v)
            &&& tx == (CpuState { x: tx.x, status: tx.status, ..s })
            &&& ty.y == v && flags_of_result(s.status, ty.status, v)
            &&& ty == (CpuState { y: ty.y, status: ty.status, ..s })
        }),
{
    let v = s.mem[operand_address(s, mode) as int];
    law_zero_and_negative_flags(s.status, v);
}

/// AND leaves in A the bits set in both A and the operand, and sets the
/// zero and negative flags from that result; nothing else changes.
pub proof fn law_and(s: CpuState, mode: AddressingMode)
    ensures
        ({
            let v = s.mem[operand_address(s, mode) as int];
            let t = and_spec(s, mode);
            &&& t.a == s.a & v
            &&& forall|i: u8| i < 8 ==> (#[trigger] ((t.a >> i) & 1) == 1) == (((s.a >> i) & 1)
                == 1 && ((v >> i) & 1) == 1)
            &&& flags_of_result(s.status, t.status, t.a)
            &&& t == (CpuState { a: t.a, status: t.status, ..s })
        }),
{
    let v = s.mem[operand_address(s, mode) as int];
    let a = s.a;
    law_zero_and_negative_flags(s.status, a & v);
    assert forall|i: u8| i < 8 implies (#[trigger] (((a & v) >> i) & 1) == 1) == (((a >> i) & 1)
        == 1 && ((v >> i) & 1) == 1) by {
        assert((((a & v) >> i) & 1 == 1) == (((a >> i) & 1) == 1 && ((v >> i) & 1) == 1))
            by (bit_vector);
    }
}

/// TAX copies A to X and sets the zero and negative flags from the copied
/// value; INX adds one to X, wrapping from 0xFF to 0, and sets the flags
/// from the new X. Nothing else changes.
pub proof fn law_tax_inx(s: CpuState)
    ensures
        ({
            let t = tax_spec(s);
            let u = inx_spec(s);
            &&& t.x == s.a && flags_of_result(s.status, t.status, s.a)
            &&& t == (CpuState { x: t.x, status: t.status, ..s })
            &&& u.x + 256 * (if s.x == 255 { 1int } else { 0 }) == s.x + 1
            &&& flags_of_result(s.status, u.status, u.x)
            &&& u == (CpuState { x: u.x, status: u.status, ..s })
        }),
{
    law_zero_and_negative_flags(s.status, s.a);
    law_zero_and_negative_flags(s.status, ((s.x + 1) % 256) as u8);
}

/// SEC sets the carry whatever it was, and changes no other status bit and
/// nothing else.
pub proof fn law_sec(s: CpuState)
    ensures
        sec_spec(s).status & 0x01 != 0,
        sec_spec(s).status & 0xfe == s.status & 0xfe,
        sec_spec(s) == (CpuState { status: sec_spec(s).status, ..s }),
{
    let st = s.status;
    assert(with_flag(st, 0x01, true) & 0x01 != 0 && with_flag(st, 0x01, true) & 0xfe == st & 0xfe)
        by (bit_vector);
}

/// How many operand bytes follow the opcode in `mode`.
pub open spec fn operand_length(mode: AddressingMode) -> int {
    match mode {
        AddressingMode::NoneAddressing => 0,
        AddressingMode::Absolute | AddressingMode::AbsoluteX | AddressingMode::AbsoluteY => 2,
        _ => 1,
    }
}

/// A completed cycle carries out the instruction its opcode names, on the
/// operand bytes after the opcode:
/// - a branch (BCC 0x90, BCS 0xB0, BEQ 0xF0) tests only its own flag (carry
///   clear, carry set, zero set); when the flag agrees and the offset is not
///   zero it moves the program counter to the offset byte's address plus the
///   offset as a signed byte, and otherwise past its two bytes; it changes
///   nothing else;
/// - any other instruction moves the program counter past the opcode and
///   the operand bytes of its addressing mode;
/// - ADC, AND, ASL, LDA, LDX, LDY, SEC, TAX and INX opcodes act as those
///   instructions.
pub proof fn law_step_dispatch(s: CpuState, t: CpuState)
    requires
        step_spec(s) == Step::Running(t),
    ensures
        ({
            let code = s.mem[s.pc as int];
            let f = CpuState { pc: (s.pc + 1) as u16, ..s };
            let mode = opcode_table(code)->0.adressing_mode;
            let off = s.mem[s.pc + 1];
            let soff: int = if off < 128 { off as int } else { off - 256 };
            let is_branch = code == 0x90 || code == 0xb0 || code == 0xf0;
            let flag_ok = if code == 0x90 {
                s.status & 0x01 == 0
            } else if code == 0xb0 {
                s.status & 0x01 != 0
            } else {
                s.status & 0x02 != 0
            };
            &&& is_branch ==> t == (CpuState { pc: t.pc, ..s })
            &&& is_branch ==> t.pc == (if off != 0 && flag_ok { s.pc + 1 + soff } else { s.pc
                + 2 })
            &&& !is_branch ==> t.pc == s.pc + 1 + operand_length(mode)
            &&& (code == 0x69 || code == 0x65 || code == 0x75 || code == 0x6d || code == 0x7d
                || code == 0x79 || code == 0x61 || code == 0x71) ==> t == (CpuState {
                pc: t.pc,
                ..adc_spec(f, mode)
            })
            &&& (code == 0x29 || code == 0x25 || code == 0x35 || code == 0x2d || code == 0x3d
                || code == 0x39 || code == 0x21 || code == 0x31) ==> t == (CpuState {
                pc: t.pc,
                ..and_spec(f, mode)
            })
            &&& (code == 0x0a ==> mode == AddressingMode::NoneAddressing)
            &&& (code == 0x0a || code == 0x06 || code == 0x16 || code == 0x0e || code == 0x1e)
                ==> t == (CpuState { pc: t.pc, ..asl_spec(f, mode) })
            &&& (code == 0xa9 || code == 0xa5 || code == 0xb5 || code == 0xad || code == 0xbd
                || code == 0xb9 || code == 0xa1 || code == 0xb1) ==> t == (CpuState {
                pc: t.pc,
                ..lda_spec(f, mode)
            })
            &&& (code == 0xa2 || code == 0xa6 || code == 0xb6 || code == 0xae || code == 0xbe)
                ==> t == (CpuState { pc: t.pc, ..ldx_spec(f, mode) })
            &&& (code == 0xa0 || code == 0xa4 || code == 0xb4 || code == 0xac || code == 0xbc)
                ==> t == (CpuState { pc: t.pc, ..ldy_spec(f, mode) })
            &&& code == 0x38 ==> t == (CpuState { pc: t.pc, ..sec_spec(f) })
            &&& code == 0xaa ==> t == (CpuState { pc: t.pc, ..tax_spec(f) })
            &&& code == 0xe8 ==> t == (CpuState { pc: t.pc, ..inx_spec(f) })
        }),
{
}

/// Each opcode of the table names the addressing mode of its instruction
/// and a length of one opcode byte plus that mode's operand bytes (two for
/// the branches, whose offset byte the mode does not name).
pub proof fn law_opcode_lengths(code: u8)
    requires
        opcode_table(code) is Some,
    ensures
        ({
            let op = opcode_table(code)->0;
            &&& op.code == code
            &&& (code == 0x90 || code == 0xb0 || code == 0xf0) ==> op.bytes == 2
            &&& !(code == 0x90 || code == 0xb0 || code == 0xf0) ==> op.bytes == 1
                + operand_length(op.adressing_mode)
        }),
{
}

/// The addressing mode that bits 2 to 4 of an opcode select in the
/// instructions whose low two bits are `01` (ADC, AND, LDA).
pub open spec fn decode_mode_01(bbb: int) -> AddressingMode {
    if bbb == 0 {
        AddressingMode::IndirectX
    } else if bbb == 1 {
        AddressingMode::ZeroPage
    } else if bbb == 2 {
        AddressingMode::Immediate
    } else if bbb == 3 {
        AddressingMode::Absolute
    } else if bbb == 4 {
        AddressingMode::IndirectY
    } else if bbb == 5 {
        AddressingMode::ZeroPageX
    } else if bbb == 6 {
        AddressingMode::AbsoluteY
    } else {
        AddressingMode::AbsoluteX
    }
}

/// The addressing mode that bits 2 to 4 of an opcode select in the
/// instructions whose low two bits are `10` or `00` (ASL, LDX, LDY, TAX);
/// the indexed forms use Y where the instruction loads X.
pub open spec fn decode_mode_10(bbb: int, loads_x: bool) -> AddressingMode {
    if bbb == 0 {
        AddressingMode::Immediate
    } else if bbb == 1 {
        AddressingMode::ZeroPage
    } else if bbb == 2 {
        AddressingMode::NoneAddressing
    } else if bbb == 3 {
        AddressingMode::Absolute
    } else if bbb == 5 {
        if loads_x { AddressingMode::ZeroPageY } else { AddressingMode::ZeroPageX }
    } else {
        if loads_x { AddressingMode::AbsoluteY } else { AddressingMode::AbsoluteX }
    }
}

/// The table follows the 6502's opcode encoding: in an opcode `aaabbbcc`,
/// `aaa` and `cc` select the instruction, and the opcode takes the addressing mode that `bbb` selects for its group `cc` (the
/// branches, `cc = 00` with `bbb = 100`, take a relative offset instead).
pub proof fn law_opcode_encoding(code: u8)
    requires
        opcode_table(code) is Some,
    ensures
        ({
            let op = opcode_table(code)->0;
            let mode = op.adressing_mode;
            let aaa = code / 32;
            let bbb = (code / 4) % 8;
            &&& code % 4 == 1 ==> op.mnemonic == (if aaa == 1 {
                "AND"
            } else if aaa == 3 {
                "ADC"
            } else {
                "LDA"
            })
            &&& code % 4 == 2 ==> op.mnemonic == (if aaa == 0 {
                "ASL"
            } else if bbb == 2 {
                "TAX"
            } else {
                "LDX"
            })
            &&& code % 4 == 0 && aaa == 5 && bbb != 4 ==> op.mnemonic == "LDY"
            &&& code % 4 == 1 ==> mode == decode_mode_01(bbb as int)
            &&& code % 4 == 2 ==> mode == decode_mode_10(bbb as int, code / 32 == 5)
            &&& code % 4 == 0 && code / 32 == 5 && bbb != 4 ==> mode == decode_mode_10(bbb as int, false)
        }),
{
}

} // verus!
