use vstd::prelude::*;

use crate::instructions::{AddressingMode, opcode_for, opcode_table};

verus! {

/// Number of addressable bytes: addresses `0..MEMORY_SIZE` may be read or
/// written; `0xFFFF` itself lies outside the memory.
pub const MEMORY_SIZE: usize = 0xFFFF;

/// Status register bits.
pub const CARRY_FLAG: u8 = 0b0000_0001;
pub const ZERO_FLAG: u8 = 0b0000_0010;
pub const OVERFLOW_FLAG: u8 = 0b0100_0000;
pub const NEGATIVE_FLAG: u8 = 0b1000_0000;

/// Where a program is loaded, and where the reset vector is kept.
pub const PROGRAM_START: u16 = 0x8000;
pub const RESET_VECTOR: u16 = 0xFFFC;

pub struct CPU {
    pub register_a: u8,
    pub register_x: u8,
    pub register_y: u8,
    pub status: u8,
    pub program_counter: u16,
    pub stack_pointer: u8,
    memory: [u8; 0xFFFF],
}

/// The mathematical state of the processor: its registers and the contents
/// of memory as a sequence of `MEMORY_SIZE` bytes.
pub struct CpuState {
    pub a: u8,
    pub x: u8,
    pub y: u8,
    pub status: u8,
    pub pc: u16,
    pub sp: u8,
    pub mem: Seq<u8>,
}

impl View for CPU {
    type V = CpuState;

    closed spec fn view(&self) -> CpuState {
        CpuState {
            a: self.register_a,
            x: self.register_x,
            y: self.register_y,
            status: self.status,
            pc: self.program_counter,
            sp: self.stack_pointer,
            mem: self.memory@,
        }
    }
}


/// Whether `addr` names a byte of memory.
pub open spec fn in_memory(addr: int) -> bool {
    0 <= addr < MEMORY_SIZE
}

impl CpuState {
    /// The byte at `addr`.
    pub open spec fn read(self, addr: int) -> u8 {
        self.mem[addr]
    }

    /// The little-endian word whose low byte is at `pos` and high byte at `pos + 1`.
    pub open spec fn read_u16(self, pos: int) -> u16 {
        (self.mem[pos] + 256 * self.mem[pos + 1]) as u16
    }

    /// The state with the byte at `addr` replaced by `val`.
    pub open spec fn write(self, addr: int, val: u8) -> CpuState {
        CpuState { mem: self.mem.update(addr, val), ..self }
    }

    /// The state with `data` stored little-endian at `pos` and `pos + 1`.
    pub open spec fn write_u16(self, pos: int, data: u16) -> CpuState {
        self.write(pos, (data % 256) as u8).write(pos + 1, (data / 256) as u8)
    }
}

/// `status` with `flag` set when `on` holds and cleared otherwise.
pub open spec fn with_flag(status: u8, flag: u8, on: bool) -> u8 {
    if on {
        status | flag
    } else {
        status & !flag
    }
}

/// Whether `flag` is set in `status`.
pub open spec fn flag_set(status: u8, flag: u8) -> bool {
    status & flag != 0
}

/// `status` after an instruction produced `result`: the zero flag tells
/// whether the result is zero, the negative flag copies its bit 7.
pub open spec fn zn_flags(status: u8, result: u8) -> u8 {
    with_flag(with_flag(status, ZERO_FLAG, result == 0), NEGATIVE_FLAG, result & 0x80 != 0)
}

/// A byte read as a two's-complement number.
pub open spec fn signed_value(v: u8) -> int {
    if v < 128 {
        v as int
    } else {
        v - 256
    }
}

/// Whether adding `a`, `m` and the carry `c` as signed numbers leaves the
/// range of a signed byte.
pub open spec fn signed_overflow(a: u8, m: u8, c: int) -> bool {
    let t = signed_value(a) + signed_value(m) + c;
    t < -128 || t > 127
}

/// Whether the operand address of `mode` can be computed: the mode has an
/// operand, and the operand bytes after the opcode lie in memory.
pub open spec fn operand_address_ok(s: CpuState, mode: AddressingMode) -> bool {
    match mode {
        AddressingMode::Immediate => true,
        AddressingMode::NoneAddressing => false,
        AddressingMode::Absolute | AddressingMode::AbsoluteX | AddressingMode::AbsoluteY => s.pc
            + 1 < MEMORY_SIZE,
        _ => s.pc < MEMORY_SIZE,
    }
}

/// The address of the operand of an instruction whose operand bytes start at `s.pc`.
pub open spec fn operand_address(s: CpuState, mode: AddressingMode) -> u16 {
    let pc = s.pc as int;
    match mode {
        AddressingMode::Immediate => s.pc,
        AddressingMode::ZeroPage => s.mem[pc] as u16,
        AddressingMode::ZeroPageX => ((s.mem[pc] + s.x) % 256) as u16,
        AddressingMode::ZeroPageY => ((s.mem[pc] + s.y) % 256) as u16,
        AddressingMode::Absolute => s.read_u16(pc),
        AddressingMode::AbsoluteX => ((s.read_u16(pc) + s.x) % 0x10000) as u16,
        AddressingMode::AbsoluteY => ((s.read_u16(pc) + s.y) % 0x10000) as u16,
        AddressingMode::IndirectX => {
            let ptr = (s.mem[pc] + s.x) % 256;
            let target = s.mem[ptr] + 256 * s.mem[(ptr + 1) % 256];
            ((target + s.y) % 0x10000) as u16
        },
        AddressingMode::IndirectY => {
            let base = s.mem[pc] as int;
            (s.mem[base] + 256 * s.mem[base + 1]) as u16
        },
        AddressingMode::NoneAddressing => 0,
    }
}

/// Whether the operand of `mode` can be fetched: its address can be
/// computed and lies in memory.
pub open spec fn operand_ok(s: CpuState, mode: AddressingMode) -> bool {
    operand_address_ok(s, mode) && in_memory(operand_address(s, mode) as int)
}

/// The operand byte of `mode`.
pub open spec fn operand(s: CpuState, mode: AddressingMode) -> u8 {
    s.mem[operand_address(s, mode) as int]
}

/// ADC: add the operand and the carry to the accumulator.
pub open spec fn adc_spec(s: CpuState, mode: AddressingMode) -> CpuState {
    let m = operand(s, mode);
    let c: int = if flag_set(s.status, CARRY_FLAG) { 1 } else { 0 };
    let sum = s.a + m + c;
    let result = (sum % 256) as u8;
    let status = with_flag(
        with_flag(zn_flags(s.status, result), OVERFLOW_FLAG, signed_overflow(s.a, m, c)),
        CARRY_FLAG,
        sum > 255,
    );
    CpuState { a: result, status, ..s }
}

/// AND: the accumulator and the operand, bit by bit.
pub open spec fn and_spec(s: CpuState, mode: AddressingMode) -> CpuState {
    let result = s.a & operand(s, mode);
    CpuState { a: result, status: zn_flags(s.status, result), ..s }
}

/// Whether ASL can run: on the accumulator always, on memory when the operand can be fetched.
pub open spec fn asl_ok(s: CpuState, mode: AddressingMode) -> bool {
    mode == AddressingMode::NoneAddressing || operand_ok(s, mode)
}

/// ASL: shift the accumulator (`NoneAddressing`) or the operand byte left
/// by one; bit 7 goes to the carry.
pub open spec fn asl_spec(s: CpuState, mode: AddressingMode) -> CpuState {
    let on_a = mode == AddressingMode::NoneAddressing;
    let value = if on_a { s.a } else { operand(s, mode) };
    let result = ((value * 2) % 256) as u8;
    let status = zn_flags(with_flag(s.status, CARRY_FLAG, value >= 128), result);
    if on_a {
        CpuState { a: result, status, ..s }
    } else {
        CpuState { status, ..s.write(operand_address(s, mode) as int, result) }
    }
}

/// Whether a branch can run: its offset byte is in memory, and a taken
/// branch keeps the program counter inside `0..=0xFFFF`.
pub open spec fn branch_ok(s: CpuState, condition: bool) -> bool {
    let offset = s.mem[s.pc as int];
    &&& s.pc < MEMORY_SIZE
    &&& (offset != 0 && condition) ==> 0 <= s.pc + signed_value(offset) - 1 <= 0xFFFF
}

/// A branch taken when `condition` holds, with the program counter at its
/// offset byte. The offset is a signed byte (0x80 and above branch
/// backwards); an offset of zero never moves the program counter.
pub open spec fn branch_spec(s: CpuState, condition: bool) -> CpuState {
    let offset = s.mem[s.pc as int];
    if offset != 0 && condition {
        CpuState { pc: (s.pc + signed_value(offset) - 1) as u16, ..s }
    } else {
        s
    }
}

/// LDA: load the operand into the accumulator.
pub open spec fn lda_spec(s: CpuState, mode: AddressingMode) -> CpuState {
    let v = operand(s, mode);
    CpuState { a: v, status: zn_flags(s.status, v), ..s }
}

/// LDX: load the operand into X.
pub open spec fn ldx_spec(s: CpuState, mode: AddressingMode) -> CpuState {
    let v = operand(s, mode);
    CpuState { x: v, status: zn_flags(s.status, v), ..s }
}

/// LDY: load the operand into Y.
pub open spec fn ldy_spec(s: CpuState, mode: AddressingMode) -> CpuState {
    let v = operand(s, mode);
    CpuState { y: v, status: zn_flags(s.status, v), ..s }
}

/// SEC: set the carry.
pub open spec fn sec_spec(s: CpuState) -> CpuState {
    CpuState { status: with_flag(s.status, CARRY_FLAG, true), ..s }
}

/// TAX: copy the accumulator to X.
pub open spec fn tax_spec(s: CpuState) -> CpuState {
    CpuState { x: s.a, status: zn_flags(s.status, s.a), ..s }
}

/// INX: increment X, wrapping from 0xFF to 0.
pub open spec fn inx_spec(s: CpuState) -> CpuState {
    let v = ((s.x + 1) % 256) as u8;
    CpuState { x: v, status: zn_flags(s.status, v), ..s }
}

/// The effect of the instruction `code` with addressing mode `mode`, its
/// operand bytes starting at `s.pc`; `None` where the processor cannot
/// carry it out.
pub open spec fn execute(s: CpuState, code: u8, mode: AddressingMode) -> Option<CpuState> {
    match code {
        0x69 | 0x65 | 0x75 | 0x6d | 0x7d | 0x79 | 0x61 | 0x71 => if operand_ok(s, mode) {
            Some(adc_spec(s, mode))
        } else {
            None
        },
        0x29 | 0x25 | 0x35 | 0x2d | 0x3d | 0x39 | 0x21 | 0x31 => if operand_ok(s, mode) {
            Some(and_spec(s, mode))
        } else {
            None
        },
        0x0a | 0x06 | 0x16 | 0x0e | 0x1e => if asl_ok(s, mode) {
            Some(asl_spec(s, mode))
        } else {
            None
        },
        0x90 => {
            let c = !flag_set(s.status, CARRY_FLAG);
            if branch_ok(s, c) { Some(branch_spec(s, c)) } else { None }
        },
        0xb0 => {
            let c = flag_set(s.status, CARRY_FLAG);
            if branch_ok(s, c) { Some(branch_spec(s, c)) } else { None }
        },
        0xf0 => {
            let c = flag_set(s.status, ZERO_FLAG);
            if branch_ok(s, c) { Some(branch_spec(s, c)) } else { None }
        },
        0xa9 | 0xa5 | 0xb5 | 0xad | 0xbd | 0xb9 | 0xa1 | 0xb1 => if operand_ok(s, mode) {
            Some(lda_spec(s, mode))
        } else {
            None
        },
        0xa2 | 0xa6 | 0xb6 | 0xae | 0xbe => if operand_ok(s, mode) {
            Some(ldx_spec(s, mode))
        } else {
            None
        },
        0xa0 | 0xa4 | 0xb4 | 0xac | 0xbc => if operand_ok(s, mode) {
            Some(ldy_spec(s, mode))
        } else {
            None
        },
        0x38 => Some(sec_spec(s)),
        0xaa => Some(tax_spec(s)),
        0xe8 => Some(inx_spec(s)),
        _ => None,
    }
}

/// What one fetch-and-execute cycle leads to.
pub enum Step {
    /// The instruction ran; the processor goes on from this state.
    Running(CpuState),
    /// `BRK` was fetched; the processor stops in this state.
    Halted(CpuState),
    /// The processor cannot go on: the opcode is unknown, or the instruction
    /// would leave memory or the address space.
    Fault,
}

/// One fetch-and-execute cycle: fetch the opcode at `pc`, step past it,
/// carry the instruction out and step past its operand bytes.
pub open spec fn step_spec(s: CpuState) -> Step {
    if s.pc >= MEMORY_SIZE {
        Step::Fault
    } else {
        let code = s.mem[s.pc as int];
        let fetched = CpuState { pc: (s.pc + 1) as u16, ..s };
        match opcode_table(code) {
            None => Step::Fault,
            Some(op) => if code == 0 {
                Step::Halted(fetched)
            } else {
                match execute(fetched, code, op.adressing_mode) {
                    None => Step::Fault,
                    Some(t) => if t.pc + op.bytes - 1 <= 0xFFFF {
                        Step::Running(CpuState { pc: (t.pc + op.bytes - 1) as u16, ..t })
                    } else {
                        Step::Fault
                    },
                }
            },
        }
    }
}

/// Whether the processor, started in `s`, reaches `BRK` after at most
/// `fuel` completed instructions, without a fault.
pub open spec fn halts_within(s: CpuState, fuel: nat) -> bool
    decreases fuel,
{
    match step_spec(s) {
        Step::Halted(_) => true,
        Step::Running(t) => if fuel > 0 {
            halts_within(t, (fuel - 1) as nat)
        } else {
            false
        },
        Step::Fault => false,
    }
}

/// Whether the processor, started in `s`, reaches `BRK` without a fault.
pub open spec fn halts(s: CpuState) -> bool {
    exists|fuel: nat| halts_within(s, fuel)
}

/// The state in which the processor stops, given enough fuel.
pub open spec fn final_state(s: CpuState, fuel: nat) -> CpuState
    decreases fuel,
{
    match step_spec(s) {
        Step::Halted(t) => t,
        Step::Running(t) => if fuel > 0 {
            final_state(t, (fuel - 1) as nat)
        } else {
            s
        },
        Step::Fault => s,
    }
}

/// The state in which a run started in `s` stops (meaningful when `halts(s)`).
pub open spec fn run_spec(s: CpuState) -> CpuState {
    final_state(s, choose|fuel: nat| halts_within(s, fuel))
}

/// The state at power-on: every register and every byte of memory is zero.
pub open spec fn power_on_state() -> CpuState {
    CpuState { a: 0, x: 0, y: 0, status: 0, pc: 0, sp: 0, mem: Seq::new(MEMORY_SIZE as nat, |i: int| 0u8) }
}

/// RESET: clear A, X, Y and the status, and jump through the reset vector.
pub open spec fn reset_spec(s: CpuState) -> CpuState {
    CpuState { a: 0, x: 0, y: 0, status: 0, pc: s.read_u16(RESET_VECTOR as int), ..s }
}

/// The state with the first `n` bytes of `program` copied to `PROGRAM_START` onwards.
pub open spec fn copy_program(s: CpuState, program: Seq<u8>, n: int) -> CpuState {
    let start = PROGRAM_START as int;
    CpuState {
        mem: Seq::new(
            s.mem.len(),
            |i: int| if start <= i < start + n { program[i - start] } else { s.mem[i] },
        ),
        ..s
    }
}

/// The state after `program` is copied to `PROGRAM_START` onwards and the
/// reset vector is pointed at it.
pub open spec fn load_spec(s: CpuState, program: Seq<u8>) -> CpuState {
    copy_program(s, program, program.len() as int).write_u16(RESET_VECTOR as int, PROGRAM_START)
}

/// A little-endian word assembled from its two bytes.
proof fn lemma_word_from_bytes(lo: u16, hi: u16)
    by (bit_vector)
    requires
        lo < 256,
        hi < 256,
    ensures
        (hi << 8) | lo == hi * 256 + lo,
{
}

/// A word split into its two bytes.
proof fn lemma_word_to_bytes(data: u16)
    by (bit_vector)
    ensures
        data >> 8 == data / 256,
        data & 0xff == data % 256,
{
}

/// The overflow test of ADC, on sign bits, decides signed overflow.
proof fn lemma_adc_overflow(a: u8, m: u8, c: u8, r: u8)
    by (bit_vector)
    requires
        c <= 1,
        r == (a + m + c) % 256,
    ensures
        ((a ^ r) & (m ^ r) & 0x80 != 0) == signed_overflow(a, m, c as int),
{
}

/// A byte cast to `i8` is its two's-complement value.
proof fn lemma_signed_byte(v: u8)
    by (bit_vector)
    ensures
        (v as i8) as int == signed_value(v),
{
}

/// Bit 7 of a byte is set exactly when the byte is at least 128, and
/// shifting left by one doubles it modulo 256.
proof fn lemma_byte_bits(v: u8)
    by (bit_vector)
    ensures
        (v & 0x80 != 0) == (v >= 128),
        v << 1 == (v * 2) % 256,
{
}

impl CPU {
    /// The memory of every processor holds exactly `MEMORY_SIZE` bytes.
    pub proof fn lemma_memory_size(&self)
        ensures
            self@.mem.len() == MEMORY_SIZE,
    {
    }

    /// A processor with every register and every byte of memory zero.
    pub fn new() -> (cpu: Self)
        ensures
            cpu@ == power_on_state(),
    {
        let cpu = CPU {
            register_a: 0,
            register_x: 0,
            register_y: 0,
            status: 0,
            program_counter: 0,
            stack_pointer: 0,
            memory: [0; 0xFFFF],
        };
        assert(cpu@.mem =~= power_on_state().mem);
        cpu
    }

    // Register access for verified callers, to whom the fields are opaque.

    /// The value of the accumulator.
    pub fn register_a(&self) -> (v: u8)
        ensures
            v == self@.a,
    {
        self.register_a
    }

    /// Sets the accumulator to `v`, leaving everything else.
    pub fn set_register_a(&mut self, v: u8)
        ensures
            final(self)@ == (CpuState { a: v, ..old(self)@ }),
    {
        self.register_a = v;
    }

    /// The value of the X register.
    pub fn register_x(&self) -> (v: u8)
        ensures
            v == self@.x,
    {
        self.register_x
    }

    /// Sets the X register to `v`, leaving everything else.
    pub fn set_register_x(&mut self, v: u8)
        ensures
            final(self)@ == (CpuState { x: v, ..old(self)@ }),
    {
        self.register_x = v;
    }

    /// The value of the Y register.
    pub fn register_y(&self) -> (v: u8)
        ensures
            v == self@.y,
    {
        self.register_y
    }

    /// Sets the Y register to `v`, leaving everything else.
    pub fn set_register_y(&mut self, v: u8)
        ensures
            final(self)@ == (CpuState { y: v, ..old(self)@ }),
    {
        self.register_y = v;
    }

    /// The value of the status register.
    pub fn status(&self) -> (v: u8)
        ensures
            v == self@.status,
    {
        self.status
    }

    /// Sets the status register to `v`, leaving everything else.
    pub fn set_status(&mut self, v: u8)
        ensures
            final(self)@ == (CpuState { status: v, ..old(self)@ }),
    {
        self.status = v;
    }

    /// The value of the program counter.
    pub fn program_counter(&self) -> (v: u16)
        ensures
            v == self@.pc,
    {
        self.program_counter
    }

    /// Sets the program counter to `v`, leaving everything else.
    pub fn set_program_counter(&mut self, v: u16)
        ensures
            final(self)@ == (CpuState { pc: v, ..old(self)@ }),
    {
        self.program_counter = v;
    }

    /// The value of the stack pointer.
    pub fn stack_pointer(&self) -> (v: u8)
        ensures
            v == self@.sp,
    {
        self.stack_pointer
    }

    /// Sets the stack pointer to `v`, leaving everything else.
    pub fn set_stack_pointer(&mut self, v: u8)
        ensures
            final(self)@ == (CpuState { sp: v, ..old(self)@ }),
    {
        self.stack_pointer = v;
    }

    /// The byte at `addr`.
    pub fn mem_read(&self, addr: u16) -> (val: u8)
        requires
            in_memory(addr as int),
        ensures
            val == self@.read(addr as int),
    {
        self.memory[addr as usize]
    }

    /// The little-endian word at `pos` and `pos + 1`.
    pub fn mem_read_u16(&self, pos: u16) -> (val: u16)
        requires
            in_memory(pos + 1),
        ensures
            val == self@.read_u16(pos as int),
    {
        let low_b = self.mem_read(pos) as u16;
        let high_b = self.mem_read(pos + 1) as u16;
        proof {
            lemma_word_from_bytes(low_b, high_b);
        }
        (high_b << 8) | low_b
    }

    /// Stores `val` at `addr`.
    pub fn mem_write(&mut self, addr: u16, val: u8)
        requires
            in_memory(addr as int),
        ensures
            final(self)@ == old(self)@.write(addr as int, val),
    {
        self.memory[addr as usize] = val;
        assert(self@.mem =~= old(self)@.write(addr as int, val).mem);
    }

    /// Stores `data` little-endian at `pos` and `pos + 1`.
    pub fn mem_write_u16(&mut self, pos: u16, data: u16)
        requires
            in_memory(pos + 1),
        ensures
            final(self)@ == old(self)@.write_u16(pos as int, data),
    {
        proof {
            lemma_word_to_bytes(data);
        }
        let high_b = (data >> 8) as u8;
        let low_b = (data & 0xff) as u8;
        self.mem_write(pos, low_b);
        self.mem_write(pos + 1, high_b);
    }

    /// The address of the operand of an instruction whose operand bytes
    /// start at the program counter.
    #[verifier::rlimit(40)]
    pub fn get_operand_address(&self, mode: &AddressingMode) -> (addr: u16)
        requires
            operand_address_ok(self@, *mode),
        ensures
            addr == operand_address(self@, *mode),
    {
        match mode {
            AddressingMode::ZeroPage => self.mem_read(self.program_counter) as u16,
            AddressingMode::ZeroPageX => {
                let address = self.mem_read(self.program_counter);
                address.wrapping_add(self.register_x) as u16
            },
            AddressingMode::ZeroPageY => {
                let address = self.mem_read(self.program_counter);
                address.wrapping_add(self.register_y) as u16
            },
            AddressingMode::Absolute => self.mem_read_u16(self.program_counter),
            AddressingMode::AbsoluteX => {
                let address = self.mem_read_u16(self.program_counter);
                address.wrapping_add(self.register_x as u16)
            },
            AddressingMode::AbsoluteY => {
                let address = self.mem_read_u16(self.program_counter);
                address.wrapping_add(self.register_y as u16)
            },
            AddressingMode::IndirectX => {
                let base = self.mem_read(self.program_counter);
                let address = base.wrapping_add(self.register_x);
                let lo = self.mem_read(address as u16);
                let hi = self.mem_read(address.wrapping_add(1) as u16);
                proof {
                    lemma_word_from_bytes(lo as u16, hi as u16);
                }
                let deref_adr = ((hi as u16) << 8) | (lo as u16);
                deref_adr.wrapping_add(self.register_y as u16)
            },
            AddressingMode::IndirectY => {
                let base = self.mem_read(self.program_counter);
                let lo = self.mem_read(base as u16);
                let hi = self.mem_read((base as u16).wrapping_add(1));
                proof {
                    lemma_word_from_bytes(lo as u16, hi as u16);
                }
                ((hi as u16) << 8) | (lo as u16)
            },
            AddressingMode::Immediate => self.program_counter,
            AddressingMode::NoneAddressing => vstd::pervasive::unreached(),
        }
    }

    /// ADC: adds the operand and the carry to the accumulator, setting the
    /// carry on unsigned and the overflow flag on signed overflow.
    fn adc(&mut self, mode: &AddressingMode)
        requires
            operand_ok(old(self)@, *mode),
        ensures
            final(self)@ == adc_spec(old(self)@, *mode),
    {
        let address = self.get_operand_address(mode);
        let adds = self.memory[address as usize];
        let carry_in: u8 = if self.status & CARRY_FLAG != 0 { 1 } else { 0 };
        let a_before = self.register_a;
        let sum: u16 = a_before as u16 + adds as u16 + carry_in as u16;
        let carry_out = sum > 0xff;
        let sum2: u8 = if carry_out { (sum - 0x100) as u8 } else { sum as u8 };
        proof {
            lemma_adc_overflow(a_before, adds, carry_in, sum2);
        }
        let overflow = (a_before ^ sum2) & (adds ^ sum2) & 0x80 != 0;
        self.register_a = sum2;
        self.update_zero_and_negative_flags(sum2);
        if overflow {
            self.status = self.status | OVERFLOW_FLAG;
        } else {
            self.status = self.status & !OVERFLOW_FLAG;
        }
        if carry_out {
            self.status = self.status | CARRY_FLAG;
        } else {
            self.status = self.status & !CARRY_FLAG;
        }
    }

    /// AND: the accumulator and the operand, bit by bit.
    fn and(&mut self, mode: &AddressingMode)
        requires
            operand_ok(old(self)@, *mode),
        ensures
            final(self)@ == and_spec(old(self)@, *mode),
    {
        let address = self.get_operand_address(mode);
        let result = self.register_a & self.memory[address as usize];
        self.register_a = result;
        self.update_zero_and_negative_flags(result);
    }

    /// ASL: shifts the accumulator (`NoneAddressing`) or the operand byte
    /// left by one; bit 7 goes to the carry.
    fn asl(&mut self, mode: &AddressingMode)
        requires
            asl_ok(old(self)@, *mode),
        ensures
            final(self)@ == asl_spec(old(self)@, *mode),
    {
        let value = match mode {
            AddressingMode::NoneAddressing => self.register_a,
            _ => {
                let address = self.get_operand_address(mode);
                self.mem_read(address)
            },
        };
        proof {
            lemma_byte_bits(value);
        }
        let carry = value & 0b1000_0000;
        let result = value << 1;
        match mode {
            AddressingMode::NoneAddressing => self.register_a = result,
            _ => {
                let address = self.get_operand_address(mode);
                self.mem_write(address, result);
            },
        }
        if carry != 0 {
            self.status = self.status | CARRY_FLAG;
        } else {
            self.status = self.status & !CARRY_FLAG;
        }
        self.update_zero_and_negative_flags(result);
    }

    /// Moves the program counter by the signed offset byte at the program
    /// counter (less one) when `condition` holds and the offset is not zero.
    fn branch(&mut self, condition: bool)
        requires
            branch_ok(old(self)@, condition),
        ensures
            final(self)@ == branch_spec(old(self)@, condition),
    {
        let byte = self.mem_read(self.program_counter);
        if byte == 0 {
            return;
        }
        if condition {
            proof {
                lemma_signed_byte(byte);
            }
            let offset = byte as i8;
            let target: i32 = self.program_counter as i32 + offset as i32 - 1;
            self.program_counter = target as u16;
        }
    }

    /// BCC: branches when the carry is clear.
    fn bcc(&mut self)
        requires
            branch_ok(old(self)@, !flag_set(old(self)@.status, CARRY_FLAG)),
        ensures
            final(self)@ == branch_spec(old(self)@, !flag_set(old(self)@.status, CARRY_FLAG)),
    {
        let condition = self.status & CARRY_FLAG == 0;
        self.branch(condition);
    }

    /// BCS: branches when the carry is set.
    fn bcs(&mut self)
        requires
            branch_ok(old(self)@, flag_set(old(self)@.status, CARRY_FLAG)),
        ensures
            final(self)@ == branch_spec(old(self)@, flag_set(old(self)@.status, CARRY_FLAG)),
    {
        let condition = self.status & CARRY_FLAG != 0;
        self.branch(condition);
    }

    /// BEQ: branches when the zero flag is set.
    fn beq(&mut self)
        requires
            branch_ok(old(self)@, flag_set(old(self)@.status, ZERO_FLAG)),
        ensures
            final(self)@ == branch_spec(old(self)@, flag_set(old(self)@.status, ZERO_FLAG)),
    {
        let condition = self.status & ZERO_FLAG != 0;
        self.branch(condition);
    }

    /// LDA: loads the operand into the accumulator.
    fn lda(&mut self, mode: &AddressingMode)
        requires
            operand_ok(old(self)@, *mode),
        ensures
            final(self)@ == lda_spec(old(self)@, *mode),
    {
        let address = self.get_operand_address(mode);
        let value = self.mem_read(address);
        self.register_a = value;
        self.update_zero_and_negative_flags(value);
    }

    /// LDX: loads the operand into X.
    fn ldx(&mut self, mode: &AddressingMode)
        requires
            operand_ok(old(self)@, *mode),
        ensures
            final(self)@ == ldx_spec(old(self)@, *mode),
    {
        let address = self.get_operand_address(mode);
        let value = self.mem_read(address);
        self.register_x = value;
        self.update_zero_and_negative_flags(value);
    }

    /// LDY: loads the operand into Y.
    fn ldy(&mut self, mode: &AddressingMode)
        requires
            operand_ok(old(self)@, *mode),
        ensures
            final(self)@ == ldy_spec(old(self)@, *mode),
    {
        let address = self.get_operand_address(mode);
        let value = self.mem_read(address);
        self.register_y = value;
        self.update_zero_and_negative_flags(value);
    }

    /// SEC: sets the carry.
    fn sec(&mut self)
        ensures
            final(self)@ == sec_spec(old(self)@),
    {
        self.status = self.status | CARRY_FLAG;
    }

    /// TAX: copies the accumulator to X.
    fn tax(&mut self)
        ensures
            final(self)@ == tax_spec(old(self)@),
    {
        let value = self.register_a;
        self.register_x = value;
        self.update_zero_and_negative_flags(value);
    }

    /// INX: increments X, wrapping from 0xFF to 0.
    fn inx(&mut self)
        ensures
            final(self)@ == inx_spec(old(self)@),
    {
        let value = self.register_x.wrapping_add(1);
        self.register_x = value;
        self.update_zero_and_negative_flags(value);
    }

    /// Clears A, X, Y and the status and jumps through the reset vector.
    pub fn reset(&mut self)
        ensures
            final(self)@ == reset_spec(old(self)@),
    {
        self.register_a = 0;
        self.register_x = 0;
        self.register_y = 0;
        self.status = 0;
        self.program_counter = self.mem_read_u16(RESET_VECTOR);
    }

    /// Copies `program` to `PROGRAM_START` onwards and points the reset
    /// vector at it.
    pub fn load(&mut self, program: Vec<u8>)
        requires
            PROGRAM_START + program.len() <= MEMORY_SIZE,
        ensures
            final(self)@ == load_spec(old(self)@, program@),
    {
        let mut i: usize = 0;
        assert(self@.mem =~= copy_program(old(self)@, program@, 0).mem);
        while i < program.len()
            invariant
                i <= program.len(),
                PROGRAM_START + program.len() <= MEMORY_SIZE,
                self@ == copy_program(old(self)@, program@, i as int),
            decreases program.len() - i,
        {
            self.memory[0x8000 + i] = program[i];
            i = i + 1;
            assert(self@.mem =~= copy_program(old(self)@, program@, i as int).mem);
        }
        self.mem_write_u16(RESET_VECTOR, PROGRAM_START);
    }

    /// Loads `program`, resets the processor and runs it until `BRK`.
    ///
    /// The program must fit between `PROGRAM_START` and the end of memory,
    /// and the run must reach `BRK` (see `run`).
    pub fn load_and_run(&mut self, program: Vec<u8>)
        requires
            PROGRAM_START + program.len() <= MEMORY_SIZE,
            halts(reset_spec(load_spec(old(self)@, program@))),
        ensures
            final(self)@ == run_spec(reset_spec(load_spec(old(self)@, program@))),
    {
        self.load(program);
        self.reset();
        self.run();
    }

    /// Runs instructions from the program counter until `BRK`, and stops
    /// just past it.
    ///
    /// The run must reach `BRK` without a fault (`halts`): an unknown
    /// opcode, an access to address `0xFFFF` or a program counter pushed
    /// past `0xFFFF` would stop the processor with a panic, and a program
    /// that never reaches `BRK` would never return.
    pub fn run(&mut self)
        requires
            halts(old(self)@),
        ensures
            final(self)@ == run_spec(old(self)@),
    {
        let ghost mut fuel: nat = choose|fuel: nat| halts_within(self@, fuel);
        loop
            invariant
                halts_within(self@, fuel),
                final_state(self@, fuel) == run_spec(old(self)@),
            decreases fuel,
        {
            if self.step() {
                return;
            }
            proof {
                fuel = (fuel - 1) as nat;
            }
        }
    }

    /// One fetch-and-execute cycle; tells whether `BRK` was fetched.
    fn step(&mut self) -> (halted: bool)
        requires
            !(step_spec(old(self)@) is Fault),
        ensures
            match step_spec(old(self)@) {
                Step::Halted(t) => halted && final(self)@ == t,
                Step::Running(t) => !halted && final(self)@ == t,
                Step::Fault => false,
            },
    {
        let code = self.memory[self.program_counter as usize];
        self.program_counter = self.program_counter + 1;
        let opcode = match opcode_for(code) {
            Some(op) => op,
            None => vstd::pervasive::unreached(),
        };
        let mode = opcode.adressing_mode;
        match code {
            0x69 | 0x65 | 0x75 | 0x6d | 0x7d | 0x79 | 0x61 | 0x71 => self.adc(&mode),
            0x29 | 0x25 | 0x35 | 0x2d | 0x3d | 0x39 | 0x21 | 0x31 => self.and(&mode),
            0x0a | 0x06 | 0x16 | 0x0e | 0x1e => self.asl(&mode),
            0x90 => self.bcc(),
            0xb0 => self.bcs(),
            0xf0 => self.beq(),
            0xa9 | 0xa5 | 0xb5 | 0xad | 0xbd | 0xb9 | 0xa1 | 0xb1 => self.lda(&mode),
            0xa2 | 0xa6 | 0xb6 | 0xae | 0xbe => self.ldx(&mode),
            0xa0 | 0xa4 | 0xb4 | 0xac | 0xbc => self.ldy(&mode),
            0x38 => self.sec(),
            0xaa => self.tax(),
            0xe8 => self.inx(),
            0x00 => return true,
            _ => vstd::pervasive::unreached(),
        }
        self.program_counter = self.program_counter + (opcode.bytes - 1) as u16;
        false
    }

    /// Sets the zero flag when `result` is zero and the negative flag when
    /// its bit 7 is set, clearing each otherwise; other flags stay.
    fn update_zero_and_negative_flags(&mut self, result: u8)
        ensures
            final(self)@ == (CpuState { status: zn_flags(old(self)@.status, result), ..old(self)@ }),
    {
        if result == 0 {
            self.status = self.status | ZERO_FLAG;
        } else {
            self.status = self.status & !ZERO_FLAG;
        }
        if result & 0b1000_0000 != 0 {
            self.status = self.status | NEGATIVE_FLAG;
        } else {
            self.status = self.status & !NEGATIVE_FLAG;
        }
    }
}

} // verus!
