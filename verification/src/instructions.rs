use vstd::prelude::*;

verus! {

/// How an instruction finds its operand.
///
/// `NoneAddressing` covers instructions that take no memory operand
/// (implied, accumulator and relative forms).
#[derive(Clone, Copy, Debug, PartialEq, Eq, Structural)]
pub enum AddressingMode {
    Immediate,
    ZeroPage,
    ZeroPageX,
    ZeroPageY,
    Absolute,
    AbsoluteX,
    AbsoluteY,
    IndirectX,
    IndirectY,
    NoneAddressing,
}

/// One entry of the instruction table: the opcode byte, its mnemonic, how
/// many bytes the whole instruction takes, its cycle count and its
/// addressing mode.
#[derive(Clone, Copy, Debug)]
pub struct OpCode {
    pub code: u8,
    pub mnemonic: &'static str,
    pub bytes: u8,
    pub cycles: u8,
    pub adressing_mode: AddressingMode,
}

impl OpCode {
    pub fn new(code: u8, mnemonic: &'static str, bytes: u8, cycles: u8, mode: AddressingMode) -> (op: OpCode)
        ensures
            op == (OpCode { code, mnemonic, bytes, cycles, adressing_mode: mode }),
    {
        OpCode { code, mnemonic, bytes, cycles, adressing_mode: mode }
    }
}

/// The instruction set known to the processor, keyed by opcode byte.
pub open spec fn opcode_table(code: u8) -> Option<OpCode> {
    let op = |m: &'static str, b: u8, c: u8, mode: AddressingMode|
        Some(OpCode { code, mnemonic: m, bytes: b, cycles: c, adressing_mode: mode });
    match code {
        0x00 => op("BRK", 1, 7, AddressingMode::NoneAddressing),
        0x38 => op("SEC", 1, 2, AddressingMode::NoneAddressing),
        0xaa => op("TAX", 1, 2, AddressingMode::NoneAddressing),
        0xe8 => op("INX", 1, 2, AddressingMode::NoneAddressing),
        0x90 => op("BCC", 2, 2, AddressingMode::NoneAddressing),
        0xb0 => op("BCS", 2, 2, AddressingMode::NoneAddressing),
        0xf0 => op("BEQ", 2, 2, AddressingMode::NoneAddressing),
        0x69 => op("ADC", 2, 2, AddressingMode::Immediate),
        0x65 => op("ADC", 2, 3, AddressingMode::ZeroPage),
        0x75 => op("ADC", 2, 4, AddressingMode::ZeroPageX),
        0x6d => op("ADC", 3, 4, AddressingMode::Absolute),
        0x7d => op("ADC", 3, 4, AddressingMode::AbsoluteX),
        0x79 => op("ADC", 3, 4, AddressingMode::AbsoluteY),
        0x61 => op("ADC", 2, 6, AddressingMode::IndirectX),
        0x71 => op("ADC", 2, 5, AddressingMode::IndirectY),
        0x29 => op("AND", 2, 2, AddressingMode::Immediate),
        0x25 => op("AND", 2, 3, AddressingMode::ZeroPage),
        0x35 => op("AND", 2, 4, AddressingMode::ZeroPageX),
        0x2d => op("AND", 3, 4, AddressingMode::Absolute),
        0x3d => op("AND", 3, 4, AddressingMode::AbsoluteX),
        0x39 => op("AND", 3, 4, AddressingMode::AbsoluteY),
        0x21 => op("AND", 2, 6, AddressingMode::IndirectX),
        0x31 => op("AND", 2, 5, AddressingMode::IndirectY),
        0x0a => op("ASL", 1, 2, AddressingMode::NoneAddressing),
        0x06 => op("ASL", 2, 5, AddressingMode::ZeroPage),
        0x16 => op("ASL", 2, 6, AddressingMode::ZeroPageX),
        0x0e => op("ASL", 3, 6, AddressingMode::Absolute),
        0x1e => op("ASL", 3, 7, AddressingMode::AbsoluteX),
        0xa9 => op("LDA", 2, 2, AddressingMode::Immediate),
        0xa5 => op("LDA", 2, 3, AddressingMode::ZeroPage),
        0xb5 => op("LDA", 2, 4, AddressingMode::ZeroPageX),
        0xad => op("LDA", 3, 4, AddressingMode::Absolute),
        0xbd => op("LDA", 3, 4, AddressingMode::AbsoluteX),
        0xb9 => op("LDA", 3, 4, AddressingMode::AbsoluteY),
        0xa1 => op("LDA", 2, 6, AddressingMode::IndirectX),
        0xb1 => op("LDA", 2, 5, AddressingMode::IndirectY),
        0xa2 => op("LDX", 2, 2, AddressingMode::Immediate),
        0xa6 => op("LDX", 2, 3, AddressingMode::ZeroPage),
        0xb6 => op("LDX", 2, 4, AddressingMode::ZeroPageY),
        0xae => op("LDX", 3, 4, AddressingMode::Absolute),
        0xbe => op("LDX", 3, 4, AddressingMode::AbsoluteY),
        0xa0 => op("LDY", 2, 2, AddressingMode::Immediate),
        0xa4 => op("LDY", 2, 3, AddressingMode::ZeroPage),
        0xb4 => op("LDY", 2, 4, AddressingMode::ZeroPageX),
        0xac => op("LDY", 3, 4, AddressingMode::Absolute),
        0xbc => op("LDY", 3, 4, AddressingMode::AbsoluteX),
        _ => None,
    }
}

/// Looks an opcode byte up in the instruction table.
pub fn opcode_for(code: u8) -> (op: Option<OpCode>)
    ensures
        op == opcode_table(code),
{
    match code {
        0x00 => Some(OpCode::new(code, "BRK", 1, 7, AddressingMode::NoneAddressing)),
        0x38 => Some(OpCode::new(code, "SEC", 1, 2, AddressingMode::NoneAddressing)),
        0xaa => Some(OpCode::new(code, "TAX", 1, 2, AddressingMode::NoneAddressing)),
        0xe8 => Some(OpCode::new(code, "INX", 1, 2, AddressingMode::NoneAddressing)),
        0x90 => Some(OpCode::new(code, "BCC", 2, 2, AddressingMode::NoneAddressing)),
        0xb0 => Some(OpCode::new(code, "BCS", 2, 2, AddressingMode::NoneAddressing)),
        0xf0 => Some(OpCode::new(code, "BEQ", 2, 2, AddressingMode::NoneAddressing)),
        0x69 => Some(OpCode::new(code, "ADC", 2, 2, AddressingMode::Immediate)),
        0x65 => Some(OpCode::new(code, "ADC", 2, 3, AddressingMode::ZeroPage)),
        0x75 => Some(OpCode::new(code, "ADC", 2, 4, AddressingMode::ZeroPageX)),
        0x6d => Some(OpCode::new(code, "ADC", 3, 4, AddressingMode::Absolute)),
        0x7d => Some(OpCode::new(code, "ADC", 3, 4, AddressingMode::AbsoluteX)),
        0x79 => Some(OpCode::new(code, "ADC", 3, 4, AddressingMode::AbsoluteY)),
        0x61 => Some(OpCode::new(code, "ADC", 2, 6, AddressingMode::IndirectX)),
        0x71 => Some(OpCode::new(code, "ADC", 2, 5, AddressingMode::IndirectY)),
        0x29 => Some(OpCode::new(code, "AND", 2, 2, AddressingMode::Immediate)),
        0x25 => Some(OpCode::new(code, "AND", 2, 3, AddressingMode::ZeroPage)),
        0x35 => Some(OpCode::new(code, "AND", 2, 4, AddressingMode::ZeroPageX)),
        0x2d => Some(OpCode::new(code, "AND", 3, 4, AddressingMode::Absolute)),
        0x3d => Some(OpCode::new(code, "AND", 3, 4, AddressingMode::AbsoluteX)),
        0x39 => Some(OpCode::new(code, "AND", 3, 4, AddressingMode::AbsoluteY)),
        0x21 => Some(OpCode::new(code, "AND", 2, 6, AddressingMode::IndirectX)),
        0x31 => Some(OpCode::new(code, "AND", 2, 5, AddressingMode::IndirectY)),
        0x0a => Some(OpCode::new(code, "ASL", 1, 2, AddressingMode::NoneAddressing)),
        0x06 => Some(OpCode::new(code, "ASL", 2, 5, AddressingMode::ZeroPage)),
        0x16 => Some(OpCode::new(code, "ASL", 2, 6, AddressingMode::ZeroPageX)),
        0x0e => Some(OpCode::new(code, "ASL", 3, 6, AddressingMode::Absolute)),
        0x1e => Some(OpCode::new(code, "ASL", 3, 7, AddressingMode::AbsoluteX)),
        0xa9 => Some(OpCode::new(code, "LDA", 2, 2, AddressingMode::Immediate)),
        0xa5 => Some(OpCode::new(code, "LDA", 2, 3, AddressingMode::ZeroPage)),
        0xb5 => Some(OpCode::new(code, "LDA", 2, 4, AddressingMode::ZeroPageX)),
        0xad => Some(OpCode::new(code, "LDA", 3, 4, AddressingMode::Absolute)),
        0xbd => Some(OpCode::new(code, "LDA", 3, 4, AddressingMode::AbsoluteX)),
        0xb9 => Some(OpCode::new(code, "LDA", 3, 4, AddressingMode::AbsoluteY)),
        0xa1 => Some(OpCode::new(code, "LDA", 2, 6, AddressingMode::IndirectX)),
        0xb1 => Some(OpCode::new(code, "LDA", 2, 5, AddressingMode::IndirectY)),
        0xa2 => Some(OpCode::new(code, "LDX", 2, 2, AddressingMode::Immediate)),
        0xa6 => Some(OpCode::new(code, "LDX", 2, 3, AddressingMode::ZeroPage)),
        0xb6 => Some(OpCode::new(code, "LDX", 2, 4, AddressingMode::ZeroPageY)),
        0xae => Some(OpCode::new(code, "LDX", 3, 4, AddressingMode::Absolute)),
        0xbe => Some(OpCode::new(code, "LDX", 3, 4, AddressingMode::AbsoluteY)),
        0xa0 => Some(OpCode::new(code, "LDY", 2, 2, AddressingMode::Immediate)),
        0xa4 => Some(OpCode::new(code, "LDY", 2, 3, AddressingMode::ZeroPage)),
        0xb4 => Some(OpCode::new(code, "LDY", 2, 4, AddressingMode::ZeroPageX)),
        0xac => Some(OpCode::new(code, "LDY", 3, 4, AddressingMode::Absolute)),
        0xbc => Some(OpCode::new(code, "LDY", 3, 4, AddressingMode::AbsoluteX)),
        _ => None,
    }
}

} // verus!
