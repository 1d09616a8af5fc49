//! The CPU core: registers, flags, memory bus, instruction decoder and
//! execution engine.

use vstd::prelude::*;

verus! {

broadcast use vstd::array::group_array_axioms;

/// One past the highest address: the bus covers the full 16-bit address
/// space, addresses 0 through 0xFFFF inclusive.
pub const ADDRESS_SPACE_SIZE: usize = 0x10000;

pub const ZERO_FLAG_BYTE_POSITION: u8 = 7;

pub const SUBTRACT_FLAG_BYTE_POSITION: u8 = 6;

pub const HALF_CARRY_FLAG_BYTE_POSITION: u8 = 5;

pub const CARRY_FLAG_BYTE_POSITION: u8 = 4;

/// The four status booleans of the CPU. The boolean set is the canonical
/// form; the packed byte produced by `u8::from` is only an external
/// serialization of it.
#[derive(Debug, Eq, PartialEq, Structural)]
pub struct FlagsRegister {
    pub zero: bool,
    pub subtract: bool,
    pub half_carry: bool,
    pub carry: bool,
}

/// The packed-byte encoding of the flags: each boolean occupies one fixed
/// high-nibble bit position and the low nibble is always zero.
pub open spec fn spec_flags_to_byte(flag: FlagsRegister) -> u8 {
    ((if flag.zero {
        1u8
    } else {
        0u8
    }) << ZERO_FLAG_BYTE_POSITION) | ((if flag.subtract {
        1u8
    } else {
        0u8
    }) << SUBTRACT_FLAG_BYTE_POSITION) | ((if flag.half_carry {
        1u8
    } else {
        0u8
    }) << HALF_CARRY_FLAG_BYTE_POSITION) | ((if flag.carry {
        1u8
    } else {
        0u8
    }) << CARRY_FLAG_BYTE_POSITION)
}

/// Decoding of the packed byte: each flag is read from its bit position and
/// the low nibble is ignored.
pub open spec fn spec_byte_to_flags(byte: u8) -> FlagsRegister {
    FlagsRegister {
        zero: ((byte >> ZERO_FLAG_BYTE_POSITION) & 1) != 0,
        subtract: ((byte >> SUBTRACT_FLAG_BYTE_POSITION) & 1) != 0,
        half_carry: ((byte >> HALF_CARRY_FLAG_BYTE_POSITION) & 1) != 0,
        carry: ((byte >> CARRY_FLAG_BYTE_POSITION) & 1) != 0,
    }
}

impl Default for FlagsRegister {
    /// All four flags start cleared.
    fn default() -> (flag: Self)
        ensures
            flag == (FlagsRegister { zero: false, subtract: false, half_carry: false, carry: false }),
    {
        FlagsRegister { zero: false, subtract: false, half_carry: false, carry: false }
    }
}

impl From<FlagsRegister> for u8 {
    /// Packs the four flags into their byte encoding.
    fn from(flag: FlagsRegister) -> (byte: u8)
        ensures
            byte == spec_flags_to_byte(flag),
    {
        let zero: u8 = if flag.zero {
            1
        } else {
            0
        };
        let subtract: u8 = if flag.subtract {
            1
        } else {
            0
        };
        let half_carry: u8 = if flag.half_carry {
            1
        } else {
            0
        };
        let carry: u8 = if flag.carry {
            1
        } else {
            0
        };
        zero << ZERO_FLAG_BYTE_POSITION | subtract << SUBTRACT_FLAG_BYTE_POSITION | half_carry
            << HALF_CARRY_FLAG_BYTE_POSITION | carry << CARRY_FLAG_BYTE_POSITION
    }
}

impl vstd::std_specs::convert::FromSpecImpl<FlagsRegister> for u8 {
    open spec fn obeys_from_spec() -> bool {
        true
    }

    open spec fn from_spec(flag: FlagsRegister) -> u8 {
        spec_flags_to_byte(flag)
    }
}

impl From<u8> for FlagsRegister {
    /// Reads the four flags out of their byte encoding; the low nibble of the
    /// byte is ignored.
    fn from(byte: u8) -> (flag: Self)
        ensures
            flag == spec_byte_to_flags(byte),
    {
        let zero = ((byte >> ZERO_FLAG_BYTE_POSITION) & 1) != 0;
        let subtract = ((byte >> SUBTRACT_FLAG_BYTE_POSITION) & 1) != 0;
        let half_carry = ((byte >> HALF_CARRY_FLAG_BYTE_POSITION) & 1) != 0;
        let carry = ((byte >> CARRY_FLAG_BYTE_POSITION) & 1) != 0;
        FlagsRegister { zero, subtract, half_carry, carry }
    }
}

impl vstd::std_specs::convert::FromSpecImpl<u8> for FlagsRegister {
    open spec fn obeys_from_spec() -> bool {
        true
    }

    open spec fn from_spec(byte: u8) -> FlagsRegister {
        spec_byte_to_flags(byte)
    }
}

/// Encoding a decoded byte gives the byte back with its low nibble forced to
/// zero: bits 4 to 7 survive the round trip, and a byte whose low nibble is
/// already zero comes back unchanged.
pub proof fn lemma_flags_byte_round_trip(byte: u8)
    ensures
        spec_flags_to_byte(spec_byte_to_flags(byte)) == byte & 0xF0,
        byte & 0x0F == 0 ==> spec_flags_to_byte(spec_byte_to_flags(byte)) == byte,
{
    let z: u8 = if ((byte >> 7) & 1) != 0 {
        1
    } else {
        0
    };
    let s: u8 = if ((byte >> 6) & 1) != 0 {
        1
    } else {
        0
    };
    let h: u8 = if ((byte >> 5) & 1) != 0 {
        1
    } else {
        0
    };
    let c: u8 = if ((byte >> 4) & 1) != 0 {
        1
    } else {
        0
    };
    assert((z << 7) | (s << 6) | (h << 5) | (c << 4) == byte & 0xF0) by (bit_vector)
        requires
            z == (if ((byte >> 7) & 1) != 0 {
                1u8
            } else {
                0u8
            }),
            s == (if ((byte >> 6) & 1) != 0 {
                1u8
            } else {
                0u8
            }),
            h == (if ((byte >> 5) & 1) != 0 {
                1u8
            } else {
                0u8
            }),
            c == (if ((byte >> 4) & 1) != 0 {
                1u8
            } else {
                0u8
            }),
    ;
    assert(byte & 0x0F == 0 ==> byte & 0xF0 == byte) by (bit_vector);
}

/// The eight 8-bit general registers. Register pairs such as b:c are derived
/// views over two of them, never separate storage, so a pair and its
/// constituent registers can never disagree.
#[derive(Debug, Eq, PartialEq, Structural)]
pub struct Registers {
    pub a: u8,
    pub b: u8,
    pub c: u8,
    pub d: u8,
    pub e: u8,
    pub f: FlagsRegister,
    pub h: u8,
    pub l: u8,
}

/// The 16-bit value of the b:c pair: b in the upper byte, c in the lower.
pub open spec fn spec_get_bc(registers: Registers) -> u16 {
    (registers.b * 256 + registers.c) as u16
}

/// Writing the b:c pair decomposes the value: b takes the upper byte, c the
/// lower; every other register is untouched.
pub open spec fn spec_set_bc(registers: Registers, value: u16) -> Registers {
    Registers { b: (value / 256) as u8, c: (value % 256) as u8, ..registers }
}

/// The 16-bit value of the d:e pair: d in the upper byte, e in the lower.
pub open spec fn spec_get_de(registers: Registers) -> u16 {
    (registers.d * 256 + registers.e) as u16
}

/// Writing the d:e pair decomposes the value: d takes the upper byte, e the
/// lower; every other register is untouched.
pub open spec fn spec_set_de(registers: Registers, value: u16) -> Registers {
    Registers { d: (value / 256) as u8, e: (value % 256) as u8, ..registers }
}

impl Default for Registers {
    /// All registers start zeroed and all flags cleared.
    fn default() -> (registers: Self)
        ensures
            registers == (Registers {
                a: 0u8,
                b: 0u8,
                c: 0u8,
                d: 0u8,
                e: 0u8,
                f: FlagsRegister { zero: false, subtract: false, half_carry: false, carry: false },
                h: 0u8,
                l: 0u8,
            }),
    {
        Registers {
            a: 0,
            b: 0,
            c: 0,
            d: 0,
            e: 0,
            f: FlagsRegister::default(),
            h: 0,
            l: 0,
        }
    }
}

impl Registers {
    /// Composes the b:c register pair into its 16-bit value.
    pub fn get_bc(&self) -> (value: u16)
        ensures
            value == spec_get_bc(*self),
    {
        let b = self.b as u16;
        let c = self.c as u16;
        let value = (b << 8) | c;
        proof {
            assert((b << 8) | c == b * 256 + c) by (bit_vector)
                requires
                    b < 256 && c < 256,
            ;
        }
        value
    }

    /// Decomposes a 16-bit value into the b:c register pair.
    pub fn set_bc(&mut self, value: u16)
        ensures
            *final(self) == spec_set_bc(*old(self), value),
    {
        proof {
            assert((value & 0xFF00) >> 8 == value / 256 && value & 0x00FF == value % 256)
                by (bit_vector);
        }
        self.b = ((value & 0xFF00) >> 8) as u8;
        self.c = (value & 0x00FF) as u8;
    }

    /// Composes the d:e register pair into its 16-bit value.
    pub fn get_de(&self) -> (value: u16)
        ensures
            value == spec_get_de(*self),
    {
        let d = self.d as u16;
        let e = self.e as u16;
        let value = (d << 8) | e;
        proof {
            assert((d << 8) | e == d * 256 + e) by (bit_vector)
                requires
                    d < 256 && e < 256,
            ;
        }
        value
    }

    /// Decomposes a 16-bit value into the d:e register pair.
    pub fn set_de(&mut self, value: u16)
        ensures
            *final(self) == spec_set_de(*old(self), value),
    {
        proof {
            assert((value & 0xFF00) >> 8 == value / 256 && value & 0x00FF == value % 256)
                by (bit_vector);
        }
        self.d = ((value & 0xFF00) >> 8) as u8;
        self.e = (value & 0x00FF) as u8;
    }
}

/// Writing a 16-bit value to the b:c pair and reading the pair back gives the
/// value, for every starting register file and every 16-bit value.
pub proof fn lemma_bc_round_trip(registers: Registers, value: u16)
    ensures
        spec_get_bc(spec_set_bc(registers, value)) == value,
{
}

/// Writing a 16-bit value to the d:e pair and reading the pair back gives the
/// value, for every starting register file and every 16-bit value.
pub proof fn lemma_de_round_trip(registers: Registers, value: u16)
    ensures
        spec_get_de(spec_set_de(registers, value)) == value,
{
}

/// The 16-bit address that follows `address`, wrapping at the end of the
/// address space.
pub open spec fn spec_next_address(address: u16) -> u16 {
    if address == 0xFFFF {
        0u16
    } else {
        (address + 1) as u16
    }
}

/// 16-bit address arithmetic: `base + offset` with wraparound at the
/// 0xFFFF/0x0000 boundary.
pub open spec fn spec_wrap_add(base: u16, offset: u16) -> u16 {
    ((base + offset) % 0x10000) as u16
}

/// The little-endian 16-bit value stored at `address`: the low byte at
/// `address`, the high byte at the following address (wrapping).
pub open spec fn spec_read_word(memory: Seq<u8>, address: u16) -> u16
    recommends
        memory.len() == ADDRESS_SPACE_SIZE,
{
    (memory[address as int] + 256 * memory[spec_next_address(address) as int]) as u16
}

/// A flat, byte-addressable store covering every 16-bit address. Reads and
/// writes are total: they succeed for any in-range address, 0xFFFF included.
pub struct MemoryBus {
    memory: [u8; 0x10000],
}

impl View for MemoryBus {
    type V = Seq<u8>;

    closed spec fn view(&self) -> Seq<u8> {
        self.memory@
    }
}

/// The bus always covers the full 16-bit address space.
pub broadcast proof fn lemma_bus_covers_address_space(bus: &MemoryBus)
    ensures
        (#[trigger] bus@).len() == ADDRESS_SPACE_SIZE,
{
}

impl Default for MemoryBus {
    /// A fresh bus is zero-initialized; an external loader is expected to
    /// copy a program image in before the first cycle.
    fn default() -> (bus: Self)
        ensures
            bus@.len() == ADDRESS_SPACE_SIZE,
            forall|i: int| 0 <= i < ADDRESS_SPACE_SIZE ==> bus@[i] == 0u8,
    {
        MemoryBus { memory: [0; 0x10000] }
    }
}

impl MemoryBus {
    /// Reads the byte stored at the given address.
    pub fn read_byte(&self, address: u16) -> (byte: u8)
        ensures
            byte == self@[address as int],
    {
        self.memory[address as usize]
    }

    /// Stores a byte at the given address; no other address changes.
    pub fn write_byte(&mut self, address: u16, byte: u8)
        ensures
            final(self)@ == old(self)@.update(address as int, byte),
    {
        self.memory[address as usize] = byte;
    }

    /// Reads the little-endian 16-bit value at the given address: the byte at
    /// `address` is the least significant, the byte at the following address
    /// (wrapping past 0xFFFF) the most significant.
    pub fn read_address(&self, address: u16) -> (word: u16)
        ensures
            word == spec_read_word(self@, address),
    {
        let least_significant_byte = self.read_byte(address) as u16;
        let next = if address == 0xFFFF {
            0
        } else {
            address + 1
        };
        let most_significant_byte = self.read_byte(next) as u16;
        let word = (most_significant_byte << 8) | least_significant_byte;
        proof {
            assert((most_significant_byte << 8) | least_significant_byte == least_significant_byte
                + 256 * most_significant_byte) by (bit_vector)
                requires
                    most_significant_byte < 256 && least_significant_byte < 256,
            ;
        }
        word
    }
}

/// The opcode byte that selects the secondary (prefixed) instruction table.
pub const PREFIX_BYTE: u8 = 0xCB;

/// Source register of an arithmetic-accumulate instruction.
#[derive(Debug, Eq, PartialEq, Structural)]
pub enum ArithmeticTarget {
    A,
    B,
    C,
    D,
    E,
    H,
    L,
}

/// Register pair named by a 16-bit increment/decrement instruction.
#[derive(Debug, Eq, PartialEq, Structural)]
pub enum IncDecTarget {
    BC,
    DE,
}

/// Register named by a prefixed (bit-manipulation) instruction.
#[derive(Debug, Eq, PartialEq, Structural)]
pub enum PrefixTarget {
    B,
}

/// Condition selector of a conditional jump: four flag tests plus an
/// unconditional variant.
#[derive(Debug, Eq, PartialEq, Structural)]
pub enum JumpTest {
    NotZero,
    Zero,
    NotCarry,
    Carry,
    Always,
}

/// A decoded instruction: one variant per instruction family, each carrying
/// exactly the operands its encoding supplies. Instructions are immutable
/// values produced by the decoder and consumed once by the execution engine.
#[derive(Debug, Eq, PartialEq, Structural)]
pub enum Instruction {
    ADD(ArithmeticTarget),
    INC(IncDecTarget),
    RLC(PrefixTarget),
    JP(JumpTest, u16),
}

/// A decode failure. The only error this core emits: the opcode (or prefixed
/// opcode) was found in neither instruction table. It carries the opcode code
/// string, two hex digits behind `0x`, with the `cb` prefix marker prepended
/// when the byte came from the secondary table.
#[derive(Debug, Eq, PartialEq)]
pub enum DecodeError {
    UnknownOpcode(String),
}

/// The lower-case hex digit for a nibble.
pub open spec fn spec_hex_char(nibble: u8) -> char {
    if nibble == 0 {
        '0'
    } else if nibble == 1 {
        '1'
    } else if nibble == 2 {
        '2'
    } else if nibble == 3 {
        '3'
    } else if nibble == 4 {
        '4'
    } else if nibble == 5 {
        '5'
    } else if nibble == 6 {
        '6'
    } else if nibble == 7 {
        '7'
    } else if nibble == 8 {
        '8'
    } else if nibble == 9 {
        '9'
    } else if nibble == 10 {
        'a'
    } else if nibble == 11 {
        'b'
    } else if nibble == 12 {
        'c'
    } else if nibble == 13 {
        'd'
    } else if nibble == 14 {
        'e'
    } else {
        'f'
    }
}

/// The diagnostic code string for an opcode that decodes to no instruction:
/// `0x` followed by the prefix marker `cb` when the byte came from the
/// secondary table, followed by the two hex digits of the opcode byte.
pub open spec fn spec_opcode_code(prefixed: bool, opcode: u8) -> Seq<char> {
    (if prefixed {
        seq!['0', 'x', 'c', 'b']
    } else {
        seq!['0', 'x']
    }) + seq![spec_hex_char(opcode / 16), spec_hex_char(opcode % 16)]
}

/// The lower-case hex digit (as its ASCII byte) for a nibble.
fn hex_digit(nibble: u8) -> (digit: u8)
    requires
        nibble < 16,
    ensures
        digit == spec_hex_char(nibble) as u8,
{
    if nibble < 10 {
        '0' as u8 + nibble
    } else {
        'a' as u8 + (nibble - 10)
    }
}

/// Builds the diagnostic code string for an unknown opcode.
fn opcode_code(prefixed: bool, opcode: u8) -> (code: String)
    ensures
        code@ == spec_opcode_code(prefixed, opcode),
{
    let mut bytes: Vec<u8> = Vec::new();
    bytes.push('0' as u8);
    bytes.push('x' as u8);
    if prefixed {
        bytes.push('c' as u8);
        bytes.push('b' as u8);
    }
    bytes.push(hex_digit(opcode / 16));
    bytes.push(hex_digit(opcode % 16));
    proof {
        let chars = spec_opcode_code(prefixed, opcode);
        let hi = spec_hex_char(opcode / 16);
        let lo = spec_hex_char(opcode % 16);
        assert('\0' <= hi <= '\u{7f}' && '\0' <= lo <= '\u{7f}');
        if prefixed {
            assert(chars =~= seq!['0', 'x', 'c', 'b', hi, lo]);
        } else {
            assert(chars =~= seq!['0', 'x', hi, lo]);
        }
        assert(vstd::utf8::is_ascii_chars(chars)) by {
            assert(forall|i: int|
                0 <= i < chars.len() ==> '\0' <= #[trigger] chars[i] <= '\u{7f}');
        }
        assert(forall|i: int| 0 <= i < bytes@.len() ==> bytes@[i] == chars[i] as u8);
        crate::text::lemma_ascii_bytes_decode(chars, bytes@);
    }
    match crate::text::utf8_to_string(bytes) {
        Some(code) => code,
        None => vstd::pervasive::unreached(),
    }
}

/// The primary instruction table: what a non-prefixed opcode byte at the
/// given address decodes to, reading the jump target's trailing bytes little
/// endian, or nothing when the table has no entry for the byte.
pub open spec fn spec_read_not_prefixed(memory: Seq<u8>, pc: u16) -> Option<Instruction>
    recommends
        memory.len() == ADDRESS_SPACE_SIZE,
{
    let byte = memory[pc as int];
    if byte == 0x02 {
        Some(Instruction::INC(IncDecTarget::BC))
    } else if byte == 0x13 {
        Some(Instruction::INC(IncDecTarget::DE))
    } else if byte == 0x81 {
        Some(Instruction::ADD(ArithmeticTarget::C))
    } else if byte == 0xC2 {
        Some(Instruction::JP(JumpTest::NotZero, spec_read_word(memory, spec_next_address(pc))))
    } else {
        None
    }
}

/// The secondary instruction table, reached through the prefix marker.
pub open spec fn spec_read_prefixed(memory: Seq<u8>, pc: u16) -> Option<Instruction>
    recommends
        memory.len() == ADDRESS_SPACE_SIZE,
{
    if memory[pc as int] == 0x00 {
        Some(Instruction::RLC(PrefixTarget::B))
    } else {
        None
    }
}

/// The full decode at an address: when the byte there is the prefix marker,
/// the next byte (wrapping) selects from the secondary table; otherwise the
/// byte itself selects from the primary table. An opcode found in neither
/// table yields the diagnostic code string of the failure.
pub open spec fn spec_decode(memory: Seq<u8>, pc: u16) -> Result<Instruction, Seq<char>>
    recommends
        memory.len() == ADDRESS_SPACE_SIZE,
{
    if memory[pc as int] == PREFIX_BYTE {
        let opcode_address = spec_next_address(pc);
        match spec_read_prefixed(memory, opcode_address) {
            Some(instruction) => Ok(instruction),
            None => Err(spec_opcode_code(true, memory[opcode_address as int])),
        }
    } else {
        match spec_read_not_prefixed(memory, pc) {
            Some(instruction) => Ok(instruction),
            None => Err(spec_opcode_code(false, memory[pc as int])),
        }
    }
}

/// The encoded byte length of an instruction, total over every variant of
/// both tables: the execution engine advances the program counter by it for
/// non-branching instructions.
pub open spec fn spec_len(instruction: Instruction) -> u16 {
    match instruction {
        Instruction::ADD(_) => 1u16,
        Instruction::INC(_) => 1u16,
        Instruction::RLC(_) => 2u16,
        Instruction::JP(_, _) => 3u16,
    }
}

impl Instruction {
    /// Reads the instruction at the given address in the memory bus,
    /// following the prefix-byte rule. Decoding is read-only: it never
    /// mutates memory or registers. An opcode present in neither table gives
    /// an `UnknownOpcode` error carrying its code string, never a silently
    /// substituted default instruction.
    pub fn read_from_bus(bus: &MemoryBus, pc: u16) -> (result: Result<Instruction, DecodeError>)
        ensures
            match spec_decode(bus@, pc) {
                Ok(instruction) => result == Ok::<Instruction, DecodeError>(instruction),
                Err(code) => (result matches Err(DecodeError::UnknownOpcode(s)) && s@ == code),
            },
    {
        let mut instruction_byte = bus.read_byte(pc);

        let mut instruction_address = pc;
        let prefixed = instruction_byte == PREFIX_BYTE;
        if prefixed {
            instruction_address = if pc == 0xFFFF {
                0
            } else {
                pc + 1
            };
            instruction_byte = bus.read_byte(instruction_address);
        }
        if let Some(instruction) = Instruction::from_byte(bus, instruction_address, prefixed) {
            Ok(instruction)
        } else {
            Err(DecodeError::UnknownOpcode(opcode_code(prefixed, instruction_byte)))
        }
    }

    /// Looks an opcode byte up in the table the prefix flag selects.
    fn from_byte(bus: &MemoryBus, pc: u16, prefixed: bool) -> (instruction: Option<Instruction>)
        ensures
            instruction == (if prefixed {
                spec_read_prefixed(bus@, pc)
            } else {
                spec_read_not_prefixed(bus@, pc)
            }),
    {
        if prefixed {
            Instruction::read_prefixed(bus, pc)
        } else {
            Instruction::read_not_prefixed(bus, pc)
        }
    }

    /// Looks an opcode byte up in the secondary (prefixed) table.
    fn read_prefixed(bus: &MemoryBus, pc: u16) -> (instruction: Option<Instruction>)
        ensures
            instruction == spec_read_prefixed(bus@, pc),
    {
        let byte = bus.read_byte(pc);
        match byte {
            0x00 => Some(Instruction::RLC(PrefixTarget::B)),
            _ => None,
        }
    }

    /// Looks an opcode byte up in the primary table.
    fn read_not_prefixed(bus: &MemoryBus, pc: u16) -> (instruction: Option<Instruction>)
        ensures
            instruction == spec_read_not_prefixed(bus@, pc),
    {
        let byte = bus.read_byte(pc);
        match byte {
            0x02 => Some(Instruction::INC(IncDecTarget::BC)),
            0x13 => Some(Instruction::INC(IncDecTarget::DE)),
            0x81 => Some(Instruction::ADD(ArithmeticTarget::C)),
            0xC2 => {
                let operand_address = if pc == 0xFFFF {
                    0
                } else {
                    pc + 1
                };
                Some(Instruction::JP(JumpTest::NotZero, bus.read_address(operand_address)))
            },
            _ => None,
        }
    }

    /// The number of bytes the instruction takes up: how far the execution
    /// engine moves the program counter after a non-jumping instruction.
    pub fn len(&self) -> (n: u16)
        ensures
            n == spec_len(*self),
    {
        match self {
            Instruction::ADD(_) => 1,
            Instruction::INC(_) => 1,
            Instruction::RLC(_) => 2,
            Instruction::JP(_, _) => 3,
        }
    }
}

/// The CPU: the register file, the program counter naming the address of the
/// next instruction to fetch, and the exclusively owned memory bus.
pub struct CPU {
    pub registers: Registers,
    pub pc: u16,
    pub bus: MemoryBus,
}

/// The value an arithmetic instruction's source register holds.
pub open spec fn spec_operand(registers: Registers, target: ArithmeticTarget) -> u8 {
    match target {
        ArithmeticTarget::A => registers.a,
        ArithmeticTarget::B => registers.b,
        ArithmeticTarget::C => registers.c,
        ArithmeticTarget::D => registers.d,
        ArithmeticTarget::E => registers.e,
        ArithmeticTarget::H => registers.h,
        ArithmeticTarget::L => registers.l,
    }
}

/// The accumulator after adding an operand: 8-bit wraparound addition.
pub open spec fn spec_add_result(accumulator: u8, operand: u8) -> u8 {
    ((accumulator + operand) % 256) as u8
}

/// The flags after an arithmetic-accumulate instruction: zero iff the wrapped
/// result is zero, subtract always cleared, carry iff the addition overflowed
/// past 0xFF, half-carry iff the low nibbles alone carry out of bit 3.
pub open spec fn spec_add_flags(accumulator: u8, operand: u8) -> FlagsRegister {
    FlagsRegister {
        zero: (accumulator + operand) % 256 == 0,
        subtract: false,
        half_carry: (accumulator & 0xF) + (operand & 0xF) > 0xF,
        carry: accumulator + operand > 0xFF,
    }
}

/// Whether a jump condition holds under the current flags.
pub open spec fn spec_jump_taken(test: JumpTest, flag: FlagsRegister) -> bool {
    match test {
        JumpTest::NotZero => !flag.zero,
        JumpTest::Zero => flag.zero,
        JumpTest::NotCarry => !flag.carry,
        JumpTest::Carry => flag.carry,
        JumpTest::Always => true,
    }
}

/// The register file after a 16-bit pair increment: the named pair grows by
/// one with wraparound at 0xFFFF/0x0000; no flag is affected.
pub open spec fn spec_inc_pair(registers: Registers, target: IncDecTarget) -> Registers {
    match target {
        IncDecTarget::BC => spec_set_bc(registers, spec_wrap_add(spec_get_bc(registers), 1)),
        IncDecTarget::DE => spec_set_de(registers, spec_wrap_add(spec_get_de(registers), 1)),
    }
}

/// Whether the execution engine implements an instruction's dispatch. The
/// prefixed bit-manipulation family is decoded but not yet dispatched:
/// executing it must fail fatally rather than silently leave state unchanged,
/// so the engine refuses it outright.
pub open spec fn spec_implemented(instruction: Instruction) -> bool {
    !(instruction matches Instruction::RLC(_))
}

/// The effect of dispatching one implemented instruction: the CPU afterwards
/// (its program counter still untouched) and the next program-counter value
/// the dispatch returns.
pub open spec fn spec_execute(cpu: CPU, instruction: Instruction) -> (CPU, u16)
    recommends
        spec_implemented(instruction),
{
    match instruction {
        Instruction::ADD(target) => {
            let operand = spec_operand(cpu.registers, target);
            let registers = Registers {
                a: spec_add_result(cpu.registers.a, operand),
                f: spec_add_flags(cpu.registers.a, operand),
                ..cpu.registers
            };
            (CPU { registers, ..cpu }, spec_wrap_add(cpu.pc, 1))
        },
        Instruction::INC(target) => (
            CPU { registers: spec_inc_pair(cpu.registers, target), ..cpu },
            spec_wrap_add(cpu.pc, 1),
        ),
        Instruction::JP(test, address) => (
            cpu,
            if spec_jump_taken(test, cpu.registers.f) {
                address
            } else {
                spec_wrap_add(cpu.pc, 3)
            },
        ),
        Instruction::RLC(_) => (cpu, cpu.pc),
    }
}

/// One full cycle as a value: decode at the program counter, dispatch, and
/// replace the program counter by the dispatch's result; or the decode
/// failure's code string.
pub open spec fn spec_step(cpu: CPU) -> Result<CPU, Seq<char>> {
    match spec_decode(cpu.bus@, cpu.pc) {
        Ok(instruction) => {
            let (stepped, next_pc) = spec_execute(cpu, instruction);
            Ok(CPU { pc: next_pc, ..stepped })
        },
        Err(code) => Err(code),
    }
}

impl Default for CPU {
    /// A fresh CPU: zeroed registers, program counter at 0, zeroed bus.
    fn default() -> (cpu: Self)
        ensures
            cpu.registers == (Registers {
                a: 0u8,
                b: 0u8,
                c: 0u8,
                d: 0u8,
                e: 0u8,
                f: FlagsRegister { zero: false, subtract: false, half_carry: false, carry: false },
                h: 0u8,
                l: 0u8,
            }),
            cpu.pc == 0u16,
            cpu.bus@.len() == ADDRESS_SPACE_SIZE,
            forall|i: int| 0 <= i < ADDRESS_SPACE_SIZE ==> cpu.bus@[i] == 0u8,
    {
        CPU { registers: Registers::default(), pc: 0, bus: MemoryBus::default() }
    }
}

impl CPU {
    /// One cycle: reads the opcode at the current program counter
    /// (transparently following the prefix-byte rule), dispatches the decoded
    /// instruction, and assigns the returned value as the new program
    /// counter. A decode failure is returned with all state unchanged; the
    /// driver loop must treat it as unrecoverable and abort the run.
    pub fn step(&mut self) -> (result: Result<(), DecodeError>)
        requires
            spec_decode(old(self).bus@, old(self).pc) matches Ok(instruction)
                ==> spec_implemented(instruction),
        ensures
            match spec_step(*old(self)) {
                Ok(cpu) => result is Ok && *final(self) == cpu,
                Err(code) => (result matches Err(DecodeError::UnknownOpcode(s)) && s@ == code)
                    && *final(self) == *old(self),
            },
    {
        let next_pc = match Instruction::read_from_bus(&self.bus, self.pc) {
            Ok(instruction) => self.execute(instruction),
            Err(error) => {
                return Err(error);
            },
        };
        self.pc = next_pc;
        Ok(())
    }

    /// Dispatches one decoded instruction: applies its documented effect to
    /// the registers and flags and returns the next program-counter value.
    /// The program counter itself is not modified here; the cycle driver
    /// assigns the returned value.
    pub fn execute(&mut self, instruction: Instruction) -> (next_pc: u16)
        requires
            spec_implemented(instruction),
        ensures
            *final(self) == spec_execute(*old(self), instruction).0,
            next_pc == spec_execute(*old(self), instruction).1,
    {
        let instruction_len = instruction.len();

        match instruction {
            Instruction::ADD(target) => {
                let value = match target {
                    ArithmeticTarget::A => self.registers.a,
                    ArithmeticTarget::B => self.registers.b,
                    ArithmeticTarget::C => self.registers.c,
                    ArithmeticTarget::D => self.registers.d,
                    ArithmeticTarget::E => self.registers.e,
                    ArithmeticTarget::H => self.registers.h,
                    ArithmeticTarget::L => self.registers.l,
                };
                let new_value = self.add(value);
                self.registers.a = new_value;
                self.pc.wrapping_add(instruction_len)
            },
            Instruction::INC(target) => {
                match target {
                    IncDecTarget::BC => {
                        let value = self.registers.get_bc();
                        self.registers.set_bc(value.wrapping_add(1));
                    },
                    IncDecTarget::DE => {
                        let value = self.registers.get_de();
                        self.registers.set_de(value.wrapping_add(1));
                    },
                }
                self.pc.wrapping_add(instruction_len)
            },
            Instruction::JP(test, address) => {
                let jump_condition = match test {
                    JumpTest::NotZero => !self.registers.f.zero,
                    JumpTest::NotCarry => !self.registers.f.carry,
                    JumpTest::Zero => self.registers.f.zero,
                    JumpTest::Carry => self.registers.f.carry,
                    JumpTest::Always => true,
                };
                self.jump(jump_condition, address)
            },
            Instruction::RLC(_) => vstd::pervasive::unreached(),
        }
    }

    /// Adds a value to the accumulator with 8-bit wraparound and sets the
    /// four flags; the accumulator itself is written by the caller.
    fn add(&mut self, value: u8) -> (new_value: u8)
        ensures
            new_value == spec_add_result(old(self).registers.a, value),
            final(self).registers == (Registers {
                f: spec_add_flags(old(self).registers.a, value),
                ..old(self).registers
            }),
            final(self).pc == old(self).pc,
            final(self).bus == old(self).bus,
    {
        let accumulator = self.registers.a;
        let sum = accumulator as u16 + value as u16;
        let new_value = (sum % 256) as u8;
        let did_overflow = sum > 0xFF;

        self.registers.f.zero = new_value == 0;
        self.registers.f.subtract = false;
        self.registers.f.carry = did_overflow;
        // Half-carry is set when adding the lower nibbles of the value and of
        // the accumulator overflows the lower nibble: a carry out of bit 3.
        proof {
            assert(accumulator & 0xF < 16 && value & 0xF < 16) by (bit_vector);
        }
        self.registers.f.half_carry = (accumulator & 0xF) + (value & 0xF) > 0xF;

        new_value
    }

    /// The next program counter of a conditional absolute jump: the target
    /// address verbatim when the condition holds, else the counter advanced
    /// by this family's fixed 3-byte encoded length.
    fn jump(&self, should_jump: bool, address: u16) -> (next_pc: u16)
        ensures
            next_pc == (if should_jump {
                address
            } else {
                spec_wrap_add(self.pc, 3)
            }),
    {
        if should_jump {
            address
        } else {
            // The jump instruction is 3 bytes wide: one opcode byte and two
            // target-address bytes.
            self.pc.wrapping_add(3)
        }
    }
}

/// A conditional jump whose condition evaluates false leaves every register,
/// flag and memory byte unchanged and advances the program counter by exactly
/// 3, whatever target address its trailing bytes encode.
pub proof fn lemma_jump_not_taken(cpu: CPU, test: JumpTest, address: u16)
    requires
        !spec_jump_taken(test, cpu.registers.f),
    ensures
        spec_execute(cpu, Instruction::JP(test, address)).0 == cpu,
        spec_execute(cpu, Instruction::JP(test, address)).1 == spec_wrap_add(cpu.pc, 3),
{
}

} // verus!
