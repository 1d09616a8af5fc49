use game_boy_emulator::cpu::{
    ArithmeticTarget, DecodeError, FlagsRegister, IncDecTarget, Instruction, JumpTest, MemoryBus,
    Registers, CPU,
};

#[test]
fn set_get_bc_register() {
    let mut registers = Registers::default();

    registers.set_bc(23);

    assert_eq!(23, registers.get_bc());
}

#[test]
fn byte_to_flag_register() {
    let byte: u8 = 0b10100000;

    let expected = FlagsRegister {
        zero: true,
        subtract: false,
        half_carry: true,
        carry: false,
    };

    let actual = FlagsRegister::from(byte);

    assert_eq!(expected, actual);
}

#[test]
fn flag_register_to_byte() {
    let flag_register = FlagsRegister {
        zero: true,
        subtract: false,
        half_carry: true,
        carry: false,
    };

    let expected: u8 = 0b10100000;

    let actual = u8::from(flag_register);

    assert_eq!(expected, actual);
}

#[test]
fn cpu_add_simple() {
    let mut cpu = CPU::default();

    cpu.registers.a = 1;
    cpu.registers.c = 2;

    let pc = cpu.execute(Instruction::ADD(ArithmeticTarget::C));

    assert_eq!(3, cpu.registers.a);
    assert_eq!(2, cpu.registers.c);

    assert_eq!(1, pc);

    let expected_flags = FlagsRegister {
        zero: false,
        subtract: false,
        half_carry: false,
        carry: false,
    };

    assert_eq!(expected_flags, cpu.registers.f);
}

#[test]
fn cpu_add_zero() {
    let mut cpu = CPU::default();

    cpu.registers.a = 0;
    cpu.registers.c = 0;

    let pc = cpu.execute(Instruction::ADD(ArithmeticTarget::C));

    assert_eq!(0, cpu.registers.a);
    assert_eq!(0, cpu.registers.c);

    assert_eq!(1, pc);

    let expected_flags = FlagsRegister {
        zero: true,
        subtract: false,
        half_carry: false,
        carry: false,
    };

    assert_eq!(expected_flags, cpu.registers.f);
}

#[test]
fn cpu_add_half_carry() {
    let mut cpu = CPU::default();

    cpu.registers.a = 0x0F;
    cpu.registers.c = 1;

    let pc = cpu.execute(Instruction::ADD(ArithmeticTarget::C));

    assert_eq!(0x10, cpu.registers.a);
    assert_eq!(1, cpu.registers.c);

    assert_eq!(1, pc);

    let expected_flags = FlagsRegister {
        zero: false,
        subtract: false,
        half_carry: true,
        carry: false,
    };

    assert_eq!(expected_flags, cpu.registers.f);
}

#[test]
fn cpu_add_carry() {
    let mut cpu = CPU::default();

    cpu.registers.a = 0xFF;
    cpu.registers.c = 2;

    let pc = cpu.execute(Instruction::ADD(ArithmeticTarget::C));

    assert_eq!(1, cpu.registers.a);
    assert_eq!(2, cpu.registers.c);

    assert_eq!(1, pc);

    let expected_flags = FlagsRegister {
        zero: false,
        subtract: false,
        half_carry: true,
        carry: true,
    };

    assert_eq!(expected_flags, cpu.registers.f);
}

#[test]
fn flags_byte_round_trip_on_high_nibble() {
    // Every byte whose low nibble is zero survives decode followed by encode.
    for high in 0..16u16 {
        let byte = (high as u8) << 4;
        assert_eq!(byte, u8::from(FlagsRegister::from(byte)));
    }
    // The low nibble is ignored on decode and forced to zero on encode.
    assert_eq!(0xB0, u8::from(FlagsRegister::from(0xBFu8)));
}

#[test]
fn set_get_bc_register_full_range() {
    let mut registers = Registers::default();

    registers.set_bc(0xABCD);

    assert_eq!(0xAB, registers.b);
    assert_eq!(0xCD, registers.c);
    assert_eq!(0xABCD, registers.get_bc());
}

#[test]
fn set_get_de_register() {
    let mut registers = Registers::default();

    registers.set_de(0x1234);

    assert_eq!(0x12, registers.d);
    assert_eq!(0x34, registers.e);
    assert_eq!(0x1234, registers.get_de());
}

#[test]
fn memory_covers_full_address_space() {
    let mut bus = MemoryBus::default();

    assert_eq!(0, bus.read_byte(0xFFFF));

    bus.write_byte(0xFFFF, 0xAB);
    bus.write_byte(0x0000, 0xCD);

    assert_eq!(0xAB, bus.read_byte(0xFFFF));
    assert_eq!(0xCD, bus.read_byte(0x0000));
}

#[test]
fn read_address_is_little_endian() {
    let mut bus = MemoryBus::default();

    bus.write_byte(0x0010, 0x34);
    bus.write_byte(0x0011, 0x12);

    assert_eq!(0x1234, bus.read_address(0x0010));
}

#[test]
fn read_address_wraps_at_end_of_address_space() {
    let mut bus = MemoryBus::default();

    bus.write_byte(0xFFFF, 0x78);
    bus.write_byte(0x0000, 0x56);

    assert_eq!(0x5678, bus.read_address(0xFFFF));
}

#[test]
fn decode_add_c() {
    let mut bus = MemoryBus::default();
    bus.write_byte(0x0200, 0x81);

    let instruction = Instruction::read_from_bus(&bus, 0x0200).unwrap();

    assert_eq!(Instruction::ADD(ArithmeticTarget::C), instruction);
    assert_eq!(1, instruction.len());
}

#[test]
fn decode_conditional_jump() {
    let mut bus = MemoryBus::default();
    bus.write_byte(0x0200, 0xC2);
    bus.write_byte(0x0201, 0x34);
    bus.write_byte(0x0202, 0x12);

    let instruction = Instruction::read_from_bus(&bus, 0x0200).unwrap();

    assert_eq!(Instruction::JP(JumpTest::NotZero, 0x1234), instruction);
    assert_eq!(3, instruction.len());
}

#[test]
fn decode_prefixed_rlc() {
    let mut bus = MemoryBus::default();
    bus.write_byte(0x0200, 0xCB);
    bus.write_byte(0x0201, 0x00);

    let instruction = Instruction::read_from_bus(&bus, 0x0200).unwrap();

    assert_eq!(2, instruction.len());
    assert!(matches!(instruction, Instruction::RLC(_)));
}

#[test]
fn decode_unknown_opcode() {
    let bus = MemoryBus::default();

    // A zeroed bus holds opcode 0x00 everywhere, which no table maps.
    let result = Instruction::read_from_bus(&bus, 0x0300);

    match result {
        Err(DecodeError::UnknownOpcode(code)) => assert_eq!("0x00", code),
        Ok(_) => panic!("an unmapped opcode must not decode"),
    }
}

#[test]
fn decode_unknown_opcode_code_string() {
    let mut bus = MemoryBus::default();
    bus.write_byte(0x0300, 0xD3);

    let result = Instruction::read_from_bus(&bus, 0x0300);

    match result {
        Err(DecodeError::UnknownOpcode(code)) => assert_eq!("0xd3", code),
        Ok(_) => panic!("an unmapped opcode must not decode"),
    }
}

#[test]
fn decode_unknown_prefixed_opcode_code_string() {
    let mut bus = MemoryBus::default();
    bus.write_byte(0x0300, 0xCB);
    bus.write_byte(0x0301, 0x7F);

    let result = Instruction::read_from_bus(&bus, 0x0300);

    match result {
        Err(DecodeError::UnknownOpcode(code)) => assert_eq!("0xcb7f", code),
        Ok(_) => panic!("an unmapped prefixed opcode must not decode"),
    }
}

#[test]
fn jump_taken_replaces_pc() {
    let mut cpu = CPU::default();
    cpu.pc = 0x0200;
    cpu.registers.f.zero = false;

    let pc = cpu.execute(Instruction::JP(JumpTest::NotZero, 0x1234));

    assert_eq!(0x1234, pc);
}

#[test]
fn jump_not_taken_advances_pc_by_3() {
    let mut cpu = CPU::default();
    cpu.pc = 0x0200;
    cpu.registers.f.zero = true;

    // The advance is the same whatever target address the instruction encodes.
    let pc_one = cpu.execute(Instruction::JP(JumpTest::NotZero, 0x1234));
    let pc_two = cpu.execute(Instruction::JP(JumpTest::NotZero, 0xFFFF));

    assert_eq!(0x0203, pc_one);
    assert_eq!(0x0203, pc_two);
    assert_eq!(0x0200, cpu.pc);
}

#[test]
fn jump_always_is_unconditional() {
    let mut cpu = CPU::default();
    cpu.pc = 0x0200;
    cpu.registers.f.zero = true;
    cpu.registers.f.carry = true;

    let pc = cpu.execute(Instruction::JP(JumpTest::Always, 0x4000));

    assert_eq!(0x4000, pc);
}

#[test]
fn inc_bc_wraps_and_leaves_flags() {
    let mut cpu = CPU::default();
    cpu.pc = 0x0100;
    cpu.registers.set_bc(0xFFFF);
    cpu.registers.f.zero = true;
    cpu.registers.f.carry = true;

    let pc = cpu.execute(Instruction::INC(IncDecTarget::BC));

    assert_eq!(0, cpu.registers.get_bc());
    assert_eq!(0x0101, pc);
    assert!(cpu.registers.f.zero);
    assert!(cpu.registers.f.carry);
}

#[test]
fn inc_de_increments_pair() {
    let mut cpu = CPU::default();
    cpu.registers.set_de(0x12FF);

    let pc = cpu.execute(Instruction::INC(IncDecTarget::DE));

    assert_eq!(0x1300, cpu.registers.get_de());
    assert_eq!(1, pc);
}

#[test]
fn step_executes_instruction_and_assigns_pc() {
    let mut cpu = CPU::default();
    cpu.bus.write_byte(0x0000, 0x81);
    cpu.registers.a = 1;
    cpu.registers.c = 2;

    let result = cpu.step();

    assert!(result.is_ok());
    assert_eq!(3, cpu.registers.a);
    assert_eq!(1, cpu.pc);
}

#[test]
fn step_follows_taken_jump() {
    let mut cpu = CPU::default();
    cpu.bus.write_byte(0x0000, 0xC2);
    cpu.bus.write_byte(0x0001, 0x34);
    cpu.bus.write_byte(0x0002, 0x12);

    let result = cpu.step();

    assert!(result.is_ok());
    assert_eq!(0x1234, cpu.pc);
}

#[test]
fn step_reports_unknown_opcode_and_keeps_state() {
    let mut cpu = CPU::default();
    cpu.bus.write_byte(0x0000, 0xD3);
    cpu.registers.a = 7;

    let result = cpu.step();

    match result {
        Err(DecodeError::UnknownOpcode(code)) => assert_eq!("0xd3", code),
        Ok(()) => panic!("a decode failure must surface, never a silent no-op"),
    }
    assert_eq!(0, cpu.pc);
    assert_eq!(7, cpu.registers.a);
}
