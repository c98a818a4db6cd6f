use emu8086::{ByteReg, EmuError, Regname, Registers, SegReg, WordReg};

#[test]
fn word_write_updates_both_byte_views() {
    let words = [WordReg::AX, WordReg::BX, WordReg::CX, WordReg::DX];
    let lows = [ByteReg::AL, ByteReg::BL, ByteReg::CL, ByteReg::DL];
    let highs = [ByteReg::AH, ByteReg::BH, ByteReg::CH, ByteReg::DH];
    let values: [u16; 5] = [0x0000, 0x00FF, 0xFF00, 0xAC24, 0xFFFF];
    for k in 0..4 {
        for &v in values.iter() {
            let mut r = Registers::new();
            r.write_word_reg(words[k], v);
            assert_eq!(r.read_byte_reg(lows[k]), (v & 0xFF) as u8);
            assert_eq!(r.read_byte_reg(highs[k]), (v >> 8) as u8);
            assert_eq!(r.read_word_reg(words[k]), v);
        }
    }
}

#[test]
fn byte_write_visible_through_word_view() {
    let words = [WordReg::AX, WordReg::BX, WordReg::CX, WordReg::DX];
    let lows = [ByteReg::AL, ByteReg::BL, ByteReg::CL, ByteReg::DL];
    let highs = [ByteReg::AH, ByteReg::BH, ByteReg::CH, ByteReg::DH];
    for k in 0..4 {
        let mut r = Registers::new();
        r.write_word_reg(words[k], 0x1234);
        r.write_byte_reg(lows[k], 0xCD);
        assert_eq!(r.read_word_reg(words[k]), 0x12CD);
        r.write_byte_reg(highs[k], 0xAB);
        assert_eq!(r.read_word_reg(words[k]), 0xABCD);
    }
}

#[test]
fn selector_accessors_move_values() {
    let mut r = Registers::new();
    assert_eq!(r.set_word(Regname::Word(WordReg::DX), 0xBEEF), Ok(()));
    assert_eq!(r.get_word(Regname::Word(WordReg::DX)), Ok(0xBEEF));
    assert_eq!(r.get_byte(Regname::Byte(ByteReg::DL)), Ok(0xEF));
    assert_eq!(r.get_byte(Regname::Byte(ByteReg::DH)), Ok(0xBE));
    assert_eq!(r.set_byte(Regname::Byte(ByteReg::FlagsL), 0x41), Ok(()));
    assert_eq!(r.get_byte(Regname::Byte(ByteReg::FlagsL)), Ok(0x41));
    assert_eq!(r.set_word(Regname::Seg(SegReg::DS), 0x2000), Ok(()));
    assert_eq!(r.get_word(Regname::Seg(SegReg::DS)), Ok(0x2000));
}

#[test]
fn wrong_family_selector_is_invalid_register() {
    let mut r = Registers::new();
    assert_eq!(
        r.get_byte(Regname::Word(WordReg::AX)),
        Err(EmuError::InvalidRegister)
    );
    assert_eq!(
        r.get_byte(Regname::Seg(SegReg::CS)),
        Err(EmuError::InvalidRegister)
    );
    assert_eq!(
        r.set_byte(Regname::Word(WordReg::SP), 1),
        Err(EmuError::InvalidRegister)
    );
    assert_eq!(
        r.get_word(Regname::Byte(ByteReg::AL)),
        Err(EmuError::InvalidRegister)
    );
    assert_eq!(
        r.set_word(Regname::Byte(ByteReg::AH), 1),
        Err(EmuError::InvalidRegister)
    );
    // A failed write changes nothing.
    assert_eq!(r.read_word_reg(WordReg::SP), 0);
    assert_eq!(r.read_byte_reg(ByteReg::AH), 0);
}

#[test]
fn reset_reaches_documented_power_on_state() {
    let mut r = Registers::new();
    r.write_word_reg(WordReg::AX, 0x1111);
    r.write_word_reg(WordReg::SP, 0x2222);
    r.write_word_reg(WordReg::IP, 0x3333);
    r.write_byte_reg(ByteReg::FlagsH, 0x44);
    r.write_seg_reg(SegReg::SS, 0x5555);
    r.reset();
    assert_eq!(r.read_word_reg(WordReg::AX), 0);
    assert_eq!(r.read_word_reg(WordReg::BX), 0);
    assert_eq!(r.read_word_reg(WordReg::CX), 0);
    assert_eq!(r.read_word_reg(WordReg::DX), 0);
    assert_eq!(r.read_word_reg(WordReg::SP), 0);
    assert_eq!(r.read_word_reg(WordReg::BP), 0);
    assert_eq!(r.read_word_reg(WordReg::SI), 0);
    assert_eq!(r.read_word_reg(WordReg::DI), 0);
    assert_eq!(r.read_word_reg(WordReg::IP), 0xFFF0);
    assert_eq!(r.read_byte_reg(ByteReg::FlagsL), 0);
    assert_eq!(r.read_byte_reg(ByteReg::FlagsH), 0);
    assert_eq!(r.read_seg_reg(SegReg::CS), 0xF000);
    assert_eq!(r.read_seg_reg(SegReg::DS), 0);
    assert_eq!(r.read_seg_reg(SegReg::SS), 0);
    assert_eq!(r.read_seg_reg(SegReg::ES), 0);
}

#[test]
fn reset_is_deterministic_regardless_of_prior_state() {
    let mut a = Registers::new();
    let mut b = Registers::new();
    a.write_word_reg(WordReg::AX, 0xDEAD);
    a.write_word_reg(WordReg::IP, 0x0102);
    a.write_seg_reg(SegReg::ES, 0x0304);
    b.write_byte_reg(ByteReg::CL, 0x77);
    b.write_word_reg(WordReg::DI, 0xFFFF);
    a.reset();
    b.reset();
    assert_eq!(a, b);
}
