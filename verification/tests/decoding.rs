use chip8::instruction::{address, bs4_usize, bs8_usize, low_byte, low_nibble};
use chip8::{decode, Instruction};

#[test]
fn operand_fields() {
    assert_eq!(bs8_usize(0xABCD), 0xB);
    assert_eq!(bs4_usize(0xABCD), 0xC);
    assert_eq!(low_nibble(0xABCD), 0xD);
    assert_eq!(low_byte(0xABCD), 0xCD);
    assert_eq!(address(0xABCD), 0xBCD);
    assert_eq!(bs8_usize(0xF0FF), 0);
    assert_eq!(bs4_usize(0xFF0F), 0);
}

#[test]
fn decode_family_zero() {
    assert_eq!(decode(0x00E0), Instruction::ClearDisplay);
    assert_eq!(decode(0x00EE), Instruction::Return);
    assert_eq!(decode(0x0000), Instruction::Sys);
    assert_eq!(decode(0x0123), Instruction::Sys);
    assert_eq!(decode(0x00E1), Instruction::Sys);
}

#[test]
fn decode_by_family() {
    assert_eq!(decode(0x1234), Instruction::Jump);
    assert_eq!(decode(0x2234), Instruction::Call);
    assert_eq!(decode(0x3234), Instruction::SkipEqImm);
    assert_eq!(decode(0x4234), Instruction::SkipNeImm);
    assert_eq!(decode(0x5230), Instruction::SkipEqReg);
    assert_eq!(decode(0x523F), Instruction::SkipEqReg);
    assert_eq!(decode(0x6234), Instruction::LoadImm);
    assert_eq!(decode(0x7234), Instruction::AddImm);
    assert_eq!(decode(0x9230), Instruction::SkipNeReg);
    assert_eq!(decode(0x9231), Instruction::SkipNeReg);
    assert_eq!(decode(0xA234), Instruction::LoadIndex);
    assert_eq!(decode(0xB234), Instruction::JumpOffset);
    assert_eq!(decode(0xC234), Instruction::Random);
    assert_eq!(decode(0xD234), Instruction::Draw);
}

#[test]
fn decode_arithmetic_family() {
    assert_eq!(decode(0x8120), Instruction::Move);
    assert_eq!(decode(0x8121), Instruction::Or);
    assert_eq!(decode(0x8122), Instruction::And);
    assert_eq!(decode(0x8123), Instruction::Xor);
    assert_eq!(decode(0x8124), Instruction::Add);
    assert_eq!(decode(0x8125), Instruction::Sub);
    assert_eq!(decode(0x8126), Instruction::ShiftRight);
    assert_eq!(decode(0x8127), Instruction::SubReverse);
    assert_eq!(decode(0x812E), Instruction::ShiftLeft);
    for n in [0x8u16, 0x9, 0xA, 0xB, 0xC, 0xD, 0xF] {
        assert_eq!(decode(0x8120 | n), Instruction::Unrecognized);
    }
}

#[test]
fn decode_key_family() {
    assert_eq!(decode(0xE19E), Instruction::SkipKey);
    assert_eq!(decode(0xE1A1), Instruction::SkipNotKey);
    assert_eq!(decode(0xE100), Instruction::Unrecognized);
    assert_eq!(decode(0xE19F), Instruction::Unrecognized);
}

#[test]
fn decode_misc_family() {
    assert_eq!(decode(0xF107), Instruction::GetDelay);
    assert_eq!(decode(0xF10A), Instruction::WaitKey);
    assert_eq!(decode(0xF115), Instruction::SetDelay);
    assert_eq!(decode(0xF118), Instruction::SetSound);
    assert_eq!(decode(0xF11E), Instruction::AddIndex);
    assert_eq!(decode(0xF129), Instruction::Glyph);
    assert_eq!(decode(0xF133), Instruction::Bcd);
    assert_eq!(decode(0xF155), Instruction::Store);
    assert_eq!(decode(0xF165), Instruction::Load);
    assert_eq!(decode(0xF100), Instruction::Unrecognized);
    assert_eq!(decode(0xF166), Instruction::Unrecognized);
}

#[test]
fn every_word_decodes() {
    let mut unrecognized = 0u32;
    for word in 0..=0xFFFFu16 {
        if decode(word) == Instruction::Unrecognized {
            unrecognized += 1;
        }
    }
    // 7 of 16 low nibbles in family 8, 254 of 256 low bytes in family E,
    // 247 of 256 in family F, for each of the 256 values of the other bits.
    assert_eq!(unrecognized, 7 * 256 + 254 * 16 + 247 * 16);
}
