//! The opcode decoder: a closed enumeration of instruction identifiers, an
//! explicit finite mapping between identifiers and their byte encodings, and
//! the instruction class each identifier dispatches to.

use vstd::prelude::*;
use crate::control::Cond;
use crate::registers::{Reg8, RegPair};

verus! {

/// A symbolic instruction identifier, one per implemented byte encoding.
#[derive(Clone, Copy, PartialEq, Eq, Structural, Debug)]
pub enum Opcode {
    Nop,
    LdBCXX,
    LdVBCA,
    IncBC,
    IncB,
    DecB,
    RlcA,
    ExAFAF,
    AddHLBC,
    DecBC,
    IncC,
    DecC,
    LdDEXX,
    LdVDEA,
    IncDE,
    IncD,
    DecD,
    AddHLDE,
    DecDE,
    IncE,
    DecE,
    LdHLXX,
    LdVXXHL,
    IncHL,
    IncH,
    DecH,
    AddHLHL,
    DecHL,
    IncL,
    DecL,
    LdSPXX,
    LdVXXA,
    IncSP,
    AddHLSP,
    DecSP,
    IncA,
    DecA,
    Halt,
    AddB,
    AddC,
    AddD,
    AddE,
    AddH,
    AddL,
    AddA,
    AdcB,
    AdcC,
    AdcD,
    AdcE,
    AdcH,
    AdcL,
    AdcA,
    SubB,
    SubC,
    SubD,
    SubE,
    SubH,
    SubL,
    SubA,
    SbcB,
    SbcC,
    SbcD,
    SbcE,
    SbcH,
    SbcL,
    SbcA,
    AndB,
    AndC,
    AndD,
    AndE,
    AndH,
    AndL,
    AndA,
    XorB,
    XorC,
    XorD,
    XorE,
    XorH,
    XorL,
    XorA,
    OrB,
    OrC,
    OrD,
    OrE,
    OrH,
    OrL,
    OrA,
    PopBC,
    JpNZXX,
    JpXX,
    PushBC,
    JpZXX,
    PopDE,
    JpNCXX,
    PushDE,
    Exx,
    JpCXX,
    PopHL,
    JpPOXX,
    ExVSPHL,
    PushHL,
    JpPEXX,
    ExDEHL,
    PopAF,
    JpPXX,
    PushAF,
    JpMXX,
}

/// The byte encoding of an instruction identifier.
pub open spec fn opcode_byte(op: Opcode) -> u8 {
    match op {
        Opcode::Nop => 0x00,
        Opcode::LdBCXX => 0x01,
        Opcode::LdVBCA => 0x02,
        Opcode::IncBC => 0x03,
        Opcode::IncB => 0x04,
        Opcode::DecB => 0x05,
        Opcode::RlcA => 0x07,
        Opcode::ExAFAF => 0x08,
        Opcode::AddHLBC => 0x09,
        Opcode::DecBC => 0x0B,
        Opcode::IncC => 0x0C,
        Opcode::DecC => 0x0D,
        Opcode::LdDEXX => 0x11,
        Opcode::LdVDEA => 0x12,
        Opcode::IncDE => 0x13,
        Opcode::IncD => 0x14,
        Opcode::DecD => 0x15,
        Opcode::AddHLDE => 0x19,
        Opcode::DecDE => 0x1B,
        Opcode::IncE => 0x1C,
        Opcode::DecE => 0x1D,
        Opcode::LdHLXX => 0x21,
        Opcode::LdVXXHL => 0x22,
        Opcode::IncHL => 0x23,
        Opcode::IncH => 0x24,
        Opcode::DecH => 0x25,
        Opcode::AddHLHL => 0x29,
        Opcode::DecHL => 0x2B,
        Opcode::IncL => 0x2C,
        Opcode::DecL => 0x2D,
        Opcode::LdSPXX => 0x31,
        Opcode::LdVXXA => 0x32,
        Opcode::IncSP => 0x33,
        Opcode::AddHLSP => 0x39,
        Opcode::DecSP => 0x3B,
        Opcode::IncA => 0x3C,
        Opcode::DecA => 0x3D,
        Opcode::Halt => 0x76,
        Opcode::AddB => 0x80,
        Opcode::AddC => 0x81,
        Opcode::AddD => 0x82,
        Opcode::AddE => 0x83,
        Opcode::AddH => 0x84,
        Opcode::AddL => 0x85,
        Opcode::AddA => 0x87,
        Opcode::AdcB => 0x88,
        Opcode::AdcC => 0x89,
        Opcode::AdcD => 0x8A,
        Opcode::AdcE => 0x8B,
        Opcode::AdcH => 0x8C,
        Opcode::AdcL => 0x8D,
        Opcode::AdcA => 0x8F,
        Opcode::SubB => 0x90,
        Opcode::SubC => 0x91,
        Opcode::SubD => 0x92,
        Opcode::SubE => 0x93,
        Opcode::SubH => 0x94,
        Opcode::SubL => 0x95,
        Opcode::SubA => 0x97,
        Opcode::SbcB => 0x98,
        Opcode::SbcC => 0x99,
        Opcode::SbcD => 0x9A,
        Opcode::SbcE => 0x9B,
        Opcode::SbcH => 0x9C,
        Opcode::SbcL => 0x9D,
        Opcode::SbcA => 0x9F,
        Opcode::AndB => 0xA0,
        Opcode::AndC => 0xA1,
        Opcode::AndD => 0xA2,
        Opcode::AndE => 0xA3,
        Opcode::AndH => 0xA4,
        Opcode::AndL => 0xA5,
        Opcode::AndA => 0xA7,
        Opcode::XorB => 0xA8,
        Opcode::XorC => 0xA9,
        Opcode::XorD => 0xAA,
        Opcode::XorE => 0xAB,
        Opcode::XorH => 0xAC,
        Opcode::XorL => 0xAD,
        Opcode::XorA => 0xAF,
        Opcode::OrB => 0xB0,
        Opcode::OrC => 0xB1,
        Opcode::OrD => 0xB2,
        Opcode::OrE => 0xB3,
        Opcode::OrH => 0xB4,
        Opcode::OrL => 0xB5,
        Opcode::OrA => 0xB7,
        Opcode::PopBC => 0xC1,
        Opcode::JpNZXX => 0xC2,
        Opcode::JpXX => 0xC3,
        Opcode::PushBC => 0xC5,
        Opcode::JpZXX => 0xCA,
        Opcode::PopDE => 0xD1,
        Opcode::JpNCXX => 0xD2,
        Opcode::PushDE => 0xD5,
        Opcode::Exx => 0xD9,
        Opcode::JpCXX => 0xDA,
        Opcode::PopHL => 0xE1,
        Opcode::JpPOXX => 0xE2,
        Opcode::ExVSPHL => 0xE3,
        Opcode::PushHL => 0xE5,
        Opcode::JpPEXX => 0xEA,
        Opcode::ExDEHL => 0xEB,
        Opcode::PopAF => 0xF1,
        Opcode::JpPXX => 0xF2,
        Opcode::PushAF => 0xF5,
        Opcode::JpMXX => 0xFA,
    }
}

/// The instruction identifier a byte decodes to, or `None` for a byte with
/// no defined encoding (an invalid opcode).
pub open spec fn opcode_decode(b: u8) -> Option<Opcode> {
    match b {
        0x00u8 => Some(Opcode::Nop),
        0x01u8 => Some(Opcode::LdBCXX),
        0x02u8 => Some(Opcode::LdVBCA),
        0x03u8 => Some(Opcode::IncBC),
        0x04u8 => Some(Opcode::IncB),
        0x05u8 => Some(Opcode::DecB),
        0x07u8 => Some(Opcode::RlcA),
        0x08u8 => Some(Opcode::ExAFAF),
        0x09u8 => Some(Opcode::AddHLBC),
        0x0Bu8 => Some(Opcode::DecBC),
        0x0Cu8 => Some(Opcode::IncC),
        0x0Du8 => Some(Opcode::DecC),
        0x11u8 => Some(Opcode::LdDEXX),
        0x12u8 => Some(Opcode::LdVDEA),
        0x13u8 => Some(Opcode::IncDE),
        0x14u8 => Some(Opcode::IncD),
        0x15u8 => Some(Opcode::DecD),
        0x19u8 => Some(Opcode::AddHLDE),
        0x1Bu8 => Some(Opcode::DecDE),
        0x1Cu8 => Some(Opcode::IncE),
        0x1Du8 => Some(Opcode::DecE),
        0x21u8 => Some(Opcode::LdHLXX),
        0x22u8 => Some(Opcode::LdVXXHL),
        0x23u8 => Some(Opcode::IncHL),
        0x24u8 => Some(Opcode::IncH),
        0x25u8 => Some(Opcode::DecH),
        0x29u8 => Some(Opcode::AddHLHL),
        0x2Bu8 => Some(Opcode::DecHL),
        0x2Cu8 => Some(Opcode::IncL),
        0x2Du8 => Some(Opcode::DecL),
        0x31u8 => Some(Opcode::LdSPXX),
        0x32u8 => Some(Opcode::LdVXXA),
        0x33u8 => Some(Opcode::IncSP),
        0x39u8 => Some(Opcode::AddHLSP),
        0x3Bu8 => Some(Opcode::DecSP),
        0x3Cu8 => Some(Opcode::IncA),
        0x3Du8 => Some(Opcode::DecA),
        0x76u8 => Some(Opcode::Halt),
        0x80u8 => Some(Opcode::AddB),
        0x81u8 => Some(Opcode::AddC),
        0x82u8 => Some(Opcode::AddD),
        0x83u8 => Some(Opcode::AddE),
        0x84u8 => Some(Opcode::AddH),
        0x85u8 => Some(Opcode::AddL),
        0x87u8 => Some(Opcode::AddA),
        0x88u8 => Some(Opcode::AdcB),
        0x89u8 => Some(Opcode::AdcC),
        0x8Au8 => Some(Opcode::AdcD),
        0x8Bu8 => Some(Opcode::AdcE),
        0x8Cu8 => Some(Opcode::AdcH),
        0x8Du8 => Some(Opcode::AdcL),
        0x8Fu8 => Some(Opcode::AdcA),
        0x90u8 => Some(Opcode::SubB),
        0x91u8 => Some(Opcode::SubC),
        0x92u8 => Some(Opcode::SubD),
        0x93u8 => Some(Opcode::SubE),
        0x94u8 => Some(Opcode::SubH),
        0x95u8 => Some(Opcode::SubL),
        0x97u8 => Some(Opcode::SubA),
        0x98u8 => Some(Opcode::SbcB),
        0x99u8 => Some(Opcode::SbcC),
        0x9Au8 => Some(Opcode::SbcD),
        0x9Bu8 => Some(Opcode::SbcE),
        0x9Cu8 => Some(Opcode::SbcH),
        0x9Du8 => Some(Opcode::SbcL),
        0x9Fu8 => Some(Opcode::SbcA),
        0xA0u8 => Some(Opcode::AndB),
        0xA1u8 => Some(Opcode::AndC),
        0xA2u8 => Some(Opcode::AndD),
        0xA3u8 => Some(Opcode::AndE),
        0xA4u8 => Some(Opcode::AndH),
        0xA5u8 => Some(Opcode::AndL),
        0xA7u8 => Some(Opcode::AndA),
        0xA8u8 => Some(Opcode::XorB),
        0xA9u8 => Some(Opcode::XorC),
        0xAAu8 => Some(Opcode::XorD),
        0xABu8 => Some(Opcode::XorE),
        0xACu8 => Some(Opcode::XorH),
        0xADu8 => Some(Opcode::XorL),
        0xAFu8 => Some(Opcode::XorA),
        0xB0u8 => Some(Opcode::OrB),
        0xB1u8 => Some(Opcode::OrC),
        0xB2u8 => Some(Opcode::OrD),
        0xB3u8 => Some(Opcode::OrE),
        0xB4u8 => Some(Opcode::OrH),
        0xB5u8 => Some(Opcode::OrL),
        0xB7u8 => Some(Opcode::OrA),
        0xC1u8 => Some(Opcode::PopBC),
        0xC2u8 => Some(Opcode::JpNZXX),
        0xC3u8 => Some(Opcode::JpXX),
        0xC5u8 => Some(Opcode::PushBC),
        0xCAu8 => Some(Opcode::JpZXX),
        0xD1u8 => Some(Opcode::PopDE),
        0xD2u8 => Some(Opcode::JpNCXX),
        0xD5u8 => Some(Opcode::PushDE),
        0xD9u8 => Some(Opcode::Exx),
        0xDAu8 => Some(Opcode::JpCXX),
        0xE1u8 => Some(Opcode::PopHL),
        0xE2u8 => Some(Opcode::JpPOXX),
        0xE3u8 => Some(Opcode::ExVSPHL),
        0xE5u8 => Some(Opcode::PushHL),
        0xEAu8 => Some(Opcode::JpPEXX),
        0xEBu8 => Some(Opcode::ExDEHL),
        0xF1u8 => Some(Opcode::PopAF),
        0xF2u8 => Some(Opcode::JpPXX),
        0xF5u8 => Some(Opcode::PushAF),
        0xFAu8 => Some(Opcode::JpMXX),
        _ => None,
    }
}

/// The instruction class and operands an identifier dispatches to, or `None`
/// for an identifier with no handler, which falls through to the fatal path.
pub open spec fn instruction_of(op: Opcode) -> Option<Instr> {
    match op {
        Opcode::Nop => Some(Instr::Nop),
        Opcode::Halt => Some(Instr::Halt),
        Opcode::LdBCXX => Some(Instr::LoadPair(RegPair::BC)),
        Opcode::LdDEXX => Some(Instr::LoadPair(RegPair::DE)),
        Opcode::LdHLXX => Some(Instr::LoadPair(RegPair::HL)),
        Opcode::LdSPXX => Some(Instr::LoadPair(RegPair::SP)),
        Opcode::LdVBCA => Some(Instr::StoreReg(Reg8::A, RegPair::BC)),
        Opcode::LdVDEA => Some(Instr::StoreReg(Reg8::A, RegPair::DE)),
        Opcode::LdVXXHL => None,
        Opcode::LdVXXA => None,
        Opcode::IncBC => Some(Instr::IncWide(RegPair::BC)),
        Opcode::IncDE => Some(Instr::IncWide(RegPair::DE)),
        Opcode::IncHL => Some(Instr::IncWide(RegPair::HL)),
        Opcode::IncSP => Some(Instr::IncWide(RegPair::SP)),
        Opcode::DecBC => Some(Instr::DecWide(RegPair::BC)),
        Opcode::DecDE => Some(Instr::DecWide(RegPair::DE)),
        Opcode::DecHL => Some(Instr::DecWide(RegPair::HL)),
        Opcode::DecSP => Some(Instr::DecWide(RegPair::SP)),
        Opcode::AddHLBC => Some(Instr::AddPair(RegPair::HL, RegPair::BC)),
        Opcode::AddHLDE => Some(Instr::AddPair(RegPair::HL, RegPair::DE)),
        Opcode::AddHLHL => Some(Instr::AddPair(RegPair::HL, RegPair::HL)),
        Opcode::AddHLSP => Some(Instr::AddPair(RegPair::HL, RegPair::SP)),
        Opcode::IncA => Some(Instr::Inc(Reg8::A)),
        Opcode::IncB => Some(Instr::Inc(Reg8::B)),
        Opcode::IncC => Some(Instr::Inc(Reg8::C)),
        Opcode::IncD => Some(Instr::Inc(Reg8::D)),
        Opcode::IncE => Some(Instr::Inc(Reg8::E)),
        Opcode::IncH => Some(Instr::Inc(Reg8::H)),
        Opcode::IncL => Some(Instr::Inc(Reg8::L)),
        Opcode::DecA => Some(Instr::Dec(Reg8::A)),
        Opcode::DecB => Some(Instr::Dec(Reg8::B)),
        Opcode::DecC => Some(Instr::Dec(Reg8::C)),
        Opcode::DecD => Some(Instr::Dec(Reg8::D)),
        Opcode::DecE => Some(Instr::Dec(Reg8::E)),
        Opcode::DecH => Some(Instr::Dec(Reg8::H)),
        Opcode::DecL => Some(Instr::Dec(Reg8::L)),
        Opcode::AddA => Some(Instr::Add(Reg8::A)),
        Opcode::AddB => Some(Instr::Add(Reg8::B)),
        Opcode::AddC => Some(Instr::Add(Reg8::C)),
        Opcode::AddD => Some(Instr::Add(Reg8::D)),
        Opcode::AddE => Some(Instr::Add(Reg8::E)),
        Opcode::AddH => Some(Instr::Add(Reg8::H)),
        Opcode::AddL => Some(Instr::Add(Reg8::L)),
        Opcode::AdcA => Some(Instr::Adc(Reg8::A)),
        Opcode::AdcB => Some(Instr::Adc(Reg8::B)),
        Opcode::AdcC => Some(Instr::Adc(Reg8::C)),
        Opcode::AdcD => Some(Instr::Adc(Reg8::D)),
        Opcode::AdcE => Some(Instr::Adc(Reg8::E)),
        Opcode::AdcH => Some(Instr::Adc(Reg8::H)),
        Opcode::AdcL => Some(Instr::Adc(Reg8::L)),
        Opcode::SubA => Some(Instr::Sub(Reg8::A)),
        Opcode::SubB => Some(Instr::Sub(Reg8::B)),
        Opcode::SubC => Some(Instr::Sub(Reg8::C)),
        Opcode::SubD => Some(Instr::Sub(Reg8::D)),
        Opcode::SubE => Some(Instr::Sub(Reg8::E)),
        Opcode::SubH => Some(Instr::Sub(Reg8::H)),
        Opcode::SubL => Some(Instr::Sub(Reg8::L)),
        Opcode::SbcA => Some(Instr::Sbc(Reg8::A)),
        Opcode::SbcB => Some(Instr::Sbc(Reg8::B)),
        Opcode::SbcC => Some(Instr::Sbc(Reg8::C)),
        Opcode::SbcD => Some(Instr::Sbc(Reg8::D)),
        Opcode::SbcE => Some(Instr::Sbc(Reg8::E)),
        Opcode::SbcH => Some(Instr::Sbc(Reg8::H)),
        Opcode::SbcL => Some(Instr::Sbc(Reg8::L)),
        Opcode::AndA => Some(Instr::And(Reg8::A)),
        Opcode::AndB => Some(Instr::And(Reg8::B)),
        Opcode::AndC => Some(Instr::And(Reg8::C)),
        Opcode::AndD => Some(Instr::And(Reg8::D)),
        Opcode::AndE => Some(Instr::And(Reg8::E)),
        Opcode::AndH => Some(Instr::And(Reg8::H)),
        Opcode::AndL => Some(Instr::And(Reg8::L)),
        Opcode::XorA => Some(Instr::Xor(Reg8::A)),
        Opcode::XorB => Some(Instr::Xor(Reg8::B)),
        Opcode::XorC => Some(Instr::Xor(Reg8::C)),
        Opcode::XorD => Some(Instr::Xor(Reg8::D)),
        Opcode::XorE => Some(Instr::Xor(Reg8::E)),
        Opcode::XorH => Some(Instr::Xor(Reg8::H)),
        Opcode::XorL => Some(Instr::Xor(Reg8::L)),
        Opcode::OrA => Some(Instr::Or(Reg8::A)),
        Opcode::OrB => Some(Instr::Or(Reg8::B)),
        Opcode::OrC => Some(Instr::Or(Reg8::C)),
        Opcode::OrD => Some(Instr::Or(Reg8::D)),
        Opcode::OrE => Some(Instr::Or(Reg8::E)),
        Opcode::OrH => Some(Instr::Or(Reg8::H)),
        Opcode::OrL => Some(Instr::Or(Reg8::L)),
        Opcode::RlcA => Some(Instr::RotateLeft),
        Opcode::JpXX => Some(Instr::Jump(Cond::Always)),
        Opcode::JpNZXX => Some(Instr::Jump(Cond::ZeroClear)),
        Opcode::JpZXX => Some(Instr::Jump(Cond::ZeroSet)),
        Opcode::JpNCXX => Some(Instr::Jump(Cond::CarryClear)),
        Opcode::JpCXX => Some(Instr::Jump(Cond::CarrySet)),
        Opcode::JpPOXX => Some(Instr::Jump(Cond::ParityOverflowSet)),
        Opcode::JpPEXX => Some(Instr::Jump(Cond::ParityOverflowClear)),
        Opcode::JpPXX => Some(Instr::Jump(Cond::SignClear)),
        Opcode::JpMXX => Some(Instr::Jump(Cond::SignSet)),
        Opcode::PushBC => Some(Instr::Push(RegPair::BC)),
        Opcode::PushDE => Some(Instr::Push(RegPair::DE)),
        Opcode::PushHL => Some(Instr::Push(RegPair::HL)),
        Opcode::PushAF => Some(Instr::Push(RegPair::AF)),
        Opcode::PopBC => Some(Instr::Pop(RegPair::BC)),
        Opcode::PopDE => Some(Instr::Pop(RegPair::DE)),
        Opcode::PopHL => Some(Instr::Pop(RegPair::HL)),
        Opcode::PopAF => Some(Instr::Pop(RegPair::AF)),
        Opcode::Exx => Some(Instr::Exx),
        Opcode::ExAFAF => Some(Instr::ExAfAf),
        Opcode::ExDEHL => Some(Instr::ExDeHl),
        Opcode::ExVSPHL => Some(Instr::ExSpHl),
    }
}

/// An instruction class together with its register operands.
#[derive(Clone, Copy, PartialEq, Eq, Structural, Debug)]
pub enum Instr {
    Nop,
    Halt,
    Add(Reg8),
    Adc(Reg8),
    Sub(Reg8),
    Sbc(Reg8),
    Inc(Reg8),
    Dec(Reg8),
    IncWide(RegPair),
    DecWide(RegPair),
    AddPair(RegPair, RegPair),
    And(Reg8),
    Or(Reg8),
    Xor(Reg8),
    RotateLeft,
    Jump(Cond),
    Push(RegPair),
    Pop(RegPair),
    Exx,
    ExAfAf,
    ExDeHl,
    ExSpHl,
    LoadPair(RegPair),
    StoreReg(Reg8, RegPair),
}

impl Opcode {
    /// The byte this identifier encodes to.
    pub fn to_byte(self) -> (b: u8)
        ensures
            b == opcode_byte(self),
    {
        match self {
            Opcode::Nop => 0x00,
            Opcode::LdBCXX => 0x01,
            Opcode::LdVBCA => 0x02,
            Opcode::IncBC => 0x03,
            Opcode::IncB => 0x04,
            Opcode::DecB => 0x05,
            Opcode::RlcA => 0x07,
            Opcode::ExAFAF => 0x08,
            Opcode::AddHLBC => 0x09,
            Opcode::DecBC => 0x0B,
            Opcode::IncC => 0x0C,
            Opcode::DecC => 0x0D,
            Opcode::LdDEXX => 0x11,
            Opcode::LdVDEA => 0x12,
            Opcode::IncDE => 0x13,
            Opcode::IncD => 0x14,
            Opcode::DecD => 0x15,
            Opcode::AddHLDE => 0x19,
            Opcode::DecDE => 0x1B,
            Opcode::IncE => 0x1C,
            Opcode::DecE => 0x1D,
            Opcode::LdHLXX => 0x21,
            Opcode::LdVXXHL => 0x22,
            Opcode::IncHL => 0x23,
            Opcode::IncH => 0x24,
            Opcode::DecH => 0x25,
            Opcode::AddHLHL => 0x29,
            Opcode::DecHL => 0x2B,
            Opcode::IncL => 0x2C,
            Opcode::DecL => 0x2D,
            Opcode::LdSPXX => 0x31,
            Opcode::LdVXXA => 0x32,
            Opcode::IncSP => 0x33,
            Opcode::AddHLSP => 0x39,
            Opcode::DecSP => 0x3B,
            Opcode::IncA => 0x3C,
            Opcode::DecA => 0x3D,
            Opcode::Halt => 0x76,
            Opcode::AddB => 0x80,
            Opcode::AddC => 0x81,
            Opcode::AddD => 0x82,
            Opcode::AddE => 0x83,
            Opcode::AddH => 0x84,
            Opcode::AddL => 0x85,
            Opcode::AddA => 0x87,
            Opcode::AdcB => 0x88,
            Opcode::AdcC => 0x89,
            Opcode::AdcD => 0x8A,
            Opcode::AdcE => 0x8B,
            Opcode::AdcH => 0x8C,
            Opcode::AdcL => 0x8D,
            Opcode::AdcA => 0x8F,
            Opcode::SubB => 0x90,
            Opcode::SubC => 0x91,
            Opcode::SubD => 0x92,
            Opcode::SubE => 0x93,
            Opcode::SubH => 0x94,
            Opcode::SubL => 0x95,
            Opcode::SubA => 0x97,
            Opcode::SbcB => 0x98,
            Opcode::SbcC => 0x99,
            Opcode::SbcD => 0x9A,
            Opcode::SbcE => 0x9B,
            Opcode::SbcH => 0x9C,
            Opcode::SbcL => 0x9D,
            Opcode::SbcA => 0x9F,
            Opcode::AndB => 0xA0,
            Opcode::AndC => 0xA1,
            Opcode::AndD => 0xA2,
            Opcode::AndE => 0xA3,
            Opcode::AndH => 0xA4,
            Opcode::AndL => 0xA5,
            Opcode::AndA => 0xA7,
            Opcode::XorB => 0xA8,
            Opcode::XorC => 0xA9,
            Opcode::XorD => 0xAA,
            Opcode::XorE => 0xAB,
            Opcode::XorH => 0xAC,
            Opcode::XorL => 0xAD,
            Opcode::XorA => 0xAF,
            Opcode::OrB => 0xB0,
            Opcode::OrC => 0xB1,
            Opcode::OrD => 0xB2,
            Opcode::OrE => 0xB3,
            Opcode::OrH => 0xB4,
            Opcode::OrL => 0xB5,
            Opcode::OrA => 0xB7,
            Opcode::PopBC => 0xC1,
            Opcode::JpNZXX => 0xC2,
            Opcode::JpXX => 0xC3,
            Opcode::PushBC => 0xC5,
            Opcode::JpZXX => 0xCA,
            Opcode::PopDE => 0xD1,
            Opcode::JpNCXX => 0xD2,
            Opcode::PushDE => 0xD5,
            Opcode::Exx => 0xD9,
            Opcode::JpCXX => 0xDA,
            Opcode::PopHL => 0xE1,
            Opcode::JpPOXX => 0xE2,
            Opcode::ExVSPHL => 0xE3,
            Opcode::PushHL => 0xE5,
            Opcode::JpPEXX => 0xEA,
            Opcode::ExDEHL => 0xEB,
            Opcode::PopAF => 0xF1,
            Opcode::JpPXX => 0xF2,
            Opcode::PushAF => 0xF5,
            Opcode::JpMXX => 0xFA,
        }
    }


    /// The instruction class this identifier dispatches to, or `None` for an
    /// identifier with no handler.
    pub fn instruction(self) -> (r: Option<Instr>)
        ensures
            r == instruction_of(self),
    {
        match self {
        Opcode::Nop => Some(Instr::Nop),
        Opcode::Halt => Some(Instr::Halt),
        Opcode::LdBCXX => Some(Instr::LoadPair(RegPair::BC)),
        Opcode::LdDEXX => Some(Instr::LoadPair(RegPair::DE)),
        Opcode::LdHLXX => Some(Instr::LoadPair(RegPair::HL)),
        Opcode::LdSPXX => Some(Instr::LoadPair(RegPair::SP)),
        Opcode::LdVBCA => Some(Instr::StoreReg(Reg8::A, RegPair::BC)),
        Opcode::LdVDEA => Some(Instr::StoreReg(Reg8::A, RegPair::DE)),
        Opcode::LdVXXHL => None,
        Opcode::LdVXXA => None,
        Opcode::IncBC => Some(Instr::IncWide(RegPair::BC)),
        Opcode::IncDE => Some(Instr::IncWide(RegPair::DE)),
        Opcode::IncHL => Some(Instr::IncWide(RegPair::HL)),
        Opcode::IncSP => Some(Instr::IncWide(RegPair::SP)),
        Opcode::DecBC => Some(Instr::DecWide(RegPair::BC)),
        Opcode::DecDE => Some(Instr::DecWide(RegPair::DE)),
        Opcode::DecHL => Some(Instr::DecWide(RegPair::HL)),
        Opcode::DecSP => Some(Instr::DecWide(RegPair::SP)),
        Opcode::AddHLBC => Some(Instr::AddPair(RegPair::HL, RegPair::BC)),
        Opcode::AddHLDE => Some(Instr::AddPair(RegPair::HL, RegPair::DE)),
        Opcode::AddHLHL => Some(Instr::AddPair(RegPair::HL, RegPair::HL)),
        Opcode::AddHLSP => Some(Instr::AddPair(RegPair::HL, RegPair::SP)),
        Opcode::IncA => Some(Instr::Inc(Reg8::A)),
        Opcode::IncB => Some(Instr::Inc(Reg8::B)),
        Opcode::IncC => Some(Instr::Inc(Reg8::C)),
        Opcode::IncD => Some(Instr::Inc(Reg8::D)),
        Opcode::IncE => Some(Instr::Inc(Reg8::E)),
        Opcode::IncH => Some(Instr::Inc(Reg8::H)),
        Opcode::IncL => Some(Instr::Inc(Reg8::L)),
        Opcode::DecA => Some(Instr::Dec(Reg8::A)),
        Opcode::DecB => Some(Instr::Dec(Reg8::B)),
        Opcode::DecC => Some(Instr::Dec(Reg8::C)),
        Opcode::DecD => Some(Instr::Dec(Reg8::D)),
        Opcode::DecE => Some(Instr::Dec(Reg8::E)),
        Opcode::DecH => Some(Instr::Dec(Reg8::H)),
        Opcode::DecL => Some(Instr::Dec(Reg8::L)),
        Opcode::AddA => Some(Instr::Add(Reg8::A)),
        Opcode::AddB => Some(Instr::Add(Reg8::B)),
        Opcode::AddC => Some(Instr::Add(Reg8::C)),
        Opcode::AddD => Some(Instr::Add(Reg8::D)),
        Opcode::AddE => Some(Instr::Add(Reg8::E)),
        Opcode::AddH => Some(Instr::Add(Reg8::H)),
        Opcode::AddL => Some(Instr::Add(Reg8::L)),
        Opcode::AdcA => Some(Instr::Adc(Reg8::A)),
        Opcode::AdcB => Some(Instr::Adc(Reg8::B)),
        Opcode::AdcC => Some(Instr::Adc(Reg8::C)),
        Opcode::AdcD => Some(Instr::Adc(Reg8::D)),
        Opcode::AdcE => Some(Instr::Adc(Reg8::E)),
        Opcode::AdcH => Some(Instr::Adc(Reg8::H)),
        Opcode::AdcL => Some(Instr::Adc(Reg8::L)),
        Opcode::SubA => Some(Instr::Sub(Reg8::A)),
        Opcode::SubB => Some(Instr::Sub(Reg8::B)),
        Opcode::SubC => Some(Instr::Sub(Reg8::C)),
        Opcode::SubD => Some(Instr::Sub(Reg8::D)),
        Opcode::SubE => Some(Instr::Sub(Reg8::E)),
        Opcode::SubH => Some(Instr::Sub(Reg8::H)),
        Opcode::SubL => Some(Instr::Sub(Reg8::L)),
        Opcode::SbcA => Some(Instr::Sbc(Reg8::A)),
        Opcode::SbcB => Some(Instr::Sbc(Reg8::B)),
        Opcode::SbcC => Some(Instr::Sbc(Reg8::C)),
        Opcode::SbcD => Some(Instr::Sbc(Reg8::D)),
        Opcode::SbcE => Some(Instr::Sbc(Reg8::E)),
        Opcode::SbcH => Some(Instr::Sbc(Reg8::H)),
        Opcode::SbcL => Some(Instr::Sbc(Reg8::L)),
        Opcode::AndA => Some(Instr::And(Reg8::A)),
        Opcode::AndB => Some(Instr::And(Reg8::B)),
        Opcode::AndC => Some(Instr::And(Reg8::C)),
        Opcode::AndD => Some(Instr::And(Reg8::D)),
        Opcode::AndE => Some(Instr::And(Reg8::E)),
        Opcode::AndH => Some(Instr::And(Reg8::H)),
        Opcode::AndL => Some(Instr::And(Reg8::L)),
        Opcode::XorA => Some(Instr::Xor(Reg8::A)),
        Opcode::XorB => Some(Instr::Xor(Reg8::B)),
        Opcode::XorC => Some(Instr::Xor(Reg8::C)),
        Opcode::XorD => Some(Instr::Xor(Reg8::D)),
        Opcode::XorE => Some(Instr::Xor(Reg8::E)),
        Opcode::XorH => Some(Instr::Xor(Reg8::H)),
        Opcode::XorL => Some(Instr::Xor(Reg8::L)),
        Opcode::OrA => Some(Instr::Or(Reg8::A)),
        Opcode::OrB => Some(Instr::Or(Reg8::B)),
        Opcode::OrC => Some(Instr::Or(Reg8::C)),
        Opcode::OrD => Some(Instr::Or(Reg8::D)),
        Opcode::OrE => Some(Instr::Or(Reg8::E)),
        Opcode::OrH => Some(Instr::Or(Reg8::H)),
        Opcode::OrL => Some(Instr::Or(Reg8::L)),
        Opcode::RlcA => Some(Instr::RotateLeft),
        Opcode::JpXX => Some(Instr::Jump(Cond::Always)),
        Opcode::JpNZXX => Some(Instr::Jump(Cond::ZeroClear)),
        Opcode::JpZXX => Some(Instr::Jump(Cond::ZeroSet)),
        Opcode::JpNCXX => Some(Instr::Jump(Cond::CarryClear)),
        Opcode::JpCXX => Some(Instr::Jump(Cond::CarrySet)),
        Opcode::JpPOXX => Some(Instr::Jump(Cond::ParityOverflowSet)),
        Opcode::JpPEXX => Some(Instr::Jump(Cond::ParityOverflowClear)),
        Opcode::JpPXX => Some(Instr::Jump(Cond::SignClear)),
        Opcode::JpMXX => Some(Instr::Jump(Cond::SignSet)),
        Opcode::PushBC => Some(Instr::Push(RegPair::BC)),
        Opcode::PushDE => Some(Instr::Push(RegPair::DE)),
        Opcode::PushHL => Some(Instr::Push(RegPair::HL)),
        Opcode::PushAF => Some(Instr::Push(RegPair::AF)),
        Opcode::PopBC => Some(Instr::Pop(RegPair::BC)),
        Opcode::PopDE => Some(Instr::Pop(RegPair::DE)),
        Opcode::PopHL => Some(Instr::Pop(RegPair::HL)),
        Opcode::PopAF => Some(Instr::Pop(RegPair::AF)),
        Opcode::Exx => Some(Instr::Exx),
        Opcode::ExAFAF => Some(Instr::ExAfAf),
        Opcode::ExDEHL => Some(Instr::ExDeHl),
        Opcode::ExVSPHL => Some(Instr::ExSpHl),
        }
    }

    /// Decodes a byte to its instruction identifier, or `None` for a byte
    /// with no defined encoding.
    pub fn from_byte(b: u8) -> (r: Option<Opcode>)
        ensures
            r == opcode_decode(b),
    {
        match b {
            0x00u8 => Some(Opcode::Nop),
            0x01u8 => Some(Opcode::LdBCXX),
            0x02u8 => Some(Opcode::LdVBCA),
            0x03u8 => Some(Opcode::IncBC),
            0x04u8 => Some(Opcode::IncB),
            0x05u8 => Some(Opcode::DecB),
            0x07u8 => Some(Opcode::RlcA),
            0x08u8 => Some(Opcode::ExAFAF),
            0x09u8 => Some(Opcode::AddHLBC),
            0x0Bu8 => Some(Opcode::DecBC),
            0x0Cu8 => Some(Opcode::IncC),
            0x0Du8 => Some(Opcode::DecC),
            0x11u8 => Some(Opcode::LdDEXX),
            0x12u8 => Some(Opcode::LdVDEA),
            0x13u8 => Some(Opcode::IncDE),
            0x14u8 => Some(Opcode::IncD),
            0x15u8 => Some(Opcode::DecD),
            0x19u8 => Some(Opcode::AddHLDE),
            0x1Bu8 => Some(Opcode::DecDE),
            0x1Cu8 => Some(Opcode::IncE),
            0x1Du8 => Some(Opcode::DecE),
            0x21u8 => Some(Opcode::LdHLXX),
            0x22u8 => Some(Opcode::LdVXXHL),
            0x23u8 => Some(Opcode::IncHL),
            0x24u8 => Some(Opcode::IncH),
            0x25u8 => Some(Opcode::DecH),
            0x29u8 => Some(Opcode::AddHLHL),
            0x2Bu8 => Some(Opcode::DecHL),
            0x2Cu8 => Some(Opcode::IncL),
            0x2Du8 => Some(Opcode::DecL),
            0x31u8 => Some(Opcode::LdSPXX),
            0x32u8 => Some(Opcode::LdVXXA),
            0x33u8 => Some(Opcode::IncSP),
            0x39u8 => Some(Opcode::AddHLSP),
            0x3Bu8 => Some(Opcode::DecSP),
            0x3Cu8 => Some(Opcode::IncA),
            0x3Du8 => Some(Opcode::DecA),
            0x76u8 => Some(Opcode::Halt),
            0x80u8 => Some(Opcode::AddB),
            0x81u8 => Some(Opcode::AddC),
            0x82u8 => Some(Opcode::AddD),
            0x83u8 => Some(Opcode::AddE),
            0x84u8 => Some(Opcode::AddH),
            0x85u8 => Some(Opcode::AddL),
            0x87u8 => Some(Opcode::AddA),
            0x88u8 => Some(Opcode::AdcB),
            0x89u8 => Some(Opcode::AdcC),
            0x8Au8 => Some(Opcode::AdcD),
            0x8Bu8 => Some(Opcode::AdcE),
            0x8Cu8 => Some(Opcode::AdcH),
            0x8Du8 => Some(Opcode::AdcL),
            0x8Fu8 => Some(Opcode::AdcA),
            0x90u8 => Some(Opcode::SubB),
            0x91u8 => Some(Opcode::SubC),
            0x92u8 => Some(Opcode::SubD),
            0x93u8 => Some(Opcode::SubE),
            0x94u8 => Some(Opcode::SubH),
            0x95u8 => Some(Opcode::SubL),
            0x97u8 => Some(Opcode::SubA),
            0x98u8 => Some(Opcode::SbcB),
            0x99u8 => Some(Opcode::SbcC),
            0x9Au8 => Some(Opcode::SbcD),
            0x9Bu8 => Some(Opcode::SbcE),
            0x9Cu8 => Some(Opcode::SbcH),
            0x9Du8 => Some(Opcode::SbcL),
            0x9Fu8 => Some(Opcode::SbcA),
            0xA0u8 => Some(Opcode::AndB),
            0xA1u8 => Some(Opcode::AndC),
            0xA2u8 => Some(Opcode::AndD),
            0xA3u8 => Some(Opcode::AndE),
            0xA4u8 => Some(Opcode::AndH),
            0xA5u8 => Some(Opcode::AndL),
            0xA7u8 => Some(Opcode::AndA),
            0xA8u8 => Some(Opcode::XorB),
            0xA9u8 => Some(Opcode::XorC),
            0xAAu8 => Some(Opcode::XorD),
            0xABu8 => Some(Opcode::XorE),
            0xACu8 => Some(Opcode::XorH),
            0xADu8 => Some(Opcode::XorL),
            0xAFu8 => Some(Opcode::XorA),
            0xB0u8 => Some(Opcode::OrB),
            0xB1u8 => Some(Opcode::OrC),
            0xB2u8 => Some(Opcode::OrD),
            0xB3u8 => Some(Opcode::OrE),
            0xB4u8 => Some(Opcode::OrH),
            0xB5u8 => Some(Opcode::OrL),
            0xB7u8 => Some(Opcode::OrA),
            0xC1u8 => Some(Opcode::PopBC),
            0xC2u8 => Some(Opcode::JpNZXX),
            0xC3u8 => Some(Opcode::JpXX),
            0xC5u8 => Some(Opcode::PushBC),
            0xCAu8 => Some(Opcode::JpZXX),
            0xD1u8 => Some(Opcode::PopDE),
            0xD2u8 => Some(Opcode::JpNCXX),
            0xD5u8 => Some(Opcode::PushDE),
            0xD9u8 => Some(Opcode::Exx),
            0xDAu8 => Some(Opcode::JpCXX),
            0xE1u8 => Some(Opcode::PopHL),
            0xE2u8 => Some(Opcode::JpPOXX),
            0xE3u8 => Some(Opcode::ExVSPHL),
            0xE5u8 => Some(Opcode::PushHL),
            0xEAu8 => Some(Opcode::JpPEXX),
            0xEBu8 => Some(Opcode::ExDEHL),
            0xF1u8 => Some(Opcode::PopAF),
            0xF2u8 => Some(Opcode::JpPXX),
            0xF5u8 => Some(Opcode::PushAF),
            0xFAu8 => Some(Opcode::JpMXX),
            _ => None,
        }
    }
}

/// Encoding an identifier and decoding the byte returns the identifier:
/// the byte table is a bijection onto its defined bytes.
pub proof fn lemma_opcode_roundtrip(op: Opcode)
    ensures
        opcode_decode(opcode_byte(op)) == Some(op),
{
}

} // verus!
