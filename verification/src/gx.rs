//! Register values of the GX graphics pipeline: TEV stage inputs and operations, texture maps
//! and texture coordinate generation.
#![allow(non_camel_case_types)]
use vstd::prelude::*;

verus! {

/// A colour input of a TEV stage.
#[derive(Clone, Copy, Debug, PartialEq, Eq, Structural)]
pub enum TevColorIn {
    /// Value 0x00.
    PrevColor,
    /// Value 0x01.
    PrevAlpha,
    /// Value 0x02.
    Reg0Color,
    /// Value 0x03.
    Reg0Alpha,
    /// Value 0x04.
    Reg1Color,
    /// Value 0x05.
    Reg1Alpha,
    /// Value 0x06.
    Reg2Color,
    /// Value 0x07.
    Reg2Alpha,
    /// Value 0x08.
    TexColor,
    /// Value 0x09.
    TexAlpha,
    /// Value 0x0a.
    RasColor,
    /// Value 0x0b.
    RasAlpha,
    /// Value 0x0c.
    Constant1,
    /// Value 0x0d.
    Constant1_2,
    /// Value 0x0e.
    Konst,
    /// Value 0x0f.
    Constant0,
}

impl TevColorIn {
    /// The hardware value of this selection.
    pub open spec fn spec_as_u8(self) -> u8 {
        match self {
            TevColorIn::PrevColor => 0x00,
            TevColorIn::PrevAlpha => 0x01,
            TevColorIn::Reg0Color => 0x02,
            TevColorIn::Reg0Alpha => 0x03,
            TevColorIn::Reg1Color => 0x04,
            TevColorIn::Reg1Alpha => 0x05,
            TevColorIn::Reg2Color => 0x06,
            TevColorIn::Reg2Alpha => 0x07,
            TevColorIn::TexColor => 0x08,
            TevColorIn::TexAlpha => 0x09,
            TevColorIn::RasColor => 0x0a,
            TevColorIn::RasAlpha => 0x0b,
            TevColorIn::Constant1 => 0x0c,
            TevColorIn::Constant1_2 => 0x0d,
            TevColorIn::Konst => 0x0e,
            TevColorIn::Constant0 => 0x0f,
        }
    }

    /// Returns the hardware value of this selection.
    pub fn as_u8(self) -> (r: u8)
        ensures
            r == self.spec_as_u8(),
    {
        match self {
            TevColorIn::PrevColor => 0x00,
            TevColorIn::PrevAlpha => 0x01,
            TevColorIn::Reg0Color => 0x02,
            TevColorIn::Reg0Alpha => 0x03,
            TevColorIn::Reg1Color => 0x04,
            TevColorIn::Reg1Alpha => 0x05,
            TevColorIn::Reg2Color => 0x06,
            TevColorIn::Reg2Alpha => 0x07,
            TevColorIn::TexColor => 0x08,
            TevColorIn::TexAlpha => 0x09,
            TevColorIn::RasColor => 0x0a,
            TevColorIn::RasAlpha => 0x0b,
            TevColorIn::Constant1 => 0x0c,
            TevColorIn::Constant1_2 => 0x0d,
            TevColorIn::Konst => 0x0e,
            TevColorIn::Constant0 => 0x0f,
        }
    }

    /// Returns the selection with the given hardware value, if there is one.
    pub fn from_u8(value: u8) -> (r: Option<Self>)
        ensures
            r matches Some(s) ==> s.spec_as_u8() == value,
            r is None ==> forall|s: Self| s.spec_as_u8() != value,
    {
        match value {
            0x00 => Some(TevColorIn::PrevColor),
            0x01 => Some(TevColorIn::PrevAlpha),
            0x02 => Some(TevColorIn::Reg0Color),
            0x03 => Some(TevColorIn::Reg0Alpha),
            0x04 => Some(TevColorIn::Reg1Color),
            0x05 => Some(TevColorIn::Reg1Alpha),
            0x06 => Some(TevColorIn::Reg2Color),
            0x07 => Some(TevColorIn::Reg2Alpha),
            0x08 => Some(TevColorIn::TexColor),
            0x09 => Some(TevColorIn::TexAlpha),
            0x0a => Some(TevColorIn::RasColor),
            0x0b => Some(TevColorIn::RasAlpha),
            0x0c => Some(TevColorIn::Constant1),
            0x0d => Some(TevColorIn::Constant1_2),
            0x0e => Some(TevColorIn::Konst),
            0x0f => Some(TevColorIn::Constant0),
            _ => None,
        }
    }
}

/// An alpha input of a TEV stage.
#[derive(Clone, Copy, Debug, PartialEq, Eq, Structural)]
pub enum TevAlphaIn {
    /// Value 0x00.
    PrevAlpha,
    /// Value 0x01.
    Reg0Alpha,
    /// Value 0x02.
    Reg1Alpha,
    /// Value 0x03.
    Reg2Alpha,
    /// Value 0x04.
    TexAlpha,
    /// Value 0x05.
    RasAlpha,
    /// Value 0x06.
    Konst,
    /// Value 0x07.
    Constant0,
}

impl TevAlphaIn {
    /// The hardware value of this selection.
    pub open spec fn spec_as_u8(self) -> u8 {
        match self {
            TevAlphaIn::PrevAlpha => 0x00,
            TevAlphaIn::Reg0Alpha => 0x01,
            TevAlphaIn::Reg1Alpha => 0x02,
            TevAlphaIn::Reg2Alpha => 0x03,
            TevAlphaIn::TexAlpha => 0x04,
            TevAlphaIn::RasAlpha => 0x05,
            TevAlphaIn::Konst => 0x06,
            TevAlphaIn::Constant0 => 0x07,
        }
    }

    /// Returns the hardware value of this selection.
    pub fn as_u8(self) -> (r: u8)
        ensures
            r == self.spec_as_u8(),
    {
        match self {
            TevAlphaIn::PrevAlpha => 0x00,
            TevAlphaIn::Reg0Alpha => 0x01,
            TevAlphaIn::Reg1Alpha => 0x02,
            TevAlphaIn::Reg2Alpha => 0x03,
            TevAlphaIn::TexAlpha => 0x04,
            TevAlphaIn::RasAlpha => 0x05,
            TevAlphaIn::Konst => 0x06,
            TevAlphaIn::Constant0 => 0x07,
        }
    }

    /// Returns the selection with the given hardware value, if there is one.
    pub fn from_u8(value: u8) -> (r: Option<Self>)
        ensures
            r matches Some(s) ==> s.spec_as_u8() == value,
            r is None ==> forall|s: Self| s.spec_as_u8() != value,
    {
        match value {
            0x00 => Some(TevAlphaIn::PrevAlpha),
            0x01 => Some(TevAlphaIn::Reg0Alpha),
            0x02 => Some(TevAlphaIn::Reg1Alpha),
            0x03 => Some(TevAlphaIn::Reg2Alpha),
            0x04 => Some(TevAlphaIn::TexAlpha),
            0x05 => Some(TevAlphaIn::RasAlpha),
            0x06 => Some(TevAlphaIn::Konst),
            0x07 => Some(TevAlphaIn::Constant0),
            _ => None,
        }
    }
}

/// The operation of a TEV stage.
#[derive(Clone, Copy, Debug, PartialEq, Eq, Structural)]
pub enum TevOp {
    /// Value 0x00.
    Add,
    /// Value 0x01.
    Sub,
    /// Value 0x08.
    CompR8Gt,
    /// Value 0x09.
    CompR8Eq,
    /// Value 0x0a.
    CompGr16Gt,
    /// Value 0x0b.
    CompGr16Eq,
    /// Value 0x0c.
    CompBgr24Gt,
    /// Value 0x0d.
    CompBgr24Eq,
    /// Value 0x0e.
    CompRgb8OrA8Gt,
    /// Value 0x0f.
    CompRgb8OrA8Eq,
}

impl TevOp {
    /// The hardware value of this selection.
    pub open spec fn spec_as_u8(self) -> u8 {
        match self {
            TevOp::Add => 0x00,
            TevOp::Sub => 0x01,
            TevOp::CompR8Gt => 0x08,
            TevOp::CompR8Eq => 0x09,
            TevOp::CompGr16Gt => 0x0a,
            TevOp::CompGr16Eq => 0x0b,
            TevOp::CompBgr24Gt => 0x0c,
            TevOp::CompBgr24Eq => 0x0d,
            TevOp::CompRgb8OrA8Gt => 0x0e,
            TevOp::CompRgb8OrA8Eq => 0x0f,
        }
    }

    /// Returns the hardware value of this selection.
    pub fn as_u8(self) -> (r: u8)
        ensures
            r == self.spec_as_u8(),
    {
        match self {
            TevOp::Add => 0x00,
            TevOp::Sub => 0x01,
            TevOp::CompR8Gt => 0x08,
            TevOp::CompR8Eq => 0x09,
            TevOp::CompGr16Gt => 0x0a,
            TevOp::CompGr16Eq => 0x0b,
            TevOp::CompBgr24Gt => 0x0c,
            TevOp::CompBgr24Eq => 0x0d,
            TevOp::CompRgb8OrA8Gt => 0x0e,
            TevOp::CompRgb8OrA8Eq => 0x0f,
        }
    }

    /// Returns the selection with the given hardware value, if there is one.
    pub fn from_u8(value: u8) -> (r: Option<Self>)
        ensures
            r matches Some(s) ==> s.spec_as_u8() == value,
            r is None ==> forall|s: Self| s.spec_as_u8() != value,
    {
        match value {
            0x00 => Some(TevOp::Add),
            0x01 => Some(TevOp::Sub),
            0x08 => Some(TevOp::CompR8Gt),
            0x09 => Some(TevOp::CompR8Eq),
            0x0a => Some(TevOp::CompGr16Gt),
            0x0b => Some(TevOp::CompGr16Eq),
            0x0c => Some(TevOp::CompBgr24Gt),
            0x0d => Some(TevOp::CompBgr24Eq),
            0x0e => Some(TevOp::CompRgb8OrA8Gt),
            0x0f => Some(TevOp::CompRgb8OrA8Eq),
            _ => None,
        }
    }
}

/// The bias added by a TEV stage.
#[derive(Clone, Copy, Debug, PartialEq, Eq, Structural)]
pub enum TevBias {
    /// Value 0x00.
    Zero,
    /// Value 0x01.
    AddHalf,
    /// Value 0x02.
    SubHalf,
}

impl TevBias {
    /// The hardware value of this selection.
    pub open spec fn spec_as_u8(self) -> u8 {
        match self {
            TevBias::Zero => 0x00,
            TevBias::AddHalf => 0x01,
            TevBias::SubHalf => 0x02,
        }
    }

    /// Returns the hardware value of this selection.
    pub fn as_u8(self) -> (r: u8)
        ensures
            r == self.spec_as_u8(),
    {
        match self {
            TevBias::Zero => 0x00,
            TevBias::AddHalf => 0x01,
            TevBias::SubHalf => 0x02,
        }
    }

    /// Returns the selection with the given hardware value, if there is one.
    pub fn from_u8(value: u8) -> (r: Option<Self>)
        ensures
            r matches Some(s) ==> s.spec_as_u8() == value,
            r is None ==> forall|s: Self| s.spec_as_u8() != value,
    {
        match value {
            0x00 => Some(TevBias::Zero),
            0x01 => Some(TevBias::AddHalf),
            0x02 => Some(TevBias::SubHalf),
            _ => None,
        }
    }
}

/// The scale applied by a TEV stage.
#[derive(Clone, Copy, Debug, PartialEq, Eq, Structural)]
pub enum TevScale {
    /// Value 0x00.
    K1,
    /// Value 0x01.
    K2,
    /// Value 0x02.
    K4,
    /// Value 0x03.
    K1_2,
}

impl TevScale {
    /// The hardware value of this selection.
    pub open spec fn spec_as_u8(self) -> u8 {
        match self {
            TevScale::K1 => 0x00,
            TevScale::K2 => 0x01,
            TevScale::K4 => 0x02,
            TevScale::K1_2 => 0x03,
        }
    }

    /// Returns the hardware value of this selection.
    pub fn as_u8(self) -> (r: u8)
        ensures
            r == self.spec_as_u8(),
    {
        match self {
            TevScale::K1 => 0x00,
            TevScale::K2 => 0x01,
            TevScale::K4 => 0x02,
            TevScale::K1_2 => 0x03,
        }
    }

    /// Returns the selection with the given hardware value, if there is one.
    pub fn from_u8(value: u8) -> (r: Option<Self>)
        ensures
            r matches Some(s) ==> s.spec_as_u8() == value,
            r is None ==> forall|s: Self| s.spec_as_u8() != value,
    {
        match value {
            0x00 => Some(TevScale::K1),
            0x01 => Some(TevScale::K2),
            0x02 => Some(TevScale::K4),
            0x03 => Some(TevScale::K1_2),
            _ => None,
        }
    }
}

/// A TEV register.
#[derive(Clone, Copy, Debug, PartialEq, Eq, Structural)]
pub enum TevReg {
    /// Value 0x00.
    Prev,
    /// Value 0x01.
    Reg0,
    /// Value 0x02.
    Reg1,
    /// Value 0x03.
    Reg2,
}

impl TevReg {
    /// The hardware value of this selection.
    pub open spec fn spec_as_u8(self) -> u8 {
        match self {
            TevReg::Prev => 0x00,
            TevReg::Reg0 => 0x01,
            TevReg::Reg1 => 0x02,
            TevReg::Reg2 => 0x03,
        }
    }

    /// Returns the hardware value of this selection.
    pub fn as_u8(self) -> (r: u8)
        ensures
            r == self.spec_as_u8(),
    {
        match self {
            TevReg::Prev => 0x00,
            TevReg::Reg0 => 0x01,
            TevReg::Reg1 => 0x02,
            TevReg::Reg2 => 0x03,
        }
    }

    /// Returns the selection with the given hardware value, if there is one.
    pub fn from_u8(value: u8) -> (r: Option<Self>)
        ensures
            r matches Some(s) ==> s.spec_as_u8() == value,
            r is None ==> forall|s: Self| s.spec_as_u8() != value,
    {
        match value {
            0x00 => Some(TevReg::Prev),
            0x01 => Some(TevReg::Reg0),
            0x02 => Some(TevReg::Reg1),
            0x03 => Some(TevReg::Reg2),
            _ => None,
        }
    }
}

/// A constant colour selection.
#[derive(Clone, Copy, Debug, PartialEq, Eq, Structural)]
pub enum TevColorKonst {
    /// Value 0x00.
    Constant1,
    /// Value 0x01.
    Constant7_8,
    /// Value 0x02.
    Constant3_4,
    /// Value 0x03.
    Constant5_8,
    /// Value 0x04.
    Constant1_2,
    /// Value 0x05.
    Constant3_8,
    /// Value 0x06.
    Constant1_4,
    /// Value 0x07.
    Constant1_8,
    /// Value 0x0c.
    K0Rgb,
    /// Value 0x0d.
    K1Rgb,
    /// Value 0x0e.
    K2Rgb,
    /// Value 0x0f.
    K3Rgb,
    /// Value 0x10.
    K0R,
    /// Value 0x11.
    K1R,
    /// Value 0x12.
    K2R,
    /// Value 0x13.
    K3R,
    /// Value 0x14.
    K0G,
    /// Value 0x15.
    K1G,
    /// Value 0x16.
    K2G,
    /// Value 0x17.
    K3G,
    /// Value 0x18.
    K0B,
    /// Value 0x19.
    K1B,
    /// Value 0x1a.
    K2B,
    /// Value 0x1b.
    K3B,
    /// Value 0x1c.
    K0A,
    /// Value 0x1d.
    K1A,
    /// Value 0x1e.
    K2A,
    /// Value 0x1f.
    K3A,
}

impl TevColorKonst {
    /// The hardware value of this selection.
    pub open spec fn spec_as_u8(self) -> u8 {
        match self {
            TevColorKonst::Constant1 => 0x00,
            TevColorKonst::Constant7_8 => 0x01,
            TevColorKonst::Constant3_4 => 0x02,
            TevColorKonst::Constant5_8 => 0x03,
            TevColorKonst::Constant1_2 => 0x04,
            TevColorKonst::Constant3_8 => 0x05,
            TevColorKonst::Constant1_4 => 0x06,
            TevColorKonst::Constant1_8 => 0x07,
            TevColorKonst::K0Rgb => 0x0c,
            TevColorKonst::K1Rgb => 0x0d,
            TevColorKonst::K2Rgb => 0x0e,
            TevColorKonst::K3Rgb => 0x0f,
            TevColorKonst::K0R => 0x10,
            TevColorKonst::K1R => 0x11,
            TevColorKonst::K2R => 0x12,
            TevColorKonst::K3R => 0x13,
            TevColorKonst::K0G => 0x14,
            TevColorKonst::K1G => 0x15,
            TevColorKonst::K2G => 0x16,
            TevColorKonst::K3G => 0x17,
            TevColorKonst::K0B => 0x18,
            TevColorKonst::K1B => 0x19,
            TevColorKonst::K2B => 0x1a,
            TevColorKonst::K3B => 0x1b,
            TevColorKonst::K0A => 0x1c,
            TevColorKonst::K1A => 0x1d,
            TevColorKonst::K2A => 0x1e,
            TevColorKonst::K3A => 0x1f,
        }
    }

    /// Returns the hardware value of this selection.
    pub fn as_u8(self) -> (r: u8)
        ensures
            r == self.spec_as_u8(),
    {
        match self {
            TevColorKonst::Constant1 => 0x00,
            TevColorKonst::Constant7_8 => 0x01,
            TevColorKonst::Constant3_4 => 0x02,
            TevColorKonst::Constant5_8 => 0x03,
            TevColorKonst::Constant1_2 => 0x04,
            TevColorKonst::Constant3_8 => 0x05,
            TevColorKonst::Constant1_4 => 0x06,
            TevColorKonst::Constant1_8 => 0x07,
            TevColorKonst::K0Rgb => 0x0c,
            TevColorKonst::K1Rgb => 0x0d,
            TevColorKonst::K2Rgb => 0x0e,
            TevColorKonst::K3Rgb => 0x0f,
            TevColorKonst::K0R => 0x10,
            TevColorKonst::K1R => 0x11,
            TevColorKonst::K2R => 0x12,
            TevColorKonst::K3R => 0x13,
            TevColorKonst::K0G => 0x14,
            TevColorKonst::K1G => 0x15,
            TevColorKonst::K2G => 0x16,
            TevColorKonst::K3G => 0x17,
            TevColorKonst::K0B => 0x18,
            TevColorKonst::K1B => 0x19,
            TevColorKonst::K2B => 0x1a,
            TevColorKonst::K3B => 0x1b,
            TevColorKonst::K0A => 0x1c,
            TevColorKonst::K1A => 0x1d,
            TevColorKonst::K2A => 0x1e,
            TevColorKonst::K3A => 0x1f,
        }
    }

    /// Returns the selection with the given hardware value, if there is one.
    pub fn from_u8(value: u8) -> (r: Option<Self>)
        ensures
            r matches Some(s) ==> s.spec_as_u8() == value,
            r is None ==> forall|s: Self| s.spec_as_u8() != value,
    {
        match value {
            0x00 => Some(TevColorKonst::Constant1),
            0x01 => Some(TevColorKonst::Constant7_8),
            0x02 => Some(TevColorKonst::Constant3_4),
            0x03 => Some(TevColorKonst::Constant5_8),
            0x04 => Some(TevColorKonst::Constant1_2),
            0x05 => Some(TevColorKonst::Constant3_8),
            0x06 => Some(TevColorKonst::Constant1_4),
            0x07 => Some(TevColorKonst::Constant1_8),
            0x0c => Some(TevColorKonst::K0Rgb),
            0x0d => Some(TevColorKonst::K1Rgb),
            0x0e => Some(TevColorKonst::K2Rgb),
            0x0f => Some(TevColorKonst::K3Rgb),
            0x10 => Some(TevColorKonst::K0R),
            0x11 => Some(TevColorKonst::K1R),
            0x12 => Some(TevColorKonst::K2R),
            0x13 => Some(TevColorKonst::K3R),
            0x14 => Some(TevColorKonst::K0G),
            0x15 => Some(TevColorKonst::K1G),
            0x16 => Some(TevColorKonst::K2G),
            0x17 => Some(TevColorKonst::K3G),
            0x18 => Some(TevColorKonst::K0B),
            0x19 => Some(TevColorKonst::K1B),
            0x1a => Some(TevColorKonst::K2B),
            0x1b => Some(TevColorKonst::K3B),
            0x1c => Some(TevColorKonst::K0A),
            0x1d => Some(TevColorKonst::K1A),
            0x1e => Some(TevColorKonst::K2A),
            0x1f => Some(TevColorKonst::K3A),
            _ => None,
        }
    }
}

/// A constant alpha selection.
#[derive(Clone, Copy, Debug, PartialEq, Eq, Structural)]
pub enum TevAlphaKonst {
    /// Value 0x00.
    Constant1,
    /// Value 0x01.
    Constant7_8,
    /// Value 0x02.
    Constant3_4,
    /// Value 0x03.
    Constant5_8,
    /// Value 0x04.
    Constant1_2,
    /// Value 0x05.
    Constant3_8,
    /// Value 0x06.
    Constant1_4,
    /// Value 0x07.
    Constant1_8,
    /// Value 0x10.
    K0R,
    /// Value 0x11.
    K1R,
    /// Value 0x12.
    K2R,
    /// Value 0x13.
    K3R,
    /// Value 0x14.
    K0G,
    /// Value 0x15.
    K1G,
    /// Value 0x16.
    K2G,
    /// Value 0x17.
    K3G,
    /// Value 0x18.
    K0B,
    /// Value 0x19.
    K1B,
    /// Value 0x1a.
    K2B,
    /// Value 0x1b.
    K3B,
    /// Value 0x1c.
    K0A,
    /// Value 0x1d.
    K1A,
    /// Value 0x1e.
    K2A,
    /// Value 0x1f.
    K3A,
}

impl TevAlphaKonst {
    /// The hardware value of this selection.
    pub open spec fn spec_as_u8(self) -> u8 {
        match self {
            TevAlphaKonst::Constant1 => 0x00,
            TevAlphaKonst::Constant7_8 => 0x01,
            TevAlphaKonst::Constant3_4 => 0x02,
            TevAlphaKonst::Constant5_8 => 0x03,
            TevAlphaKonst::Constant1_2 => 0x04,
            TevAlphaKonst::Constant3_8 => 0x05,
            TevAlphaKonst::Constant1_4 => 0x06,
            TevAlphaKonst::Constant1_8 => 0x07,
            TevAlphaKonst::K0R => 0x10,
            TevAlphaKonst::K1R => 0x11,
            TevAlphaKonst::K2R => 0x12,
            TevAlphaKonst::K3R => 0x13,
            TevAlphaKonst::K0G => 0x14,
            TevAlphaKonst::K1G => 0x15,
            TevAlphaKonst::K2G => 0x16,
            TevAlphaKonst::K3G => 0x17,
            TevAlphaKonst::K0B => 0x18,
            TevAlphaKonst::K1B => 0x19,
            TevAlphaKonst::K2B => 0x1a,
            TevAlphaKonst::K3B => 0x1b,
            TevAlphaKonst::K0A => 0x1c,
            TevAlphaKonst::K1A => 0x1d,
            TevAlphaKonst::K2A => 0x1e,
            TevAlphaKonst::K3A => 0x1f,
        }
    }

    /// Returns the hardware value of this selection.
    pub fn as_u8(self) -> (r: u8)
        ensures
            r == self.spec_as_u8(),
    {
        match self {
            TevAlphaKonst::Constant1 => 0x00,
            TevAlphaKonst::Constant7_8 => 0x01,
            TevAlphaKonst::Constant3_4 => 0x02,
            TevAlphaKonst::Constant5_8 => 0x03,
            TevAlphaKonst::Constant1_2 => 0x04,
            TevAlphaKonst::Constant3_8 => 0x05,
            TevAlphaKonst::Constant1_4 => 0x06,
            TevAlphaKonst::Constant1_8 => 0x07,
            TevAlphaKonst::K0R => 0x10,
            TevAlphaKonst::K1R => 0x11,
            TevAlphaKonst::K2R => 0x12,
            TevAlphaKonst::K3R => 0x13,
            TevAlphaKonst::K0G => 0x14,
            TevAlphaKonst::K1G => 0x15,
            TevAlphaKonst::K2G => 0x16,
            TevAlphaKonst::K3G => 0x17,
            TevAlphaKonst::K0B => 0x18,
            TevAlphaKonst::K1B => 0x19,
            TevAlphaKonst::K2B => 0x1a,
            TevAlphaKonst::K3B => 0x1b,
            TevAlphaKonst::K0A => 0x1c,
            TevAlphaKonst::K1A => 0x1d,
            TevAlphaKonst::K2A => 0x1e,
            TevAlphaKonst::K3A => 0x1f,
        }
    }

    /// Returns the selection with the given hardware value, if there is one.
    pub fn from_u8(value: u8) -> (r: Option<Self>)
        ensures
            r matches Some(s) ==> s.spec_as_u8() == value,
            r is None ==> forall|s: Self| s.spec_as_u8() != value,
    {
        match value {
            0x00 => Some(TevAlphaKonst::Constant1),
            0x01 => Some(TevAlphaKonst::Constant7_8),
            0x02 => Some(TevAlphaKonst::Constant3_4),
            0x03 => Some(TevAlphaKonst::Constant5_8),
            0x04 => Some(TevAlphaKonst::Constant1_2),
            0x05 => Some(TevAlphaKonst::Constant3_8),
            0x06 => Some(TevAlphaKonst::Constant1_4),
            0x07 => Some(TevAlphaKonst::Constant1_8),
            0x10 => Some(TevAlphaKonst::K0R),
            0x11 => Some(TevAlphaKonst::K1R),
            0x12 => Some(TevAlphaKonst::K2R),
            0x13 => Some(TevAlphaKonst::K3R),
            0x14 => Some(TevAlphaKonst::K0G),
            0x15 => Some(TevAlphaKonst::K1G),
            0x16 => Some(TevAlphaKonst::K2G),
            0x17 => Some(TevAlphaKonst::K3G),
            0x18 => Some(TevAlphaKonst::K0B),
            0x19 => Some(TevAlphaKonst::K1B),
            0x1a => Some(TevAlphaKonst::K2B),
            0x1b => Some(TevAlphaKonst::K3B),
            0x1c => Some(TevAlphaKonst::K0A),
            0x1d => Some(TevAlphaKonst::K1A),
            0x1e => Some(TevAlphaKonst::K2A),
            0x1f => Some(TevAlphaKonst::K3A),
            _ => None,
        }
    }
}

/// The texture coordinate used by a TEV stage.
#[derive(Clone, Copy, Debug, PartialEq, Eq, Structural)]
pub enum TevTexCoord {
    /// Value 0x00.
    TexCoord0,
    /// Value 0x01.
    TexCoord1,
    /// Value 0x02.
    TexCoord2,
    /// Value 0x03.
    TexCoord3,
    /// Value 0x04.
    TexCoord4,
    /// Value 0x05.
    TexCoord5,
    /// Value 0x06.
    TexCoord6,
    /// Value 0x07.
    TexCoord7,
    /// Value 0xff.
    Null,
}

impl TevTexCoord {
    /// The hardware value of this selection.
    pub open spec fn spec_as_u8(self) -> u8 {
        match self {
            TevTexCoord::TexCoord0 => 0x00,
            TevTexCoord::TexCoord1 => 0x01,
            TevTexCoord::TexCoord2 => 0x02,
            TevTexCoord::TexCoord3 => 0x03,
            TevTexCoord::TexCoord4 => 0x04,
            TevTexCoord::TexCoord5 => 0x05,
            TevTexCoord::TexCoord6 => 0x06,
            TevTexCoord::TexCoord7 => 0x07,
            TevTexCoord::Null => 0xff,
        }
    }

    /// Returns the hardware value of this selection.
    pub fn as_u8(self) -> (r: u8)
        ensures
            r == self.spec_as_u8(),
    {
        match self {
            TevTexCoord::TexCoord0 => 0x00,
            TevTexCoord::TexCoord1 => 0x01,
            TevTexCoord::TexCoord2 => 0x02,
            TevTexCoord::TexCoord3 => 0x03,
            TevTexCoord::TexCoord4 => 0x04,
            TevTexCoord::TexCoord5 => 0x05,
            TevTexCoord::TexCoord6 => 0x06,
            TevTexCoord::TexCoord7 => 0x07,
            TevTexCoord::Null => 0xff,
        }
    }

    /// Returns the selection with the given hardware value, if there is one.
    pub fn from_u8(value: u8) -> (r: Option<Self>)
        ensures
            r matches Some(s) ==> s.spec_as_u8() == value,
            r is None ==> forall|s: Self| s.spec_as_u8() != value,
    {
        match value {
            0x00 => Some(TevTexCoord::TexCoord0),
            0x01 => Some(TevTexCoord::TexCoord1),
            0x02 => Some(TevTexCoord::TexCoord2),
            0x03 => Some(TevTexCoord::TexCoord3),
            0x04 => Some(TevTexCoord::TexCoord4),
            0x05 => Some(TevTexCoord::TexCoord5),
            0x06 => Some(TevTexCoord::TexCoord6),
            0x07 => Some(TevTexCoord::TexCoord7),
            0xff => Some(TevTexCoord::Null),
            _ => None,
        }
    }
}

/// The colour channel used by a TEV stage.
#[derive(Clone, Copy, Debug, PartialEq, Eq, Structural)]
pub enum TevChannel {
    /// Value 0x00.
    Color0,
    /// Value 0x01.
    Color1,
    /// Value 0x02.
    Alpha0,
    /// Value 0x03.
    Alpha1,
    /// Value 0x04.
    Color0A0,
    /// Value 0x05.
    Color1A1,
    /// Value 0x06.
    Zero,
    /// Value 0x07.
    AlphaBump,
    /// Value 0x08.
    AlphaBumpN,
    /// Value 0xff.
    Null,
}

impl TevChannel {
    /// The hardware value of this selection.
    pub open spec fn spec_as_u8(self) -> u8 {
        match self {
            TevChannel::Color0 => 0x00,
            TevChannel::Color1 => 0x01,
            TevChannel::Alpha0 => 0x02,
            TevChannel::Alpha1 => 0x03,
            TevChannel::Color0A0 => 0x04,
            TevChannel::Color1A1 => 0x05,
            TevChannel::Zero => 0x06,
            TevChannel::AlphaBump => 0x07,
            TevChannel::AlphaBumpN => 0x08,
            TevChannel::Null => 0xff,
        }
    }

    /// Returns the hardware value of this selection.
    pub fn as_u8(self) -> (r: u8)
        ensures
            r == self.spec_as_u8(),
    {
        match self {
            TevChannel::Color0 => 0x00,
            TevChannel::Color1 => 0x01,
            TevChannel::Alpha0 => 0x02,
            TevChannel::Alpha1 => 0x03,
            TevChannel::Color0A0 => 0x04,
            TevChannel::Color1A1 => 0x05,
            TevChannel::Zero => 0x06,
            TevChannel::AlphaBump => 0x07,
            TevChannel::AlphaBumpN => 0x08,
            TevChannel::Null => 0xff,
        }
    }

    /// Returns the selection with the given hardware value, if there is one.
    pub fn from_u8(value: u8) -> (r: Option<Self>)
        ensures
            r matches Some(s) ==> s.spec_as_u8() == value,
            r is None ==> forall|s: Self| s.spec_as_u8() != value,
    {
        match value {
            0x00 => Some(TevChannel::Color0),
            0x01 => Some(TevChannel::Color1),
            0x02 => Some(TevChannel::Alpha0),
            0x03 => Some(TevChannel::Alpha1),
            0x04 => Some(TevChannel::Color0A0),
            0x05 => Some(TevChannel::Color1A1),
            0x06 => Some(TevChannel::Zero),
            0x07 => Some(TevChannel::AlphaBump),
            0x08 => Some(TevChannel::AlphaBumpN),
            0xff => Some(TevChannel::Null),
            _ => None,
        }
    }
}

/// The kind of a texture coordinate generation.
#[derive(Clone, Copy, Debug, PartialEq, Eq, Structural)]
pub enum TexGenType {
    /// Value 0x00.
    Mtx3x4,
    /// Value 0x01.
    Mtx2x4,
    /// Value 0x02.
    Bump0,
    /// Value 0x03.
    Bump1,
    /// Value 0x04.
    Bump2,
    /// Value 0x05.
    Bump3,
    /// Value 0x06.
    Bump4,
    /// Value 0x07.
    Bump5,
    /// Value 0x08.
    Bump6,
    /// Value 0x09.
    Bump7,
    /// Value 0x0a.
    SrTg,
}

impl TexGenType {
    /// The hardware value of this selection.
    pub open spec fn spec_as_u8(self) -> u8 {
        match self {
            TexGenType::Mtx3x4 => 0x00,
            TexGenType::Mtx2x4 => 0x01,
            TexGenType::Bump0 => 0x02,
            TexGenType::Bump1 => 0x03,
            TexGenType::Bump2 => 0x04,
            TexGenType::Bump3 => 0x05,
            TexGenType::Bump4 => 0x06,
            TexGenType::Bump5 => 0x07,
            TexGenType::Bump6 => 0x08,
            TexGenType::Bump7 => 0x09,
            TexGenType::SrTg => 0x0a,
        }
    }

    /// Returns the hardware value of this selection.
    pub fn as_u8(self) -> (r: u8)
        ensures
            r == self.spec_as_u8(),
    {
        match self {
            TexGenType::Mtx3x4 => 0x00,
            TexGenType::Mtx2x4 => 0x01,
            TexGenType::Bump0 => 0x02,
            TexGenType::Bump1 => 0x03,
            TexGenType::Bump2 => 0x04,
            TexGenType::Bump3 => 0x05,
            TexGenType::Bump4 => 0x06,
            TexGenType::Bump5 => 0x07,
            TexGenType::Bump6 => 0x08,
            TexGenType::Bump7 => 0x09,
            TexGenType::SrTg => 0x0a,
        }
    }

    /// Returns the selection with the given hardware value, if there is one.
    pub fn from_u8(value: u8) -> (r: Option<Self>)
        ensures
            r matches Some(s) ==> s.spec_as_u8() == value,
            r is None ==> forall|s: Self| s.spec_as_u8() != value,
    {
        match value {
            0x00 => Some(TexGenType::Mtx3x4),
            0x01 => Some(TexGenType::Mtx2x4),
            0x02 => Some(TexGenType::Bump0),
            0x03 => Some(TexGenType::Bump1),
            0x04 => Some(TexGenType::Bump2),
            0x05 => Some(TexGenType::Bump3),
            0x06 => Some(TexGenType::Bump4),
            0x07 => Some(TexGenType::Bump5),
            0x08 => Some(TexGenType::Bump6),
            0x09 => Some(TexGenType::Bump7),
            0x0a => Some(TexGenType::SrTg),
            _ => None,
        }
    }
}

/// The source of a texture coordinate generation.
#[derive(Clone, Copy, Debug, PartialEq, Eq, Structural)]
pub enum TexGenSrc {
    /// Value 0x00.
    Position,
    /// Value 0x01.
    Normal,
    /// Value 0x02.
    Binormal,
    /// Value 0x03.
    Tangent,
    /// Value 0x04.
    Tex0,
    /// Value 0x05.
    Tex1,
    /// Value 0x06.
    Tex2,
    /// Value 0x07.
    Tex3,
    /// Value 0x08.
    Tex4,
    /// Value 0x09.
    Tex5,
    /// Value 0x0a.
    Tex6,
    /// Value 0x0b.
    Tex7,
    /// Value 0x0c.
    TexCoord0,
    /// Value 0x0d.
    TexCoord1,
    /// Value 0x0e.
    TexCoord2,
    /// Value 0x0f.
    TexCoord3,
    /// Value 0x10.
    TexCoord4,
    /// Value 0x11.
    TexCoord5,
    /// Value 0x12.
    TexCoord6,
}

impl TexGenSrc {
    /// The hardware value of this selection.
    pub open spec fn spec_as_u8(self) -> u8 {
        match self {
            TexGenSrc::Position => 0x00,
            TexGenSrc::Normal => 0x01,
            TexGenSrc::Binormal => 0x02,
            TexGenSrc::Tangent => 0x03,
            TexGenSrc::Tex0 => 0x04,
            TexGenSrc::Tex1 => 0x05,
            TexGenSrc::Tex2 => 0x06,
            TexGenSrc::Tex3 => 0x07,
            TexGenSrc::Tex4 => 0x08,
            TexGenSrc::Tex5 => 0x09,
            TexGenSrc::Tex6 => 0x0a,
            TexGenSrc::Tex7 => 0x0b,
            TexGenSrc::TexCoord0 => 0x0c,
            TexGenSrc::TexCoord1 => 0x0d,
            TexGenSrc::TexCoord2 => 0x0e,
            TexGenSrc::TexCoord3 => 0x0f,
            TexGenSrc::TexCoord4 => 0x10,
            TexGenSrc::TexCoord5 => 0x11,
            TexGenSrc::TexCoord6 => 0x12,
        }
    }

    /// Returns the hardware value of this selection.
    pub fn as_u8(self) -> (r: u8)
        ensures
            r == self.spec_as_u8(),
    {
        match self {
            TexGenSrc::Position => 0x00,
            TexGenSrc::Normal => 0x01,
            TexGenSrc::Binormal => 0x02,
            TexGenSrc::Tangent => 0x03,
            TexGenSrc::Tex0 => 0x04,
            TexGenSrc::Tex1 => 0x05,
            TexGenSrc::Tex2 => 0x06,
            TexGenSrc::Tex3 => 0x07,
            TexGenSrc::Tex4 => 0x08,
            TexGenSrc::Tex5 => 0x09,
            TexGenSrc::Tex6 => 0x0a,
            TexGenSrc::Tex7 => 0x0b,
            TexGenSrc::TexCoord0 => 0x0c,
            TexGenSrc::TexCoord1 => 0x0d,
            TexGenSrc::TexCoord2 => 0x0e,
            TexGenSrc::TexCoord3 => 0x0f,
            TexGenSrc::TexCoord4 => 0x10,
            TexGenSrc::TexCoord5 => 0x11,
            TexGenSrc::TexCoord6 => 0x12,
        }
    }

    /// Returns the selection with the given hardware value, if there is one.
    pub fn from_u8(value: u8) -> (r: Option<Self>)
        ensures
            r matches Some(s) ==> s.spec_as_u8() == value,
            r is None ==> forall|s: Self| s.spec_as_u8() != value,
    {
        match value {
            0x00 => Some(TexGenSrc::Position),
            0x01 => Some(TexGenSrc::Normal),
            0x02 => Some(TexGenSrc::Binormal),
            0x03 => Some(TexGenSrc::Tangent),
            0x04 => Some(TexGenSrc::Tex0),
            0x05 => Some(TexGenSrc::Tex1),
            0x06 => Some(TexGenSrc::Tex2),
            0x07 => Some(TexGenSrc::Tex3),
            0x08 => Some(TexGenSrc::Tex4),
            0x09 => Some(TexGenSrc::Tex5),
            0x0a => Some(TexGenSrc::Tex6),
            0x0b => Some(TexGenSrc::Tex7),
            0x0c => Some(TexGenSrc::TexCoord0),
            0x0d => Some(TexGenSrc::TexCoord1),
            0x0e => Some(TexGenSrc::TexCoord2),
            0x0f => Some(TexGenSrc::TexCoord3),
            0x10 => Some(TexGenSrc::TexCoord4),
            0x11 => Some(TexGenSrc::TexCoord5),
            0x12 => Some(TexGenSrc::TexCoord6),
            _ => None,
        }
    }
}

/// A texture map selection, possibly combined with flags.
#[derive(Clone, Copy, Debug, PartialEq, Eq, Structural)]
pub struct TevTexMap(u32);

impl View for TevTexMap {
    type V = u32;

    closed spec fn view(&self) -> u32 {
        self.0
    }
}

impl TevTexMap {
    /// The value with raw value `value`.
    pub closed spec fn spec_new(value: u32) -> Self {
        TevTexMap(value)
    }

    /// The value made from `value` has `value` as its raw value.
    pub proof fn lemma_new_view(value: u32)
        ensures
            Self::spec_new(value)@ == value,
    {
    }

    /// Two values with the same raw value are the same.
    pub proof fn lemma_view_injective(a: Self, b: Self)
        requires
            a@ == b@,
        ensures
            a == b,
    {
    }

    /// The value 0x0.
    #[allow(non_snake_case)]
    pub fn TEXMAP0() -> (r: Self)
        ensures
            r@ == 0x0,
    {
        Self(0x0)
    }

    /// The value 0x1.
    #[allow(non_snake_case)]
    pub fn TEXMAP1() -> (r: Self)
        ensures
            r@ == 0x1,
    {
        Self(0x1)
    }

    /// The value 0x2.
    #[allow(non_snake_case)]
    pub fn TEXMAP2() -> (r: Self)
        ensures
            r@ == 0x2,
    {
        Self(0x2)
    }

    /// The value 0x3.
    #[allow(non_snake_case)]
    pub fn TEXMAP3() -> (r: Self)
        ensures
            r@ == 0x3,
    {
        Self(0x3)
    }

    /// The value 0x4.
    #[allow(non_snake_case)]
    pub fn TEXMAP4() -> (r: Self)
        ensures
            r@ == 0x4,
    {
        Self(0x4)
    }

    /// The value 0x5.
    #[allow(non_snake_case)]
    pub fn TEXMAP5() -> (r: Self)
        ensures
            r@ == 0x5,
    {
        Self(0x5)
    }

    /// The value 0x6.
    #[allow(non_snake_case)]
    pub fn TEXMAP6() -> (r: Self)
        ensures
            r@ == 0x6,
    {
        Self(0x6)
    }

    /// The value 0x7.
    #[allow(non_snake_case)]
    pub fn TEXMAP7() -> (r: Self)
        ensures
            r@ == 0x7,
    {
        Self(0x7)
    }

    /// The value 0xff.
    #[allow(non_snake_case)]
    pub fn NULL() -> (r: Self)
        ensures
            r@ == 0xff,
            r == Self::spec_new(0xff),
    {
        Self(0xff)
    }

    /// The value 0x100.
    #[allow(non_snake_case)]
    pub fn DISABLE_FLAG() -> (r: Self)
        ensures
            r@ == 0x100,
    {
        Self(0x100)
    }

    /// Wraps a raw value.
    pub fn from_u32(value: u32) -> (r: Self)
        ensures
            r@ == value,
    {
        Self(value)
    }

    /// The raw value.
    pub fn as_u32(self) -> (r: u32)
        ensures
            r == self@,
    {
        self.0
    }
}

impl core::ops::BitAnd for TevTexMap {
    type Output = TevTexMap;

    fn bitand(self, rhs: TevTexMap) -> (r: TevTexMap)
        ensures
            r@ == (self@ & rhs@),
    {
        TevTexMap(self.0 & rhs.0)
    }
}

impl vstd::std_specs::ops::BitAndSpecImpl for TevTexMap {
    open spec fn obeys_bitand_spec() -> bool {
        true
    }

    open spec fn bitand_req(self, rhs: TevTexMap) -> bool {
        true
    }

    closed spec fn bitand_spec(self, rhs: TevTexMap) -> TevTexMap {
        TevTexMap(self.0 & rhs.0)
    }
}

impl core::ops::BitOr for TevTexMap {
    type Output = TevTexMap;

    fn bitor(self, rhs: TevTexMap) -> (r: TevTexMap)
        ensures
            r@ == (self@ | rhs@),
    {
        TevTexMap(self.0 | rhs.0)
    }
}

impl vstd::std_specs::ops::BitOrSpecImpl for TevTexMap {
    open spec fn obeys_bitor_spec() -> bool {
        true
    }

    open spec fn bitor_req(self, rhs: TevTexMap) -> bool {
        true
    }

    closed spec fn bitor_spec(self, rhs: TevTexMap) -> TevTexMap {
        TevTexMap(self.0 | rhs.0)
    }
}

impl core::ops::BitXor for TevTexMap {
    type Output = TevTexMap;

    fn bitxor(self, rhs: TevTexMap) -> (r: TevTexMap)
        ensures
            r@ == (self@ ^ rhs@),
    {
        TevTexMap(self.0 ^ rhs.0)
    }
}

impl vstd::std_specs::ops::BitXorSpecImpl for TevTexMap {
    open spec fn obeys_bitxor_spec() -> bool {
        true
    }

    open spec fn bitxor_req(self, rhs: TevTexMap) -> bool {
        true
    }

    closed spec fn bitxor_spec(self, rhs: TevTexMap) -> TevTexMap {
        TevTexMap(self.0 ^ rhs.0)
    }
}

impl core::ops::BitAndAssign for TevTexMap {
    fn bitand_assign(&mut self, rhs: TevTexMap)
        ensures
            final(self)@ == (old(self)@ & rhs@),
    {
        self.0 = self.0 & rhs.0;
    }
}

impl core::ops::BitOrAssign for TevTexMap {
    fn bitor_assign(&mut self, rhs: TevTexMap)
        ensures
            final(self)@ == (old(self)@ | rhs@),
    {
        self.0 = self.0 | rhs.0;
    }
}

impl core::ops::BitXorAssign for TevTexMap {
    fn bitxor_assign(&mut self, rhs: TevTexMap)
        ensures
            final(self)@ == (old(self)@ ^ rhs@),
    {
        self.0 = self.0 ^ rhs.0;
    }
}

/// The index of a texture matrix.
#[derive(Clone, Copy, Debug, PartialEq, Eq, Structural)]
pub struct TexMtxIndex(u32);

impl View for TexMtxIndex {
    type V = u32;

    closed spec fn view(&self) -> u32 {
        self.0
    }
}

impl TexMtxIndex {
    /// The value with raw value `value`.
    pub closed spec fn spec_new(value: u32) -> Self {
        TexMtxIndex(value)
    }

    /// The value made from `value` has `value` as its raw value.
    pub proof fn lemma_new_view(value: u32)
        ensures
            Self::spec_new(value)@ == value,
    {
    }

    /// Two values with the same raw value are the same.
    pub proof fn lemma_view_injective(a: Self, b: Self)
        requires
            a@ == b@,
        ensures
            a == b,
    {
    }

    /// The value 0x3c.
    #[allow(non_snake_case)]
    pub fn IDENTITY() -> (r: Self)
        ensures
            r@ == 0x3c,
            r == Self::spec_new(0x3c),
    {
        Self(0x3c)
    }

    /// The value 0x1e.
    #[allow(non_snake_case)]
    pub fn TEXMTX0() -> (r: Self)
        ensures
            r@ == 0x1e,
    {
        Self(0x1e)
    }

    /// The value 0x21.
    #[allow(non_snake_case)]
    pub fn TEXMTX1() -> (r: Self)
        ensures
            r@ == 0x21,
    {
        Self(0x21)
    }

    /// The value 0x24.
    #[allow(non_snake_case)]
    pub fn TEXMTX2() -> (r: Self)
        ensures
            r@ == 0x24,
    {
        Self(0x24)
    }

    /// The value 0x27.
    #[allow(non_snake_case)]
    pub fn TEXMTX3() -> (r: Self)
        ensures
            r@ == 0x27,
    {
        Self(0x27)
    }

    /// The value 0x2a.
    #[allow(non_snake_case)]
    pub fn TEXMTX4() -> (r: Self)
        ensures
            r@ == 0x2a,
    {
        Self(0x2a)
    }

    /// The value 0x2d.
    #[allow(non_snake_case)]
    pub fn TEXMTX5() -> (r: Self)
        ensures
            r@ == 0x2d,
    {
        Self(0x2d)
    }

    /// The value 0x30.
    #[allow(non_snake_case)]
    pub fn TEXMTX6() -> (r: Self)
        ensures
            r@ == 0x30,
    {
        Self(0x30)
    }

    /// The value 0x33.
    #[allow(non_snake_case)]
    pub fn TEXMTX7() -> (r: Self)
        ensures
            r@ == 0x33,
    {
        Self(0x33)
    }

    /// The value 0x36.
    #[allow(non_snake_case)]
    pub fn TEXMTX8() -> (r: Self)
        ensures
            r@ == 0x36,
    {
        Self(0x36)
    }

    /// The value 0x39.
    #[allow(non_snake_case)]
    pub fn TEXMTX9() -> (r: Self)
        ensures
            r@ == 0x39,
    {
        Self(0x39)
    }

    /// Wraps a raw value.
    pub fn from_u32(value: u32) -> (r: Self)
        ensures
            r@ == value,
    {
        Self(value)
    }

    /// The raw value.
    pub fn as_u32(self) -> (r: u32)
        ensures
            r == self@,
    {
        self.0
    }
}

/// The index of a post-transform texture matrix.
#[derive(Clone, Copy, Debug, PartialEq, Eq, Structural)]
pub struct PostTransformTexMtxIndex(u32);

impl View for PostTransformTexMtxIndex {
    type V = u32;

    closed spec fn view(&self) -> u32 {
        self.0
    }
}

impl PostTransformTexMtxIndex {
    /// The value with raw value `value`.
    pub closed spec fn spec_new(value: u32) -> Self {
        PostTransformTexMtxIndex(value)
    }

    /// The value made from `value` has `value` as its raw value.
    pub proof fn lemma_new_view(value: u32)
        ensures
            Self::spec_new(value)@ == value,
    {
    }

    /// Two values with the same raw value are the same.
    pub proof fn lemma_view_injective(a: Self, b: Self)
        requires
            a@ == b@,
        ensures
            a == b,
    {
    }

    /// The value 0x7d.
    #[allow(non_snake_case)]
    pub fn IDENTITY() -> (r: Self)
        ensures
            r@ == 0x7d,
            r == Self::spec_new(0x7d),
    {
        Self(0x7d)
    }

    /// The value 0x40.
    #[allow(non_snake_case)]
    pub fn DTTMTX0() -> (r: Self)
        ensures
            r@ == 0x40,
    {
        Self(0x40)
    }

    /// The value 0x43.
    #[allow(non_snake_case)]
    pub fn DTTMTX1() -> (r: Self)
        ensures
            r@ == 0x43,
    {
        Self(0x43)
    }

    /// The value 0x46.
    #[allow(non_snake_case)]
    pub fn DTTMTX2() -> (r: Self)
        ensures
            r@ == 0x46,
    {
        Self(0x46)
    }

    /// The value 0x49.
    #[allow(non_snake_case)]
    pub fn DTTMTX3() -> (r: Self)
        ensures
            r@ == 0x49,
    {
        Self(0x49)
    }

    /// The value 0x4c.
    #[allow(non_snake_case)]
    pub fn DTTMTX4() -> (r: Self)
        ensures
            r@ == 0x4c,
    {
        Self(0x4c)
    }

    /// The value 0x4f.
    #[allow(non_snake_case)]
    pub fn DTTMTX5() -> (r: Self)
        ensures
            r@ == 0x4f,
    {
        Self(0x4f)
    }

    /// The value 0x52.
    #[allow(non_snake_case)]
    pub fn DTTMTX6() -> (r: Self)
        ensures
            r@ == 0x52,
    {
        Self(0x52)
    }

    /// The value 0x55.
    #[allow(non_snake_case)]
    pub fn DTTMTX7() -> (r: Self)
        ensures
            r@ == 0x55,
    {
        Self(0x55)
    }

    /// The value 0x58.
    #[allow(non_snake_case)]
    pub fn DTTMTX8() -> (r: Self)
        ensures
            r@ == 0x58,
    {
        Self(0x58)
    }

    /// The value 0x5b.
    #[allow(non_snake_case)]
    pub fn DTTMTX9() -> (r: Self)
        ensures
            r@ == 0x5b,
    {
        Self(0x5b)
    }

    /// Wraps a raw value.
    pub fn from_u32(value: u32) -> (r: Self)
        ensures
            r@ == value,
    {
        Self(value)
    }

    /// The raw value.
    pub fn as_u32(self) -> (r: u32)
        ensures
            r == self@,
    {
        self.0
    }
}

} // verus!
