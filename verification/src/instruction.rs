//! ST7735/ST7306-class controller instructions.
//!
//! A closed, fixed mapping from symbolic command names to single-byte
//! opcodes. The opcode values are dictated by the chip's datasheet and must
//! be preserved bit-for-bit.

use vstd::prelude::*;

verus! {

/// Symbolic names for the controller's instruction bytes.
#[derive(Debug, Clone, Copy, PartialEq, Eq, Structural)]
pub enum Instruction {
    NOP,
    /// Software Reset
    SWRESET,
    /// Read Display ID
    RDDID,
    /// Read Display Status
    RDDST,
    /// Sleep In
    SLPIN,
    /// Sleep Out
    SLPOUT,
    /// Partial On
    PTLON,
    /// Partial Off
    PTLOFF,
    /// Display Inversion Off
    INVOFF,
    /// Display Inversion On
    INVON,
    /// Display Off
    DISPOFF,
    /// Display On
    DISPON,
    /// Column Address Set
    CASET,
    /// Row Address Set
    RASET,
    /// Memory Write
    RAMWR,
    /// Tearing Effect Line Off
    TEOFF,
    /// Tearing Effect Line On
    TEON,
    /// Memory Data Access Control
    MADCTL,
    /// Vertical Scroll Start Address of RAM
    VSCSAD,
    /// High Power Mode On
    HPM,
    /// Low Power Mode On
    LPM,
    /// Data Format Select
    DTFORM,
    /// Write Memory Continue
    WRMEMC,
    /// Set Tear Scanline
    TESCAN,
    /// Gate Timing Control
    GTCON,
    /// Gate Line Setting
    GATESET,
    /// First Gate Setting
    FSTCOM,
    /// Frame Rate Control
    FRCTRL,
    /// Update Period Gate EQ Control in HPM
    GTUPEQH,
    /// Update Period Gate EQ Control in LPM
    GTUPEQL,
    /// Source EQ Enable
    SOUEQ,
    /// Panel Setting
    PNLSET,
    /// Gamma Mode Setting
    GAMAMS,
    /// Enable Clear RAM
    CLRAM,
    /// Gate Voltage Control
    GCTRL,
    /// Source High Positive Voltage Control
    VSHPCTRL,
    /// Source Low Positive Voltage Control
    VSLPCTRL,
    /// Source High Negative Voltage Control
    VSHNCTRL,
    /// Source Low Negative Voltage Control
    VSLNCTRL,
    /// Ultra low power (undocumented)
    LOWPOWER,
    /// Source Gamma Voltage Control
    VSIKCTRL,
    /// Source Voltage Select
    VSHLSEL,
    /// ID1 Setting
    ID1SET,
    /// ID2 Setting
    ID2SET,
    /// ID3 Setting
    ID3SET,
    /// Enable Auto Power Down
    AUTOPWRCTRL,
    /// Booster Enable
    BSTEN,
    /// NVM Load Control
    NVMLOADCTRL,
    /// OSC Setting
    OSCSET,
    /// NVM Data Read
    NVMRD,
    /// EXTB Control
    EXTBCTRL,
    /// NVM WR/RD Control
    NVMCTRL1,
    /// NVM Program Setting
    NVMCTRL2,
    /// NVM Read Enable
    NVMRDEN,
    /// NVM Program Enable
    NVMPROM,
    /// Read ID1
    RDID1,
    /// Read ID2
    RDID2,
    /// Read ID3
    RDID3,
}

impl Instruction {
    /// The instruction's opcode byte, as the datasheet fixes it.
    pub open spec fn spec_opcode(self) -> u8 {
        match self {
            Instruction::NOP => 0x00,
            Instruction::SWRESET => 0x01,
            Instruction::RDDID => 0x04,
            Instruction::RDDST => 0x09,
            Instruction::SLPIN => 0x10,
            Instruction::SLPOUT => 0x11,
            Instruction::PTLON => 0x12,
            Instruction::PTLOFF => 0x13,
            Instruction::INVOFF => 0x20,
            Instruction::INVON => 0x21,
            Instruction::DISPOFF => 0x28,
            Instruction::DISPON => 0x29,
            Instruction::CASET => 0x2A,
            Instruction::RASET => 0x2B,
            Instruction::RAMWR => 0x2C,
            Instruction::TEOFF => 0x34,
            Instruction::TEON => 0x35,
            Instruction::MADCTL => 0x36,
            Instruction::VSCSAD => 0x37,
            Instruction::HPM => 0x38,
            Instruction::LPM => 0x39,
            Instruction::DTFORM => 0x3A,
            Instruction::WRMEMC => 0x3C,
            Instruction::TESCAN => 0x44,
            Instruction::GTCON => 0x62,
            Instruction::GATESET => 0xB0,
            Instruction::FSTCOM => 0xB1,
            Instruction::FRCTRL => 0xB2,
            Instruction::GTUPEQH => 0xB3,
            Instruction::GTUPEQL => 0xB4,
            Instruction::SOUEQ => 0xB7,
            Instruction::PNLSET => 0xB8,
            Instruction::GAMAMS => 0xB9,
            Instruction::CLRAM => 0xBB,
            Instruction::GCTRL => 0xC0,
            Instruction::VSHPCTRL => 0xC1,
            Instruction::VSLPCTRL => 0xC2,
            Instruction::VSHNCTRL => 0xC4,
            Instruction::VSLNCTRL => 0xC5,
            Instruction::LOWPOWER => 0xC7,
            Instruction::VSIKCTRL => 0xC8,
            Instruction::VSHLSEL => 0xC9,
            Instruction::ID1SET => 0xCA,
            Instruction::ID2SET => 0xCB,
            Instruction::ID3SET => 0xCC,
            Instruction::AUTOPWRCTRL => 0xD0,
            Instruction::BSTEN => 0xD1,
            Instruction::NVMLOADCTRL => 0xD6,
            Instruction::OSCSET => 0xD8,
            Instruction::NVMRD => 0xE9,
            Instruction::EXTBCTRL => 0xEC,
            Instruction::NVMCTRL1 => 0xF8,
            Instruction::NVMCTRL2 => 0xFA,
            Instruction::NVMRDEN => 0xFB,
            Instruction::NVMPROM => 0xFC,
            Instruction::RDID1 => 0xDA,
            Instruction::RDID2 => 0xDB,
            Instruction::RDID3 => 0xDC,
        }
    }

    /// The instruction's opcode byte, as the datasheet fixes it.
    pub fn opcode(self) -> (r: u8)
        ensures
            r == self.spec_opcode(),
    {
        match self {
            Instruction::NOP => 0x00,
            Instruction::SWRESET => 0x01,
            Instruction::RDDID => 0x04,
            Instruction::RDDST => 0x09,
            Instruction::SLPIN => 0x10,
            Instruction::SLPOUT => 0x11,
            Instruction::PTLON => 0x12,
            Instruction::PTLOFF => 0x13,
            Instruction::INVOFF => 0x20,
            Instruction::INVON => 0x21,
            Instruction::DISPOFF => 0x28,
            Instruction::DISPON => 0x29,
            Instruction::CASET => 0x2A,
            Instruction::RASET => 0x2B,
            Instruction::RAMWR => 0x2C,
            Instruction::TEOFF => 0x34,
            Instruction::TEON => 0x35,
            Instruction::MADCTL => 0x36,
            Instruction::VSCSAD => 0x37,
            Instruction::HPM => 0x38,
            Instruction::LPM => 0x39,
            Instruction::DTFORM => 0x3A,
            Instruction::WRMEMC => 0x3C,
            Instruction::TESCAN => 0x44,
            Instruction::GTCON => 0x62,
            Instruction::GATESET => 0xB0,
            Instruction::FSTCOM => 0xB1,
            Instruction::FRCTRL => 0xB2,
            Instruction::GTUPEQH => 0xB3,
            Instruction::GTUPEQL => 0xB4,
            Instruction::SOUEQ => 0xB7,
            Instruction::PNLSET => 0xB8,
            Instruction::GAMAMS => 0xB9,
            Instruction::CLRAM => 0xBB,
            Instruction::GCTRL => 0xC0,
            Instruction::VSHPCTRL => 0xC1,
            Instruction::VSLPCTRL => 0xC2,
            Instruction::VSHNCTRL => 0xC4,
            Instruction::VSLNCTRL => 0xC5,
            Instruction::LOWPOWER => 0xC7,
            Instruction::VSIKCTRL => 0xC8,
            Instruction::VSHLSEL => 0xC9,
            Instruction::ID1SET => 0xCA,
            Instruction::ID2SET => 0xCB,
            Instruction::ID3SET => 0xCC,
            Instruction::AUTOPWRCTRL => 0xD0,
            Instruction::BSTEN => 0xD1,
            Instruction::NVMLOADCTRL => 0xD6,
            Instruction::OSCSET => 0xD8,
            Instruction::NVMRD => 0xE9,
            Instruction::EXTBCTRL => 0xEC,
            Instruction::NVMCTRL1 => 0xF8,
            Instruction::NVMCTRL2 => 0xFA,
            Instruction::NVMRDEN => 0xFB,
            Instruction::NVMPROM => 0xFC,
            Instruction::RDID1 => 0xDA,
            Instruction::RDID2 => 0xDB,
            Instruction::RDID3 => 0xDC,
        }
    }
}

} // verus!
