//! Frame-rate configuration and its encoding into the FRCTRL control byte.

use vstd::prelude::*;

verus! {

/// The framerate when in high power mode
#[derive(Copy, Clone, Debug, PartialEq, Eq, Structural)]
pub enum HpmFps {
    Sixteen,
    ThirtyTwo,
}

/// The framerate when in low power mode
#[derive(Copy, Clone, Debug, PartialEq, Eq, Structural)]
pub enum LpmFps {
    Quarter,
    Half,
    One,
    Two,
    Four,
    Eight,
}

/// Configure the display's frame-rate in high and low-power mode
#[derive(Copy, Clone, Debug, PartialEq, Eq, Structural)]
pub struct FpsConfig {
    pub hpm: HpmFps,
    pub lpm: LpmFps,
}

impl HpmFps {
    /// The bit pattern this setting occupies inside the FRCTRL byte.
    pub open spec fn spec_value(self) -> u8 {
        match self {
            HpmFps::Sixteen => 0x00,
            HpmFps::ThirtyTwo => 0x10,
        }
    }

    /// The bit pattern this setting occupies inside the FRCTRL byte.
    pub fn value(self) -> (r: u8)
        ensures
            r == self.spec_value(),
    {
        match self {
            HpmFps::Sixteen => 0x00,
            HpmFps::ThirtyTwo => 0x10,
        }
    }
}

impl LpmFps {
    /// The bit pattern this setting occupies inside the FRCTRL byte.
    pub open spec fn spec_value(self) -> u8 {
        match self {
            LpmFps::Quarter => 0b000,
            LpmFps::Half => 0b001,
            LpmFps::One => 0b010,
            LpmFps::Two => 0b011,
            LpmFps::Four => 0b100,
            LpmFps::Eight => 0b101,
        }
    }

    /// The bit pattern this setting occupies inside the FRCTRL byte.
    pub fn value(self) -> (r: u8)
        ensures
            r == self.spec_value(),
    {
        match self {
            LpmFps::Quarter => 0b000,
            LpmFps::Half => 0b001,
            LpmFps::One => 0b010,
            LpmFps::Two => 0b011,
            LpmFps::Four => 0b100,
            LpmFps::Eight => 0b101,
        }
    }
}

/// The FRCTRL byte that encodes a configuration: the high-power bit pattern
/// in bit 4, the low-power pattern in bits 0..=2.
pub open spec fn spec_fps_as_u8(cfg: FpsConfig) -> u8 {
    (cfg.hpm.spec_value() + cfg.lpm.spec_value()) as u8
}

/// The configuration encoded by a FRCTRL byte: bits 0..=2 select the
/// low-power rate (patterns 6 and 7 are unassigned), bit 4 the high-power
/// rate; the remaining bits are ignored.
pub open spec fn spec_fps_from_u8(byte: u8) -> Option<FpsConfig> {
    let low = byte & 0b111;
    if low < 6 {
        Some(FpsConfig {
            hpm: if byte & 0b00010000 == 0b00010000 {
                HpmFps::ThirtyTwo
            } else {
                HpmFps::Sixteen
            },
            lpm: if low == 0b000 {
                LpmFps::Quarter
            } else if low == 0b001 {
                LpmFps::Half
            } else if low == 0b010 {
                LpmFps::One
            } else if low == 0b011 {
                LpmFps::Two
            } else if low == 0b100 {
                LpmFps::Four
            } else {
                LpmFps::Eight
            },
        })
    } else {
        None
    }
}

impl FpsConfig {
    /// Turn configuration into byte, as accepted by the FRCTRL command
    pub fn as_u8(&self) -> (r: u8)
        ensures
            r == spec_fps_as_u8(*self),
    {
        self.hpm.value() + self.lpm.value()
    }

    /// Decode a FRCTRL byte; `None` when the low-power bits hold one of the
    /// two unassigned patterns.
    pub fn from_u8(byte: u8) -> (r: Option<Self>)
        ensures
            r == spec_fps_from_u8(byte),
    {
        let low = byte & 0b111;
        let lpm = if low == 0b000 {
            LpmFps::Quarter
        } else if low == 0b001 {
            LpmFps::Half
        } else if low == 0b010 {
            LpmFps::One
        } else if low == 0b011 {
            LpmFps::Two
        } else if low == 0b100 {
            LpmFps::Four
        } else if low == 0b101 {
            LpmFps::Eight
        } else {
            return None;
        };
        let hpm = if byte & 0b00010000 == 0b00010000 {
            HpmFps::ThirtyTwo
        } else {
            HpmFps::Sixteen
        };
        Some(Self { hpm, lpm })
    }
}

/// How a high-power pattern and a low-power pattern combine in one byte:
/// they occupy disjoint bits, so masking the sum recovers each part.
proof fn lemma_fps_bits(h: u8, l: u8)
    by (bit_vector)
    requires
        h == 0x00 || h == 0x10,
        l < 6,
    ensures
        ((h + l) as u8) & 0b111 == l,
        ((h + l) as u8) & 0b00010000 == h,
{
}

/// Round-trip law: decoding the byte that encodes a configuration gives the
/// configuration back, for every valid combination.
pub proof fn lemma_fps_round_trip(cfg: FpsConfig)
    ensures
        spec_fps_from_u8(spec_fps_as_u8(cfg)) == Some(cfg),
{
    let h = cfg.hpm.spec_value();
    let l = cfg.lpm.spec_value();
    lemma_fps_bits(h, l);
}

} // verus!
