use vstd::prelude::*;

verus! {

/// Controller buttons, one bit each.
#[derive(Clone, Copy, Debug, PartialEq, Eq, Structural)]
pub struct CtrlButtons {
    bits: u32,
}

impl View for CtrlButtons {
    type V = u32;

    closed spec fn view(&self) -> u32 {
        self.bits
    }
}

impl CtrlButtons {
    pub const SELECT: u32 = 0x00_0001;
    pub const START: u32 = 0x00_0008;
    pub const UP: u32 = 0x00_0010;
    pub const RIGHT: u32 = 0x00_0020;
    pub const DOWN: u32 = 0x00_0040;
    pub const LEFT: u32 = 0x00_0080;
    pub const LTRIGGER: u32 = 0x00_0100;
    pub const RTRIGGER: u32 = 0x00_0200;
    pub const TRIANGLE: u32 = 0x00_1000;
    pub const CIRCLE: u32 = 0x00_2000;
    pub const CROSS: u32 = 0x00_4000;
    pub const SQUARE: u32 = 0x00_8000;
    pub const HOME: u32 = 0x01_0000;
    pub const HOLD: u32 = 0x02_0000;
    pub const WLAN_UP: u32 = 0x04_0000;
    pub const REMOTE: u32 = 0x08_0000;
    pub const VOL_UP: u32 = 0x10_0000;
    pub const VOL_DOWN: u32 = 0x20_0000;
    pub const SCREEN: u32 = 0x40_0000;
    pub const NOTE: u32 = 0x80_0000;
    pub const DISC: u32 = 0x100_0000;
    pub const MS: u32 = 0x200_0000;

    /// No button.
    pub fn empty() -> (b: Self)
        ensures
            b@ == 0,
    {
        CtrlButtons { bits: 0 }
    }

    /// The buttons with exactly the given bits.
    pub fn from_bits_retain(bits: u32) -> (b: Self)
        ensures
            b@ == bits,
    {
        CtrlButtons { bits }
    }

    /// The raw bits.
    pub fn bits(&self) -> (b: u32)
        ensures
            b == self@,
    {
        self.bits
    }

    /// Every button of `other` is in `self`.
    pub fn contains(&self, other: Self) -> (b: bool)
        ensures
            b == (self@ & other@ == other@),
    {
        self.bits & other.bits == other.bits
    }

    /// The buttons in exactly one of the two sets.
    pub fn symmetric_difference(self, other: Self) -> (b: Self)
        ensures
            b@ == self@ ^ other@,
    {
        CtrlButtons { bits: self.bits ^ other.bits }
    }
}

/// One controller sample.
#[derive(Clone, Copy, Debug)]
pub struct SceCtrlData {
    /// The time of the sample.
    pub timestamp: u32,
    /// The buttons held.
    pub buttons: CtrlButtons,
    /// The analog stick's horizontal position.
    pub lx: u8,
    /// The analog stick's vertical position.
    pub ly: u8,
    pub rsrv: [u8; 6],
}

impl SceCtrlData {
    /// A sample with no button held, the stick at zero, time zero and the
    /// reserved bytes zero.
    pub fn zeroed() -> (d: Self)
        ensures
            d.timestamp == 0,
            d.buttons@ == 0,
            d.lx == 0,
            d.ly == 0,
            d.rsrv@ == seq![0u8, 0u8, 0u8, 0u8, 0u8, 0u8],
    {
        let d = SceCtrlData { timestamp: 0, buttons: CtrlButtons::empty(), lx: 0, ly: 0, rsrv: [0u8; 6] };
        assert(d.rsrv@ =~= seq![0u8, 0u8, 0u8, 0u8, 0u8, 0u8]);
        d
    }
}

} // verus!
