//! Enumerated field values and the channel set, each with its bit code.
//!
//! A code that names no variant is not a value of the field: `from_code` returns `None`
//! for it, and a register that holds it does not decode.

use vstd::prelude::*;

verus! {

/// These bits select one of the sampling modes listed below. These modes are
/// exclusive: only one mode can be set at any given time. One of the sampling modes is
/// Sleep, when no sampling occurs.
#[derive(Clone, Copy, Debug, PartialEq, Eq, Structural)]
pub enum SampleMode {
    _1024Adaptive,
    _256Adaptive,
    _64Adaptive,
    _8Adaptive,
    _1024,
    _256,
    _64,
    _8,
    SingleShot,
    SingleShot8X,
    Fast,
    Burst,
    Sleep,
}

impl SampleMode {
    /// The 4-bit code of the mode.
    pub open spec fn spec_code(self) -> u64 {
        match self {
            SampleMode::_1024Adaptive => 0,
            SampleMode::_256Adaptive => 1,
            SampleMode::_64Adaptive => 2,
            SampleMode::_8Adaptive => 3,
            SampleMode::_1024 => 4,
            SampleMode::_256 => 5,
            SampleMode::_64 => 6,
            SampleMode::_8 => 7,
            SampleMode::SingleShot => 8,
            SampleMode::SingleShot8X => 9,
            SampleMode::Fast => 10,
            SampleMode::Burst => 11,
            SampleMode::Sleep => 15,
        }
    }

    /// The mode whose code is `c`, if any.
    pub open spec fn spec_from_code(c: u64) -> Option<SampleMode> {
        if c == 0 {
            Some(SampleMode::_1024Adaptive)
        } else if c == 1 {
            Some(SampleMode::_256Adaptive)
        } else if c == 2 {
            Some(SampleMode::_64Adaptive)
        } else if c == 3 {
            Some(SampleMode::_8Adaptive)
        } else if c == 4 {
            Some(SampleMode::_1024)
        } else if c == 5 {
            Some(SampleMode::_256)
        } else if c == 6 {
            Some(SampleMode::_64)
        } else if c == 7 {
            Some(SampleMode::_8)
        } else if c == 8 {
            Some(SampleMode::SingleShot)
        } else if c == 9 {
            Some(SampleMode::SingleShot8X)
        } else if c == 10 {
            Some(SampleMode::Fast)
        } else if c == 11 {
            Some(SampleMode::Burst)
        } else if c == 15 {
            Some(SampleMode::Sleep)
        } else {
            None
        }
    }

    pub fn code(&self) -> (r: u64)
        ensures
            r == self.spec_code(),
            r < 16,
    {
        match self {
            SampleMode::_1024Adaptive => 0,
            SampleMode::_256Adaptive => 1,
            SampleMode::_64Adaptive => 2,
            SampleMode::_8Adaptive => 3,
            SampleMode::_1024 => 4,
            SampleMode::_256 => 5,
            SampleMode::_64 => 6,
            SampleMode::_8 => 7,
            SampleMode::SingleShot => 8,
            SampleMode::SingleShot8X => 9,
            SampleMode::Fast => 10,
            SampleMode::Burst => 11,
            SampleMode::Sleep => 15,
        }
    }

    pub fn from_code(c: u64) -> (r: Option<SampleMode>)
        ensures
            r == SampleMode::spec_from_code(c),
    {
        match c {
            0 => Some(SampleMode::_1024Adaptive),
            1 => Some(SampleMode::_256Adaptive),
            2 => Some(SampleMode::_64Adaptive),
            3 => Some(SampleMode::_8Adaptive),
            4 => Some(SampleMode::_1024),
            5 => Some(SampleMode::_256),
            6 => Some(SampleMode::_64),
            7 => Some(SampleMode::_8),
            8 => Some(SampleMode::SingleShot),
            9 => Some(SampleMode::SingleShot8X),
            10 => Some(SampleMode::Fast),
            11 => Some(SampleMode::Burst),
            15 => Some(SampleMode::Sleep),
            _ => None,
        }
    }

    /// Every mode's code decodes to that mode, and codes fit in four bits.
    pub proof fn lemma_code(self)
        ensures
            SampleMode::spec_from_code(self.spec_code()) == Some(self),
            self.spec_code() < 16,
    {
    }
}

/// Pin mode for GPIO/ALERT2 and SLOW/ALERT1.
#[derive(Clone, Copy, Debug, PartialEq, Eq, Structural)]
pub enum GpioAlert {
    Alert,
    Input,
    Output,
    Slow,
}

impl GpioAlert {
    /// The 2-bit code of the pin mode.
    pub open spec fn spec_code(self) -> u64 {
        match self {
            GpioAlert::Alert => 0,
            GpioAlert::Input => 1,
            GpioAlert::Output => 2,
            GpioAlert::Slow => 3,
        }
    }

    /// The pin mode whose code is `c`, if any.
    pub open spec fn spec_from_code(c: u64) -> Option<GpioAlert> {
        if c == 0 {
            Some(GpioAlert::Alert)
        } else if c == 1 {
            Some(GpioAlert::Input)
        } else if c == 2 {
            Some(GpioAlert::Output)
        } else if c == 3 {
            Some(GpioAlert::Slow)
        } else {
            None
        }
    }

    pub fn code(&self) -> (r: u64)
        ensures
            r == self.spec_code(),
            r < 4,
    {
        match self {
            GpioAlert::Alert => 0,
            GpioAlert::Input => 1,
            GpioAlert::Output => 2,
            GpioAlert::Slow => 3,
        }
    }

    pub fn from_code(c: u64) -> (r: Option<GpioAlert>)
        ensures
            r == GpioAlert::spec_from_code(c),
    {
        match c {
            0 => Some(GpioAlert::Alert),
            1 => Some(GpioAlert::Input),
            2 => Some(GpioAlert::Output),
            3 => Some(GpioAlert::Slow),
            _ => None,
        }
    }

    /// Every pin mode's code decodes to that mode, and codes fit in two bits.
    pub proof fn lemma_code(self)
        ensures
            GpioAlert::spec_from_code(self.spec_code()) == Some(self),
            self.spec_code() < 4,
    {
    }
}

/// Full scale range (FSR) for the sense voltage.
#[derive(Clone, Copy, Debug, PartialEq, Eq, Structural)]
pub enum VSenseFSR {
    /// Unipolar range of +100 mV to 0V FSR
    Unipolar,
    /// Bipolar range of +100 mV to -100mV FSR
    BipolarHV,
    /// Bipolar range of +50 mV to -50mV FSR
    BipolarLV,
}

impl VSenseFSR {
    /// The 2-bit code of the range.
    pub open spec fn spec_code(self) -> u64 {
        match self {
            VSenseFSR::Unipolar => 0,
            VSenseFSR::BipolarHV => 1,
            VSenseFSR::BipolarLV => 2,
        }
    }

    /// The range whose code is `c`, if any.
    pub open spec fn spec_from_code(c: u64) -> Option<VSenseFSR> {
        if c == 0 {
            Some(VSenseFSR::Unipolar)
        } else if c == 1 {
            Some(VSenseFSR::BipolarHV)
        } else if c == 2 {
            Some(VSenseFSR::BipolarLV)
        } else {
            None
        }
    }

    pub fn code(&self) -> (r: u64)
        ensures
            r == self.spec_code(),
            r < 4,
    {
        match self {
            VSenseFSR::Unipolar => 0,
            VSenseFSR::BipolarHV => 1,
            VSenseFSR::BipolarLV => 2,
        }
    }

    pub fn from_code(c: u64) -> (r: Option<VSenseFSR>)
        ensures
            r == VSenseFSR::spec_from_code(c),
    {
        match c {
            0 => Some(VSenseFSR::Unipolar),
            1 => Some(VSenseFSR::BipolarHV),
            2 => Some(VSenseFSR::BipolarLV),
            _ => None,
        }
    }

    /// Every range's code decodes to that range, and codes fit in two bits.
    pub proof fn lemma_code(self)
        ensures
            VSenseFSR::spec_from_code(self.spec_code()) == Some(self),
            self.spec_code() < 4,
    {
    }
}

/// Full scale range (FSR) for the bus voltage.
#[derive(Clone, Copy, Debug, PartialEq, Eq, Structural)]
pub enum VBusFSR {
    /// Unipolar range of +9 V to 0V FSR
    Unipolar,
    /// Bipolar range of +9 V to -9V FSR
    BipolarHV,
    /// Bipolar range of +4.5 V to -4.5 V FSR
    BipolarLV,
}

impl VBusFSR {
    /// The 2-bit code of the range.
    pub open spec fn spec_code(self) -> u64 {
        match self {
            VBusFSR::Unipolar => 0,
            VBusFSR::BipolarHV => 1,
            VBusFSR::BipolarLV => 2,
        }
    }

    /// The range whose code is `c`, if any.
    pub open spec fn spec_from_code(c: u64) -> Option<VBusFSR> {
        if c == 0 {
            Some(VBusFSR::Unipolar)
        } else if c == 1 {
            Some(VBusFSR::BipolarHV)
        } else if c == 2 {
            Some(VBusFSR::BipolarLV)
        } else {
            None
        }
    }

    pub fn code(&self) -> (r: u64)
        ensures
            r == self.spec_code(),
            r < 4,
    {
        match self {
            VBusFSR::Unipolar => 0,
            VBusFSR::BipolarHV => 1,
            VBusFSR::BipolarLV => 2,
        }
    }

    pub fn from_code(c: u64) -> (r: Option<VBusFSR>)
        ensures
            r == VBusFSR::spec_from_code(c),
    {
        match c {
            0 => Some(VBusFSR::Unipolar),
            1 => Some(VBusFSR::BipolarHV),
            2 => Some(VBusFSR::BipolarLV),
            _ => None,
        }
    }

    /// Every range's code decodes to that range, and codes fit in two bits.
    pub proof fn lemma_code(self)
        ensures
            VBusFSR::spec_from_code(self.spec_code()) == Some(self),
            self.spec_code() < 4,
    {
    }
}

/// The quantity that an accumulator accumulates.
#[derive(Clone, Copy, Debug, PartialEq, Eq, Structural)]
pub enum AccumSetting {
    VPower,
    VSense,
    VBus,
}

impl AccumSetting {
    /// The 2-bit code of the setting.
    pub open spec fn spec_code(self) -> u64 {
        match self {
            AccumSetting::VPower => 0,
            AccumSetting::VSense => 1,
            AccumSetting::VBus => 2,
        }
    }

    /// The setting whose code is `c`, if any.
    pub open spec fn spec_from_code(c: u64) -> Option<AccumSetting> {
        if c == 0 {
            Some(AccumSetting::VPower)
        } else if c == 1 {
            Some(AccumSetting::VSense)
        } else if c == 2 {
            Some(AccumSetting::VBus)
        } else {
            None
        }
    }

    pub fn code(&self) -> (r: u64)
        ensures
            r == self.spec_code(),
            r < 4,
    {
        match self {
            AccumSetting::VPower => 0,
            AccumSetting::VSense => 1,
            AccumSetting::VBus => 2,
        }
    }

    pub fn from_code(c: u64) -> (r: Option<AccumSetting>)
        ensures
            r == AccumSetting::spec_from_code(c),
    {
        match c {
            0 => Some(AccumSetting::VPower),
            1 => Some(AccumSetting::VSense),
            2 => Some(AccumSetting::VBus),
            _ => None,
        }
    }

    /// Every setting's code decodes to that setting, and codes fit in two bits.
    pub proof fn lemma_code(self)
        ensures
            AccumSetting::spec_from_code(self.spec_code()) == Some(self),
            self.spec_code() < 4,
    {
    }
}

/// How full an accumulator, or the accumulator count, may get before its limit trips.
#[derive(Clone, Copy, Debug, PartialEq, Eq, Structural)]
pub enum AccFullness {
    Full,
    /// 15/16 Full (Default)
    Mostly,
    /// 7/8 Full
    Somewhat,
    /// 3/4 Full
    Partially,
}

impl AccFullness {
    /// The 2-bit code of the limit.
    pub open spec fn spec_code(self) -> u64 {
        match self {
            AccFullness::Full => 0,
            AccFullness::Mostly => 1,
            AccFullness::Somewhat => 2,
            AccFullness::Partially => 3,
        }
    }

    /// The limit whose code is `c`, if any.
    pub open spec fn spec_from_code(c: u64) -> Option<AccFullness> {
        if c == 0 {
            Some(AccFullness::Full)
        } else if c == 1 {
            Some(AccFullness::Mostly)
        } else if c == 2 {
            Some(AccFullness::Somewhat)
        } else if c == 3 {
            Some(AccFullness::Partially)
        } else {
            None
        }
    }

    pub fn code(&self) -> (r: u64)
        ensures
            r == self.spec_code(),
            r < 4,
    {
        match self {
            AccFullness::Full => 0,
            AccFullness::Mostly => 1,
            AccFullness::Somewhat => 2,
            AccFullness::Partially => 3,
        }
    }

    pub fn from_code(c: u64) -> (r: Option<AccFullness>)
        ensures
            r == AccFullness::spec_from_code(c),
    {
        match c {
            0 => Some(AccFullness::Full),
            1 => Some(AccFullness::Mostly),
            2 => Some(AccFullness::Somewhat),
            3 => Some(AccFullness::Partially),
            _ => None,
        }
    }

    /// Every limit's code decodes to that limit, and codes fit in two bits.
    pub proof fn lemma_code(self)
        ensures
            AccFullness::spec_from_code(self.spec_code()) == Some(self),
            self.spec_code() < 4,
    {
    }
}

/// The consecutive sample count to trigger an alert.
#[derive(Clone, Copy, Debug, PartialEq, Eq, Structural)]
pub enum SampleCount {
    /// Default
    _1,
    _4,
    _8,
    _16,
}

impl SampleCount {
    /// The 2-bit code of the count.
    pub open spec fn spec_code(self) -> u64 {
        match self {
            SampleCount::_1 => 0,
            SampleCount::_4 => 1,
            SampleCount::_8 => 2,
            SampleCount::_16 => 3,
        }
    }

    /// The count whose code is `c`, if any.
    pub open spec fn spec_from_code(c: u64) -> Option<SampleCount> {
        if c == 0 {
            Some(SampleCount::_1)
        } else if c == 1 {
            Some(SampleCount::_4)
        } else if c == 2 {
            Some(SampleCount::_8)
        } else if c == 3 {
            Some(SampleCount::_16)
        } else {
            None
        }
    }

    pub fn code(&self) -> (r: u64)
        ensures
            r == self.spec_code(),
            r < 4,
    {
        match self {
            SampleCount::_1 => 0,
            SampleCount::_4 => 1,
            SampleCount::_8 => 2,
            SampleCount::_16 => 3,
        }
    }

    pub fn from_code(c: u64) -> (r: Option<SampleCount>)
        ensures
            r == SampleCount::spec_from_code(c),
    {
        match c {
            0 => Some(SampleCount::_1),
            1 => Some(SampleCount::_4),
            2 => Some(SampleCount::_8),
            3 => Some(SampleCount::_16),
            _ => None,
        }
    }

    /// Every count's code decodes to that count, and codes fit in two bits.
    pub proof fn lemma_code(self)
        ensures
            SampleCount::spec_from_code(self.spec_code()) == Some(self),
            self.spec_code() < 4,
    {
    }
}

/// Channels to be potentially disabled.
///
/// In a control register the set takes four bits: channel 1 the most significant,
/// channel 4 the least.
#[derive(Clone, Copy, Debug, PartialEq, Eq, Structural, Default)]
pub struct Channels {
    pub _1: bool,
    pub _2: bool,
    pub _3: bool,
    pub _4: bool,
}

/// 1 for a set flag, 0 for a clear one.
pub open spec fn bit(b: bool) -> u64 {
    if b {
        1
    } else {
        0
    }
}

/// 1 for a set flag, 0 for a clear one.
pub fn flag_bit(b: bool) -> (r: u64)
    ensures
        r == bit(b),
{
    if b {
        1
    } else {
        0
    }
}

impl Channels {
    /// The four bits of the set.
    pub open spec fn spec_code(self) -> u64 {
        (bit(self._1) << 3u64) | (bit(self._2) << 2u64) | (bit(self._3) << 1u64) | bit(self._4)
    }

    /// The set whose four bits are `c`.
    pub open spec fn spec_from_code(c: u64) -> Channels {
        Channels {
            _1: (c >> 3u64) & 1 == 1,
            _2: (c >> 2u64) & 1 == 1,
            _3: (c >> 1u64) & 1 == 1,
            _4: c & 1 == 1,
        }
    }

    pub fn code(&self) -> (r: u64)
        ensures
            r == self.spec_code(),
    {
        (flag_bit(self._1) << 3u64) | (flag_bit(self._2) << 2u64) | (flag_bit(self._3) << 1u64)
            | flag_bit(self._4)
    }

    pub fn from_code(c: u64) -> (r: Channels)
        ensures
            r == Channels::spec_from_code(c),
    {
        Channels {
            _1: (c >> 3u64) & 1 == 1,
            _2: (c >> 2u64) & 1 == 1,
            _3: (c >> 1u64) & 1 == 1,
            _4: c & 1 == 1,
        }
    }

    /// The code of a set decodes to that set, and codes fit in four bits.
    pub proof fn lemma_code(self)
        ensures
            Channels::spec_from_code(self.spec_code()) == self,
            self.spec_code() < 16,
    {
        let (a, b, c, d) = (bit(self._1), bit(self._2), bit(self._3), bit(self._4));
        let w = self.spec_code();
        assert(w == (a << 3u64) | (b << 2u64) | (c << 1u64) | d);
        assert(((w >> 3u64) & 1 == a) && ((w >> 2u64) & 1 == b) && ((w >> 1u64) & 1 == c) && (w
            & 1 == d) && w < 16) by (bit_vector)
            requires
                a <= 1,
                b <= 1,
                c <= 1,
                d <= 1,
                w == (a << 3u64) | (b << 2u64) | (c << 1u64) | d,
        ;
    }
}

} // verus!
