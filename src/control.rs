//! Configuration registers: the control register and the full-scale-range and
//! accumulator configuration, each in its pending, active and latched image, plus the
//! bus settings and the SLOW pin register.

use vstd::prelude::*;
use crate::bits::{
    lemma_small_pows,
    bytes_of, digits_fit, digits_of, digits_word, field, from_be_bytes, get_field,
    lemma_digits_image, lemma_word_of_bytes_of, pack_digits, to_be_bytes, unpack_digits, word_of,
};
use crate::fields::{bit, flag_bit, AccumSetting, VBusFSR, VSenseFSR};
use crate::error::DecodingError;
use crate::fields::{Channels, GpioAlert, SampleMode};
use crate::register::{Address, RoundTrip, Register, WritableRegister};

verus! {

/// The 16-bit word of a control image: sample mode in bits 15:12, GPIO/ALERT2 mode in
/// bits 11:10, SLOW/ALERT1 mode in bits 9:8 and the disabled channels in bits 7:4.
pub open spec fn ctrl_word(sm: SampleMode, g2: GpioAlert, s1: GpioAlert, ch: Channels) -> u64 {
    (sm.spec_code() << 12u64) | (g2.spec_code() << 10u64) | (s1.spec_code() << 8u64) | (
    ch.spec_code() << 4u64)
}

/// Both enumerated fields and the sample mode of a control image hold defined codes.
pub open spec fn ctrl_valid(bytes: Seq<u8>) -> bool {
    let w = word_of(bytes);
    &&& SampleMode::spec_from_code(field(w, 12, 4)) is Some
    &&& GpioAlert::spec_from_code(field(w, 10, 2)) is Some
    &&& GpioAlert::spec_from_code(field(w, 8, 2)) is Some
}

/// The fields of a control image.
pub open spec fn ctrl_fields(bytes: Seq<u8>) -> (SampleMode, GpioAlert, GpioAlert, Channels) {
    let w = word_of(bytes);
    (
        SampleMode::spec_from_code(field(w, 12, 4))->Some_0,
        GpioAlert::spec_from_code(field(w, 10, 2))->Some_0,
        GpioAlert::spec_from_code(field(w, 8, 2))->Some_0,
        Channels::spec_from_code(field(w, 4, 4)),
    )
}

fn pack_ctrl(sm: SampleMode, g2: GpioAlert, s1: GpioAlert, ch: Channels) -> (r: Vec<u8>)
    ensures
        r@ == bytes_of(ctrl_word(sm, g2, s1, ch), 2),
{
    let w = (sm.code() << 12u64) | (g2.code() << 10u64) | (s1.code() << 8u64) | (ch.code()
        << 4u64);
    to_be_bytes(w, 2)
}

fn unpack_ctrl(bytes: &[u8]) -> (r: Result<(SampleMode, GpioAlert, GpioAlert, Channels), DecodingError>)
    requires
        bytes@.len() == 2,
    ensures
        r is Err <==> !ctrl_valid(bytes@),
        r is Ok ==> r->Ok_0 == ctrl_fields(bytes@),
{
    let w = from_be_bytes(bytes);
    let sm = match SampleMode::from_code(get_field(w, 12, 4)) {
        Some(m) => m,
        None => return Err(DecodingError),
    };
    let g2 = match GpioAlert::from_code(get_field(w, 10, 2)) {
        Some(m) => m,
        None => return Err(DecodingError),
    };
    let s1 = match GpioAlert::from_code(get_field(w, 8, 2)) {
        Some(m) => m,
        None => return Err(DecodingError),
    };
    Ok((sm, g2, s1, Channels::from_code(get_field(w, 4, 4))))
}

proof fn lemma_ctrl_layout(sm: SampleMode, g2: GpioAlert, s1: GpioAlert, ch: Channels)
    ensures
        ctrl_valid(bytes_of(ctrl_word(sm, g2, s1, ch), 2)),
        ctrl_fields(bytes_of(ctrl_word(sm, g2, s1, ch), 2)) == (sm, g2, s1, ch),
{
    sm.lemma_code();
    g2.lemma_code();
    s1.lemma_code();
    ch.lemma_code();
    let (a, b, c, d) = (sm.spec_code(), g2.spec_code(), s1.spec_code(), ch.spec_code());
    let w = ctrl_word(sm, g2, s1, ch);
    assert(field(w, 12, 4) == a && field(w, 10, 2) == b && field(w, 8, 2) == c && field(w, 4, 4)
        == d && w < (1u64 << 16u64)) by (bit_vector)
        requires
            a < 16,
            b < 4,
            c < 4,
            d < 16,
            w == (a << 12u64) | (b << 10u64) | (c << 8u64) | (d << 4u64),
    ;
    lemma_word_of_bytes_of(w, 2);
}

/// Primary control register: the pending image, activated by the next refresh.
#[derive(Clone, Copy, Debug, PartialEq, Eq, Structural)]
pub struct Ctrl {
    pub sample_mode: SampleMode,
    /// Select the signals for the GPIO/ALERT2 pin. If the pin is configured as a GPIO
    /// pin, the R/W data for the pin are stored in [`crate::control::SmbusSettings`].
    pub gpio_alert2: GpioAlert,
    /// Select the signals for SLOW/ALERT1 pin. If the pin is configured as a GPIO
    /// pin, the R/W data for the pin are stored in [`crate::control::SmbusSettings`].
    pub slow_alert1: GpioAlert,
    /// Allow one or more channels to be disabled (bit value = 1) during the conversion
    /// cycle. A bit value = 0 means the channel is active.
    pub channel_n_off: Channels,
}

impl Register for Ctrl {
    open spec fn spec_addr() -> Address {
        Address::Ctrl
    }

    open spec fn spec_size() -> nat {
        2
    }

    open spec fn wf(self) -> bool {
        true
    }

    open spec fn encode(self) -> Seq<u8> {
        bytes_of(ctrl_word(self.sample_mode, self.gpio_alert2, self.slow_alert1, self.channel_n_off), 2)
    }

    open spec fn valid_codes(bytes: Seq<u8>) -> bool {
        ctrl_valid(bytes)
    }

    open spec fn decode(bytes: Seq<u8>) -> Ctrl {
        let f = ctrl_fields(bytes);
        Ctrl { sample_mode: f.0, gpio_alert2: f.1, slow_alert1: f.2, channel_n_off: f.3 }
    }

    fn addr() -> Address {
        Address::Ctrl
    }

    fn size() -> usize {
        2
    }

    fn pack(&self) -> Vec<u8> {
        pack_ctrl(self.sample_mode, self.gpio_alert2, self.slow_alert1, self.channel_n_off)
    }

    fn unpack(bytes: &[u8]) -> Result<Ctrl, DecodingError> {
        match unpack_ctrl(bytes) {
            Ok(f) => Ok(Ctrl { sample_mode: f.0, gpio_alert2: f.1, slow_alert1: f.2, channel_n_off: f.3 }),
            Err(e) => Err(e),
        }
    }
}

impl RoundTrip for Ctrl {
    proof fn lemma_round_trip(v: Ctrl) {
        lemma_ctrl_layout(v.sample_mode, v.gpio_alert2, v.slow_alert1, v.channel_n_off);
    }
}

impl WritableRegister for Ctrl {

}

/// This register contains an image of [`Ctrl`] and reflects the current active value of
/// these settings, whereas the values in [`Ctrl`] may be programmed but not activated by
/// one of the REFRESH commands. Valid 1 ms after a REFRESH/_V/_G command, in most cases.
#[derive(Clone, Copy, Debug, PartialEq, Eq, Structural)]
pub struct CtrlAct {
    pub sample_mode: SampleMode,
    pub gpio_alert2: GpioAlert,
    pub slow_alert1: GpioAlert,
    pub channel_n_off: Channels,
}

impl Register for CtrlAct {
    open spec fn spec_addr() -> Address {
        Address::CtrlAct
    }

    open spec fn spec_size() -> nat {
        2
    }

    open spec fn wf(self) -> bool {
        true
    }

    open spec fn encode(self) -> Seq<u8> {
        bytes_of(ctrl_word(self.sample_mode, self.gpio_alert2, self.slow_alert1, self.channel_n_off), 2)
    }

    open spec fn valid_codes(bytes: Seq<u8>) -> bool {
        ctrl_valid(bytes)
    }

    open spec fn decode(bytes: Seq<u8>) -> CtrlAct {
        let f = ctrl_fields(bytes);
        CtrlAct { sample_mode: f.0, gpio_alert2: f.1, slow_alert1: f.2, channel_n_off: f.3 }
    }

    fn addr() -> Address {
        Address::CtrlAct
    }

    fn size() -> usize {
        2
    }

    fn pack(&self) -> Vec<u8> {
        pack_ctrl(self.sample_mode, self.gpio_alert2, self.slow_alert1, self.channel_n_off)
    }

    fn unpack(bytes: &[u8]) -> Result<CtrlAct, DecodingError> {
        match unpack_ctrl(bytes) {
            Ok(f) => Ok(CtrlAct { sample_mode: f.0, gpio_alert2: f.1, slow_alert1: f.2, channel_n_off: f.3 }),
            Err(e) => Err(e),
        }
    }
}

impl RoundTrip for CtrlAct {
    proof fn lemma_round_trip(v: CtrlAct) {
        lemma_ctrl_layout(v.sample_mode, v.gpio_alert2, v.slow_alert1, v.channel_n_off);
    }
}

/// This register contains an image of [`Ctrl`]: the settings that were active before the
/// most recent REFRESH command (including REFRESH_V and/or REFRESH_G), which therefore
/// correspond to the dataset held in the readable registers. Not valid until the first
/// REFRESH after a POR event.
#[derive(Clone, Copy, Debug, PartialEq, Eq, Structural)]
pub struct CtrlLat {
    pub sample_mode: SampleMode,
    pub gpio_alert2: GpioAlert,
    pub slow_alert1: GpioAlert,
    pub channel_n_off: Channels,
}

impl Register for CtrlLat {
    open spec fn spec_addr() -> Address {
        Address::CtrlLat
    }

    open spec fn spec_size() -> nat {
        2
    }

    open spec fn wf(self) -> bool {
        true
    }

    open spec fn encode(self) -> Seq<u8> {
        bytes_of(ctrl_word(self.sample_mode, self.gpio_alert2, self.slow_alert1, self.channel_n_off), 2)
    }

    open spec fn valid_codes(bytes: Seq<u8>) -> bool {
        ctrl_valid(bytes)
    }

    open spec fn decode(bytes: Seq<u8>) -> CtrlLat {
        let f = ctrl_fields(bytes);
        CtrlLat { sample_mode: f.0, gpio_alert2: f.1, slow_alert1: f.2, channel_n_off: f.3 }
    }

    fn addr() -> Address {
        Address::CtrlLat
    }

    fn size() -> usize {
        2
    }

    fn pack(&self) -> Vec<u8> {
        pack_ctrl(self.sample_mode, self.gpio_alert2, self.slow_alert1, self.channel_n_off)
    }

    fn unpack(bytes: &[u8]) -> Result<CtrlLat, DecodingError> {
        match unpack_ctrl(bytes) {
            Ok(f) => Ok(CtrlLat { sample_mode: f.0, gpio_alert2: f.1, slow_alert1: f.2, channel_n_off: f.3 }),
            Err(e) => Err(e),
        }
    }
}

impl RoundTrip for CtrlLat {
    proof fn lemma_round_trip(v: CtrlLat) {
        lemma_ctrl_layout(v.sample_mode, v.gpio_alert2, v.slow_alert1, v.channel_n_off);
    }
}

/// Configures the FSR of each channel for Vsense and Vbus measurement: the pending
/// image, activated by the next refresh. Two bits each, from channel 1's Vsense range in
/// bits 15:14 down to channel 4's Vbus range in bits 1:0.
#[derive(Clone, Copy, Debug, PartialEq, Eq, Structural)]
pub struct NegPwrFsr {
    pub cfg_vs1: VSenseFSR,
    pub cfg_vs2: VSenseFSR,
    pub cfg_vs3: VSenseFSR,
    pub cfg_vs4: VSenseFSR,
    pub cfg_vb1: VBusFSR,
    pub cfg_vb2: VBusFSR,
    pub cfg_vb3: VBusFSR,
    pub cfg_vb4: VBusFSR,
}

impl NegPwrFsr {
    /// The eight 2-bit codes, most significant first.
    pub open spec fn digits(self) -> Seq<u64> {
        seq![
            self.cfg_vs1.spec_code(),
            self.cfg_vs2.spec_code(),
            self.cfg_vs3.spec_code(),
            self.cfg_vs4.spec_code(),
            self.cfg_vb1.spec_code(),
            self.cfg_vb2.spec_code(),
            self.cfg_vb3.spec_code(),
            self.cfg_vb4.spec_code(),
        ]
    }
}

impl Register for NegPwrFsr {
    open spec fn spec_addr() -> Address {
        Address::NegPwrFsr
    }

    open spec fn spec_size() -> nat {
        2
    }

    open spec fn wf(self) -> bool {
        true
    }

    open spec fn encode(self) -> Seq<u8> {
        bytes_of(digits_word(self.digits(), 2), 2)
    }

    open spec fn valid_codes(bytes: Seq<u8>) -> bool {
        let d = digits_of(word_of(bytes), 0, 2, 8);
        &&& VSenseFSR::spec_from_code(d[0]) is Some
        &&& VSenseFSR::spec_from_code(d[1]) is Some
        &&& VSenseFSR::spec_from_code(d[2]) is Some
        &&& VSenseFSR::spec_from_code(d[3]) is Some
        &&& VBusFSR::spec_from_code(d[4]) is Some
        &&& VBusFSR::spec_from_code(d[5]) is Some
        &&& VBusFSR::spec_from_code(d[6]) is Some
        &&& VBusFSR::spec_from_code(d[7]) is Some
    }

    open spec fn decode(bytes: Seq<u8>) -> NegPwrFsr {
        let d = digits_of(word_of(bytes), 0, 2, 8);
        NegPwrFsr {
            cfg_vs1: VSenseFSR::spec_from_code(d[0])->Some_0,
            cfg_vs2: VSenseFSR::spec_from_code(d[1])->Some_0,
            cfg_vs3: VSenseFSR::spec_from_code(d[2])->Some_0,
            cfg_vs4: VSenseFSR::spec_from_code(d[3])->Some_0,
            cfg_vb1: VBusFSR::spec_from_code(d[4])->Some_0,
            cfg_vb2: VBusFSR::spec_from_code(d[5])->Some_0,
            cfg_vb3: VBusFSR::spec_from_code(d[6])->Some_0,
            cfg_vb4: VBusFSR::spec_from_code(d[7])->Some_0,
        }
    }

    fn addr() -> Address {
        Address::NegPwrFsr
    }

    fn size() -> usize {
        2
    }

    fn pack(&self) -> Vec<u8> {
        let d = vec![
            self.cfg_vs1.code(),
            self.cfg_vs2.code(),
            self.cfg_vs3.code(),
            self.cfg_vs4.code(),
            self.cfg_vb1.code(),
            self.cfg_vb2.code(),
            self.cfg_vb3.code(),
            self.cfg_vb4.code(),
        ];
        assert(d@ =~= self.digits());
        proof {
            lemma_two_bit_codes(*self);
        }
        let r = pack_digits(&d, 2, 0, 2);
        assert(digits_word(d@, 2) << 0u64 == digits_word(d@, 2)) by {
            let x = digits_word(d@, 2);
            assert(x << 0u64 == x) by (bit_vector);
        }
        r
    }

    fn unpack(bytes: &[u8]) -> Result<NegPwrFsr, DecodingError> {
        let d = unpack_digits(bytes, 2, 0, 8);
        let cfg_vs1 = match VSenseFSR::from_code(d[0]) {
            Some(c) => c,
            None => return Err(DecodingError),
        };
        let cfg_vs2 = match VSenseFSR::from_code(d[1]) {
            Some(c) => c,
            None => return Err(DecodingError),
        };
        let cfg_vs3 = match VSenseFSR::from_code(d[2]) {
            Some(c) => c,
            None => return Err(DecodingError),
        };
        let cfg_vs4 = match VSenseFSR::from_code(d[3]) {
            Some(c) => c,
            None => return Err(DecodingError),
        };
        let cfg_vb1 = match VBusFSR::from_code(d[4]) {
            Some(c) => c,
            None => return Err(DecodingError),
        };
        let cfg_vb2 = match VBusFSR::from_code(d[5]) {
            Some(c) => c,
            None => return Err(DecodingError),
        };
        let cfg_vb3 = match VBusFSR::from_code(d[6]) {
            Some(c) => c,
            None => return Err(DecodingError),
        };
        let cfg_vb4 = match VBusFSR::from_code(d[7]) {
            Some(c) => c,
            None => return Err(DecodingError),
        };
        Ok(NegPwrFsr { cfg_vs1, cfg_vs2, cfg_vs3, cfg_vs4, cfg_vb1, cfg_vb2, cfg_vb3, cfg_vb4 })
    }
}

impl RoundTrip for NegPwrFsr {
    proof fn lemma_round_trip(v: NegPwrFsr) {
        lemma_two_bit_codes(v);
        let d = v.digits();
        let x = digits_word(d, 2);
        assert(x << 0u64 == x) by (bit_vector);
        lemma_digits_image(d, 2, 0, 2);
        v.cfg_vs1.lemma_code();
        v.cfg_vs2.lemma_code();
        v.cfg_vs3.lemma_code();
        v.cfg_vs4.lemma_code();
        v.cfg_vb1.lemma_code();
        v.cfg_vb2.lemma_code();
        v.cfg_vb3.lemma_code();
        v.cfg_vb4.lemma_code();
    }
}

proof fn lemma_two_bit_codes(v: NegPwrFsr)
    ensures
        digits_fit(v.digits(), 2),
{
    lemma_small_pows();
    v.cfg_vs1.lemma_code();
    v.cfg_vs2.lemma_code();
    v.cfg_vs3.lemma_code();
    v.cfg_vs4.lemma_code();
    v.cfg_vb1.lemma_code();
    v.cfg_vb2.lemma_code();
    v.cfg_vb3.lemma_code();
    v.cfg_vb4.lemma_code();
}

impl WritableRegister for NegPwrFsr {

}

/// This register contains an image of [`NegPwrFsr`]: the current active value of these
/// settings, whereas [`NegPwrFsr`] may be programmed but not activated by one of the
/// REFRESH commands. Valid 1 ms after a REFRESH/_V/_G command.
#[derive(Clone, Copy, Debug, PartialEq, Eq, Structural)]
pub struct NegPwrFsrAct {
    pub cfg_vs1: VSenseFSR,
    pub cfg_vs2: VSenseFSR,
    pub cfg_vs3: VSenseFSR,
    pub cfg_vs4: VSenseFSR,
    pub cfg_vb1: VBusFSR,
    pub cfg_vb2: VBusFSR,
    pub cfg_vb3: VBusFSR,
    pub cfg_vb4: VBusFSR,
}

impl NegPwrFsrAct {
    /// The same settings as a [`NegPwrFsr`] value.
    pub open spec fn as_pending(self) -> NegPwrFsr {
        NegPwrFsr { cfg_vs1: self.cfg_vs1, cfg_vs2: self.cfg_vs2, cfg_vs3: self.cfg_vs3, cfg_vs4: self.cfg_vs4, cfg_vb1: self.cfg_vb1, cfg_vb2: self.cfg_vb2, cfg_vb3: self.cfg_vb3, cfg_vb4: self.cfg_vb4 }
    }

    /// The image that holds the settings of `v`.
    pub open spec fn spec_from_pending(v: NegPwrFsr) -> NegPwrFsrAct {
        NegPwrFsrAct { cfg_vs1: v.cfg_vs1, cfg_vs2: v.cfg_vs2, cfg_vs3: v.cfg_vs3, cfg_vs4: v.cfg_vs4, cfg_vb1: v.cfg_vb1, cfg_vb2: v.cfg_vb2, cfg_vb3: v.cfg_vb3, cfg_vb4: v.cfg_vb4 }
    }

    pub fn to_pending(&self) -> (r: NegPwrFsr)
        ensures
            r == self.as_pending(),
    {
        NegPwrFsr { cfg_vs1: self.cfg_vs1, cfg_vs2: self.cfg_vs2, cfg_vs3: self.cfg_vs3, cfg_vs4: self.cfg_vs4, cfg_vb1: self.cfg_vb1, cfg_vb2: self.cfg_vb2, cfg_vb3: self.cfg_vb3, cfg_vb4: self.cfg_vb4 }
    }

    pub fn from_pending(v: NegPwrFsr) -> (r: NegPwrFsrAct)
        ensures
            r == NegPwrFsrAct::spec_from_pending(v),
    {
        NegPwrFsrAct { cfg_vs1: v.cfg_vs1, cfg_vs2: v.cfg_vs2, cfg_vs3: v.cfg_vs3, cfg_vs4: v.cfg_vs4, cfg_vb1: v.cfg_vb1, cfg_vb2: v.cfg_vb2, cfg_vb3: v.cfg_vb3, cfg_vb4: v.cfg_vb4 }
    }
}

impl Register for NegPwrFsrAct {
    open spec fn spec_addr() -> Address {
        Address::NegPwrFsrAct
    }

    open spec fn spec_size() -> nat {
        2
    }

    open spec fn wf(self) -> bool {
        true
    }

    open spec fn encode(self) -> Seq<u8> {
        self.as_pending().encode()
    }

    open spec fn valid_codes(bytes: Seq<u8>) -> bool {
        NegPwrFsr::valid_codes(bytes)
    }

    open spec fn decode(bytes: Seq<u8>) -> NegPwrFsrAct {
        NegPwrFsrAct::spec_from_pending(NegPwrFsr::decode(bytes))
    }

    fn addr() -> Address {
        Address::NegPwrFsrAct
    }

    fn size() -> usize {
        2
    }

    fn pack(&self) -> Vec<u8> {
        self.to_pending().pack()
    }

    fn unpack(bytes: &[u8]) -> Result<NegPwrFsrAct, DecodingError> {
        match NegPwrFsr::unpack(bytes) {
            Ok(v) => Ok(NegPwrFsrAct::from_pending(v)),
            Err(e) => Err(e),
        }
    }
}

impl RoundTrip for NegPwrFsrAct {
    proof fn lemma_round_trip(v: NegPwrFsrAct) {
        NegPwrFsr::lemma_round_trip(v.as_pending());
    }
}

impl WritableRegister for NegPwrFsrAct {

}

/// This register contains an image of [`NegPwrFsr`]: the settings that were active
/// before the most recent REFRESH command (including REFRESH_V and/or REFRESH_G).
/// Valid 1 ms after a REFRESH/_V/_G command.
#[derive(Clone, Copy, Debug, PartialEq, Eq, Structural)]
pub struct NegPwrFsrLat {
    pub cfg_vs1: VSenseFSR,
    pub cfg_vs2: VSenseFSR,
    pub cfg_vs3: VSenseFSR,
    pub cfg_vs4: VSenseFSR,
    pub cfg_vb1: VBusFSR,
    pub cfg_vb2: VBusFSR,
    pub cfg_vb3: VBusFSR,
    pub cfg_vb4: VBusFSR,
}

impl NegPwrFsrLat {
    /// The same settings as a [`NegPwrFsr`] value.
    pub open spec fn as_pending(self) -> NegPwrFsr {
        NegPwrFsr { cfg_vs1: self.cfg_vs1, cfg_vs2: self.cfg_vs2, cfg_vs3: self.cfg_vs3, cfg_vs4: self.cfg_vs4, cfg_vb1: self.cfg_vb1, cfg_vb2: self.cfg_vb2, cfg_vb3: self.cfg_vb3, cfg_vb4: self.cfg_vb4 }
    }

    /// The image that holds the settings of `v`.
    pub open spec fn spec_from_pending(v: NegPwrFsr) -> NegPwrFsrLat {
        NegPwrFsrLat { cfg_vs1: v.cfg_vs1, cfg_vs2: v.cfg_vs2, cfg_vs3: v.cfg_vs3, cfg_vs4: v.cfg_vs4, cfg_vb1: v.cfg_vb1, cfg_vb2: v.cfg_vb2, cfg_vb3: v.cfg_vb3, cfg_vb4: v.cfg_vb4 }
    }

    pub fn to_pending(&self) -> (r: NegPwrFsr)
        ensures
            r == self.as_pending(),
    {
        NegPwrFsr { cfg_vs1: self.cfg_vs1, cfg_vs2: self.cfg_vs2, cfg_vs3: self.cfg_vs3, cfg_vs4: self.cfg_vs4, cfg_vb1: self.cfg_vb1, cfg_vb2: self.cfg_vb2, cfg_vb3: self.cfg_vb3, cfg_vb4: self.cfg_vb4 }
    }

    pub fn from_pending(v: NegPwrFsr) -> (r: NegPwrFsrLat)
        ensures
            r == NegPwrFsrLat::spec_from_pending(v),
    {
        NegPwrFsrLat { cfg_vs1: v.cfg_vs1, cfg_vs2: v.cfg_vs2, cfg_vs3: v.cfg_vs3, cfg_vs4: v.cfg_vs4, cfg_vb1: v.cfg_vb1, cfg_vb2: v.cfg_vb2, cfg_vb3: v.cfg_vb3, cfg_vb4: v.cfg_vb4 }
    }
}

impl Register for NegPwrFsrLat {
    open spec fn spec_addr() -> Address {
        Address::NegPwrFsrLat
    }

    open spec fn spec_size() -> nat {
        2
    }

    open spec fn wf(self) -> bool {
        true
    }

    open spec fn encode(self) -> Seq<u8> {
        self.as_pending().encode()
    }

    open spec fn valid_codes(bytes: Seq<u8>) -> bool {
        NegPwrFsr::valid_codes(bytes)
    }

    open spec fn decode(bytes: Seq<u8>) -> NegPwrFsrLat {
        NegPwrFsrLat::spec_from_pending(NegPwrFsr::decode(bytes))
    }

    fn addr() -> Address {
        Address::NegPwrFsrLat
    }

    fn size() -> usize {
        2
    }

    fn pack(&self) -> Vec<u8> {
        self.to_pending().pack()
    }

    fn unpack(bytes: &[u8]) -> Result<NegPwrFsrLat, DecodingError> {
        match NegPwrFsr::unpack(bytes) {
            Ok(v) => Ok(NegPwrFsrLat::from_pending(v)),
            Err(e) => Err(e),
        }
    }
}

impl RoundTrip for NegPwrFsrLat {
    proof fn lemma_round_trip(v: NegPwrFsrLat) {
        NegPwrFsr::lemma_round_trip(v.as_pending());
    }
}

impl WritableRegister for NegPwrFsrLat {

}

/// Configures what each channel's accumulator sums: V POWER (the default, for energy),
/// V SENSE (Coulomb counting) or V BUS. The pending image, activated by the next refresh;
/// two bits per channel, channel 1 in bits 7:6.
#[derive(Clone, Copy, Debug, PartialEq, Eq, Structural)]
pub struct AccumConfig {
    pub acc1_config: AccumSetting,
    pub acc2_config: AccumSetting,
    pub acc3_config: AccumSetting,
    pub acc4_config: AccumSetting,
}

impl AccumConfig {
    /// The 4 two-bit codes, most significant first.
    pub open spec fn digits(self) -> Seq<u64> {
        seq![
            self.acc1_config.spec_code(),
            self.acc2_config.spec_code(),
            self.acc3_config.spec_code(),
            self.acc4_config.spec_code(),
        ]
    }

    proof fn lemma_digits_fit(v: AccumConfig)
        ensures
            digits_fit(v.digits(), 2),
    {
        lemma_small_pows();
        v.acc1_config.lemma_code();
        v.acc2_config.lemma_code();
        v.acc3_config.lemma_code();
        v.acc4_config.lemma_code();
    }
}

impl Register for AccumConfig {
    open spec fn spec_addr() -> Address {
        Address::AccumConfig
    }

    open spec fn spec_size() -> nat {
        1
    }

    open spec fn wf(self) -> bool {
        true
    }

    open spec fn encode(self) -> Seq<u8> {
        bytes_of(digits_word(self.digits(), 2) << 0u64, 1)
    }

    open spec fn valid_codes(bytes: Seq<u8>) -> bool {
        let d = digits_of(word_of(bytes), 0, 2, 4);
        &&& AccumSetting::spec_from_code(d[0]) is Some
        &&& AccumSetting::spec_from_code(d[1]) is Some
        &&& AccumSetting::spec_from_code(d[2]) is Some
        &&& AccumSetting::spec_from_code(d[3]) is Some
    }

    open spec fn decode(bytes: Seq<u8>) -> AccumConfig {
        let d = digits_of(word_of(bytes), 0, 2, 4);
        AccumConfig {
            acc1_config: AccumSetting::spec_from_code(d[0])->Some_0,
            acc2_config: AccumSetting::spec_from_code(d[1])->Some_0,
            acc3_config: AccumSetting::spec_from_code(d[2])->Some_0,
            acc4_config: AccumSetting::spec_from_code(d[3])->Some_0,
        }
    }

    fn addr() -> Address {
        Address::AccumConfig
    }

    fn size() -> usize {
        1
    }

    fn pack(&self) -> Vec<u8> {
        let d = vec![
            self.acc1_config.code(),
            self.acc2_config.code(),
            self.acc3_config.code(),
            self.acc4_config.code(),
        ];
        assert(d@ =~= self.digits());
        proof {
            AccumConfig::lemma_digits_fit(*self);
        }
        pack_digits(&d, 2, 0, 1)
    }

    fn unpack(bytes: &[u8]) -> Result<AccumConfig, DecodingError> {
        let d = unpack_digits(bytes, 2, 0, 4);
        let acc1_config = match AccumSetting::from_code(d[0]) {
            Some(c) => c,
            None => return Err(DecodingError),
        };
        let acc2_config = match AccumSetting::from_code(d[1]) {
            Some(c) => c,
            None => return Err(DecodingError),
        };
        let acc3_config = match AccumSetting::from_code(d[2]) {
            Some(c) => c,
            None => return Err(DecodingError),
        };
        let acc4_config = match AccumSetting::from_code(d[3]) {
            Some(c) => c,
            None => return Err(DecodingError),
        };
        Ok(AccumConfig { acc1_config, acc2_config, acc3_config, acc4_config })
    }
}

impl RoundTrip for AccumConfig {
    proof fn lemma_round_trip(v: AccumConfig) {
        AccumConfig::lemma_digits_fit(v);
        lemma_digits_image(v.digits(), 2, 0, 1);
        v.acc1_config.lemma_code();
        v.acc2_config.lemma_code();
        v.acc3_config.lemma_code();
        v.acc4_config.lemma_code();
    }
}

impl WritableRegister for AccumConfig {

}

/// This register contains an image of [`AccumConfig`] and reflects the current active
/// values of these settings.
#[derive(Clone, Copy, Debug, PartialEq, Eq, Structural)]
pub struct AccumConfigAct {
    pub acc1_config: AccumSetting,
    pub acc2_config: AccumSetting,
    pub acc3_config: AccumSetting,
    pub acc4_config: AccumSetting,
}

impl AccumConfigAct {
    /// The same settings as a [`AccumConfig`] value.
    pub open spec fn as_pending(self) -> AccumConfig {
        AccumConfig { acc1_config: self.acc1_config, acc2_config: self.acc2_config, acc3_config: self.acc3_config, acc4_config: self.acc4_config }
    }

    /// The image that holds the settings of `v`.
    pub open spec fn spec_from_pending(v: AccumConfig) -> AccumConfigAct {
        AccumConfigAct { acc1_config: v.acc1_config, acc2_config: v.acc2_config, acc3_config: v.acc3_config, acc4_config: v.acc4_config }
    }

    pub fn to_pending(&self) -> (r: AccumConfig)
        ensures
            r == self.as_pending(),
    {
        AccumConfig { acc1_config: self.acc1_config, acc2_config: self.acc2_config, acc3_config: self.acc3_config, acc4_config: self.acc4_config }
    }

    pub fn from_pending(v: AccumConfig) -> (r: AccumConfigAct)
        ensures
            r == AccumConfigAct::spec_from_pending(v),
    {
        AccumConfigAct { acc1_config: v.acc1_config, acc2_config: v.acc2_config, acc3_config: v.acc3_config, acc4_config: v.acc4_config }
    }
}

impl Register for AccumConfigAct {
    open spec fn spec_addr() -> Address {
        Address::AccumConfigAct
    }

    open spec fn spec_size() -> nat {
        1
    }

    open spec fn wf(self) -> bool {
        true
    }

    open spec fn encode(self) -> Seq<u8> {
        self.as_pending().encode()
    }

    open spec fn valid_codes(bytes: Seq<u8>) -> bool {
        AccumConfig::valid_codes(bytes)
    }

    open spec fn decode(bytes: Seq<u8>) -> AccumConfigAct {
        AccumConfigAct::spec_from_pending(AccumConfig::decode(bytes))
    }

    fn addr() -> Address {
        Address::AccumConfigAct
    }

    fn size() -> usize {
        1
    }

    fn pack(&self) -> Vec<u8> {
        self.to_pending().pack()
    }

    fn unpack(bytes: &[u8]) -> Result<AccumConfigAct, DecodingError> {
        match AccumConfig::unpack(bytes) {
            Ok(v) => Ok(AccumConfigAct::from_pending(v)),
            Err(e) => Err(e),
        }
    }
}

impl RoundTrip for AccumConfigAct {
    proof fn lemma_round_trip(v: AccumConfigAct) {
        AccumConfig::lemma_round_trip(v.as_pending());
    }
}

impl WritableRegister for AccumConfigAct {

}

/// This register contains an image of [`AccumConfig`]: the settings that were active
/// before the most recent REFRESH command, which correspond to the dataset held in the
/// readable registers. Valid 1 ms after a REFRESH/_V/_G command.
#[derive(Clone, Copy, Debug, PartialEq, Eq, Structural)]
pub struct AccumConfigLat {
    pub acc1_config: AccumSetting,
    pub acc2_config: AccumSetting,
    pub acc3_config: AccumSetting,
    pub acc4_config: AccumSetting,
}

impl AccumConfigLat {
    /// The same settings as a [`AccumConfig`] value.
    pub open spec fn as_pending(self) -> AccumConfig {
        AccumConfig { acc1_config: self.acc1_config, acc2_config: self.acc2_config, acc3_config: self.acc3_config, acc4_config: self.acc4_config }
    }

    /// The image that holds the settings of `v`.
    pub open spec fn spec_from_pending(v: AccumConfig) -> AccumConfigLat {
        AccumConfigLat { acc1_config: v.acc1_config, acc2_config: v.acc2_config, acc3_config: v.acc3_config, acc4_config: v.acc4_config }
    }

    pub fn to_pending(&self) -> (r: AccumConfig)
        ensures
            r == self.as_pending(),
    {
        AccumConfig { acc1_config: self.acc1_config, acc2_config: self.acc2_config, acc3_config: self.acc3_config, acc4_config: self.acc4_config }
    }

    pub fn from_pending(v: AccumConfig) -> (r: AccumConfigLat)
        ensures
            r == AccumConfigLat::spec_from_pending(v),
    {
        AccumConfigLat { acc1_config: v.acc1_config, acc2_config: v.acc2_config, acc3_config: v.acc3_config, acc4_config: v.acc4_config }
    }
}

impl Register for AccumConfigLat {
    open spec fn spec_addr() -> Address {
        Address::AccumConfigLat
    }

    open spec fn spec_size() -> nat {
        1
    }

    open spec fn wf(self) -> bool {
        true
    }

    open spec fn encode(self) -> Seq<u8> {
        self.as_pending().encode()
    }

    open spec fn valid_codes(bytes: Seq<u8>) -> bool {
        AccumConfig::valid_codes(bytes)
    }

    open spec fn decode(bytes: Seq<u8>) -> AccumConfigLat {
        AccumConfigLat::spec_from_pending(AccumConfig::decode(bytes))
    }

    fn addr() -> Address {
        Address::AccumConfigLat
    }

    fn size() -> usize {
        1
    }

    fn pack(&self) -> Vec<u8> {
        self.to_pending().pack()
    }

    fn unpack(bytes: &[u8]) -> Result<AccumConfigLat, DecodingError> {
        match AccumConfig::unpack(bytes) {
            Ok(v) => Ok(AccumConfigLat::from_pending(v)),
            Err(e) => Err(e),
        }
    }
}

impl RoundTrip for AccumConfigLat {
    proof fn lemma_round_trip(v: AccumConfigLat) {
        AccumConfig::lemma_round_trip(v.as_pending());
    }
}

impl WritableRegister for AccumConfigLat {

}

/// Bits in this register may be written or read at any time and are active immediately.
/// Refresh is not required to activate them or update them. Bit 7 first.
#[derive(Clone, Copy, Debug, PartialEq, Eq, Structural)]
pub struct SmbusSettings {
    /// R/W data for the pin GPIO/ALERT2 if the pin is configured as a GPIO pin.
    pub gpio_data2: bool,
    /// R/W data for the pin SLOW/ALERT1 if the pin is configured as a GPIO pin.
    pub gpio_data1: bool,
    /// Set by any of the active ALERT functions being triggered, except ALERT_CC.
    pub any_alert: bool,
    /// Set at power-on reset; the host may clear it to detect a later reset.
    pub por: bool,
    /// SMBus time-out enable.
    pub timeout: bool,
    /// Include the Byte Count in the response to a Block Read command.
    pub byte_count: bool,
    /// Do not skip the addresses of inactive channels when auto-incrementing.
    pub no_skip: bool,
    /// Enables 3.4 MHz I2C operation.
    pub i2c_hispeed: bool,
}

impl SmbusSettings {
    /// The 8 flags as one-bit digits, most significant first.
    pub open spec fn digits(self) -> Seq<u64> {
        seq![
            bit(self.gpio_data2),
            bit(self.gpio_data1),
            bit(self.any_alert),
            bit(self.por),
            bit(self.timeout),
            bit(self.byte_count),
            bit(self.no_skip),
            bit(self.i2c_hispeed),
        ]
    }

    proof fn lemma_digits_fit(v: SmbusSettings)
        ensures
            digits_fit(v.digits(), 1),
    {
        lemma_small_pows();
    }
}

impl Register for SmbusSettings {
    open spec fn spec_addr() -> Address {
        Address::SmbusSettings
    }

    open spec fn spec_size() -> nat {
        1
    }

    open spec fn wf(self) -> bool {
        true
    }

    open spec fn encode(self) -> Seq<u8> {
        bytes_of(digits_word(self.digits(), 1) << 0u64, 1)
    }

    open spec fn valid_codes(bytes: Seq<u8>) -> bool {
        true
    }

    open spec fn decode(bytes: Seq<u8>) -> SmbusSettings {
        let d = digits_of(word_of(bytes), 0, 1, 8);
        SmbusSettings {
            gpio_data2: d[0] == 1,
            gpio_data1: d[1] == 1,
            any_alert: d[2] == 1,
            por: d[3] == 1,
            timeout: d[4] == 1,
            byte_count: d[5] == 1,
            no_skip: d[6] == 1,
            i2c_hispeed: d[7] == 1,
        }
    }

    fn addr() -> Address {
        Address::SmbusSettings
    }

    fn size() -> usize {
        1
    }

    fn pack(&self) -> Vec<u8> {
        let d = vec![
            flag_bit(self.gpio_data2),
            flag_bit(self.gpio_data1),
            flag_bit(self.any_alert),
            flag_bit(self.por),
            flag_bit(self.timeout),
            flag_bit(self.byte_count),
            flag_bit(self.no_skip),
            flag_bit(self.i2c_hispeed),
        ];
        assert(d@ =~= self.digits());
        proof {
            SmbusSettings::lemma_digits_fit(*self);
        }
        pack_digits(&d, 1, 0, 1)
    }

    fn unpack(bytes: &[u8]) -> Result<SmbusSettings, DecodingError> {
        let d = unpack_digits(bytes, 1, 0, 8);
        Ok(SmbusSettings {
            gpio_data2: d[0] == 1,
            gpio_data1: d[1] == 1,
            any_alert: d[2] == 1,
            por: d[3] == 1,
            timeout: d[4] == 1,
            byte_count: d[5] == 1,
            no_skip: d[6] == 1,
            i2c_hispeed: d[7] == 1,
        })
    }
}

impl RoundTrip for SmbusSettings {
    proof fn lemma_round_trip(v: SmbusSettings) {
        SmbusSettings::lemma_digits_fit(v);
        lemma_digits_image(v.digits(), 1, 0, 1);
    }
}

impl WritableRegister for SmbusSettings {

}

/// Tracks the state of the SLOW pin and its transitions, and selects the limited REFRESH
/// or REFRESH_V that a transition triggers. Bit 7 first; bit 0 is unused.
#[derive(Clone, Copy, Debug, PartialEq, Eq, Structural)]
pub struct Slow {
    /// The current state of the SLOW pin.
    pub slow: bool,
    /// The SLOW pin has gone low to high since the last REFRESH command.
    pub slow_lh: bool,
    /// The SLOW pin has gone high to low since the last REFRESH command.
    pub slow_hl: bool,
    /// A limited REFRESH takes place on the rising edge of the SLOW pin.
    pub r_rise: bool,
    /// A limited REFRESH_V takes place on the rising edge of the SLOW pin.
    pub r_v_rise: bool,
    /// A limited REFRESH takes place on the falling edge of the SLOW pin.
    pub r_fall: bool,
    /// A limited REFRESH_V takes place on the falling edge of the SLOW pin.
    pub r_v_fall: bool,
}

impl Slow {
    /// The 7 flags as one-bit digits, most significant first.
    pub open spec fn digits(self) -> Seq<u64> {
        seq![
            bit(self.slow),
            bit(self.slow_lh),
            bit(self.slow_hl),
            bit(self.r_rise),
            bit(self.r_v_rise),
            bit(self.r_fall),
            bit(self.r_v_fall),
        ]
    }

    proof fn lemma_digits_fit(v: Slow)
        ensures
            digits_fit(v.digits(), 1),
    {
        lemma_small_pows();
    }
}

impl Register for Slow {
    open spec fn spec_addr() -> Address {
        Address::Slow
    }

    open spec fn spec_size() -> nat {
        1
    }

    open spec fn wf(self) -> bool {
        true
    }

    open spec fn encode(self) -> Seq<u8> {
        bytes_of(digits_word(self.digits(), 1) << 1u64, 1)
    }

    open spec fn valid_codes(bytes: Seq<u8>) -> bool {
        true
    }

    open spec fn decode(bytes: Seq<u8>) -> Slow {
        let d = digits_of(word_of(bytes), 1, 1, 7);
        Slow {
            slow: d[0] == 1,
            slow_lh: d[1] == 1,
            slow_hl: d[2] == 1,
            r_rise: d[3] == 1,
            r_v_rise: d[4] == 1,
            r_fall: d[5] == 1,
            r_v_fall: d[6] == 1,
        }
    }

    fn addr() -> Address {
        Address::Slow
    }

    fn size() -> usize {
        1
    }

    fn pack(&self) -> Vec<u8> {
        let d = vec![
            flag_bit(self.slow),
            flag_bit(self.slow_lh),
            flag_bit(self.slow_hl),
            flag_bit(self.r_rise),
            flag_bit(self.r_v_rise),
            flag_bit(self.r_fall),
            flag_bit(self.r_v_fall),
        ];
        assert(d@ =~= self.digits());
        proof {
            Slow::lemma_digits_fit(*self);
        }
        pack_digits(&d, 1, 1, 1)
    }

    fn unpack(bytes: &[u8]) -> Result<Slow, DecodingError> {
        let d = unpack_digits(bytes, 1, 1, 7);
        Ok(Slow {
            slow: d[0] == 1,
            slow_lh: d[1] == 1,
            slow_hl: d[2] == 1,
            r_rise: d[3] == 1,
            r_v_rise: d[4] == 1,
            r_fall: d[5] == 1,
            r_v_fall: d[6] == 1,
        })
    }
}

impl RoundTrip for Slow {
    proof fn lemma_round_trip(v: Slow) {
        Slow::lemma_digits_fit(v);
        lemma_digits_image(v.digits(), 1, 1, 1);
    }
}

} // verus!
