//! Alert limits: the per-channel over/under current, power and voltage limits, the
//! number of consecutive samples that trip each, and the accumulator fullness limits.

use vstd::prelude::*;
use crate::bits::{
    lemma_small_pows,
    bytes_of, digits_fit, digits_of, digits_word, field, from_be_bytes, get_field,
    lemma_digits_image, lemma_word_of_bytes_of, pack_digits, to_be_bytes, unpack_digits, word_of,
};
use crate::error::DecodingError;
use crate::fields::{AccFullness, SampleCount};
use crate::register::{Address, RoundTrip, ChannelRegister, Register, WritableRegister};

verus! {

/// The 16-bit two's complement number whose bits are the low 16 bits of `r`.
pub open spec fn spec_sign_extend_16(r: u64) -> i16 {
    if r >= 0x8000 {
        (r - 0x1_0000) as i16
    } else {
        r as i16
    }
}

/// The 24-bit two's complement number whose bits are `r`, widened to 32 bits.
pub open spec fn spec_sign_extend_24(r: u64) -> i32 {
    if r >= 0x80_0000 {
        (r - 0x100_0000) as i32
    } else {
        r as i32
    }
}

fn sign_extend_16(r: u64) -> (v: i16)
    requires
        r < 0x1_0000,
    ensures
        v == spec_sign_extend_16(r),
{
    if r >= 0x8000 {
        (r as i64 - 0x1_0000) as i16
    } else {
        r as i16
    }
}

fn sign_extend_24(r: u64) -> (v: i32)
    requires
        r < 0x100_0000,
    ensures
        v == spec_sign_extend_24(r),
{
    if r >= 0x80_0000 {
        (r as i64 - 0x100_0000) as i32
    } else {
        r as i32
    }
}

/// Overcurrent (OC) limit for each channel: a 16-bit two's complement number for all modes.
/// Disable ALERTs in [`crate::alerts::AlertEnable`] before changing the value to avoid
/// false triggers.
#[derive(Clone, Copy, Debug, PartialEq, Eq, Structural)]
pub struct OcLimitn {
    pub limit: i16,
}

impl Register for OcLimitn {
    open spec fn spec_addr() -> Address {
        Address::OcLimitn
    }

    open spec fn spec_size() -> nat {
        2
    }

    open spec fn wf(self) -> bool {
        true
    }

    open spec fn encode(self) -> Seq<u8> {
        bytes_of((self.limit as u16) as u64, 2)
    }

    open spec fn valid_codes(bytes: Seq<u8>) -> bool {
        true
    }

    open spec fn decode(bytes: Seq<u8>) -> OcLimitn {
        OcLimitn { limit: spec_sign_extend_16(field(word_of(bytes), 0, 16)) }
    }

    fn addr() -> Address {
        Address::OcLimitn
    }

    fn size() -> usize {
        2
    }

    fn pack(&self) -> Vec<u8> {
        to_be_bytes((self.limit as u16) as u64, 2)
    }

    fn unpack(bytes: &[u8]) -> Result<OcLimitn, DecodingError> {
        let w = from_be_bytes(bytes);
        let r = get_field(w, 0, 16);
        proof {
            lemma_small_pows();
        }
        Ok(OcLimitn { limit: sign_extend_16(r) })
    }
}

impl RoundTrip for OcLimitn {
    proof fn lemma_round_trip(v: OcLimitn) {
        let l = v.limit;
        let r = (v.limit as u16) as u64;
        assert(field(r, 0, 16) == r && r < (1u64 << 16u64) && spec_sign_extend_16(r) == l) by (bit_vector)
            requires
                r == (l as u16) as u64,
        ;
        lemma_word_of_bytes_of(r, 2);
    }
}

impl WritableRegister for OcLimitn {

}

impl ChannelRegister for OcLimitn {
    proof fn lemma_family_fits() {
    }
}

/// Undercurrent (UC) limit for each channel: a 16-bit two's complement number for all modes.
/// Disable ALERTs in [`crate::alerts::AlertEnable`] before changing the value to avoid
/// false triggers.
#[derive(Clone, Copy, Debug, PartialEq, Eq, Structural)]
pub struct UcLimitn {
    pub limit: i16,
}

impl Register for UcLimitn {
    open spec fn spec_addr() -> Address {
        Address::UcLimitn
    }

    open spec fn spec_size() -> nat {
        2
    }

    open spec fn wf(self) -> bool {
        true
    }

    open spec fn encode(self) -> Seq<u8> {
        bytes_of((self.limit as u16) as u64, 2)
    }

    open spec fn valid_codes(bytes: Seq<u8>) -> bool {
        true
    }

    open spec fn decode(bytes: Seq<u8>) -> UcLimitn {
        UcLimitn { limit: spec_sign_extend_16(field(word_of(bytes), 0, 16)) }
    }

    fn addr() -> Address {
        Address::UcLimitn
    }

    fn size() -> usize {
        2
    }

    fn pack(&self) -> Vec<u8> {
        to_be_bytes((self.limit as u16) as u64, 2)
    }

    fn unpack(bytes: &[u8]) -> Result<UcLimitn, DecodingError> {
        let w = from_be_bytes(bytes);
        let r = get_field(w, 0, 16);
        proof {
            lemma_small_pows();
        }
        Ok(UcLimitn { limit: sign_extend_16(r) })
    }
}

impl RoundTrip for UcLimitn {
    proof fn lemma_round_trip(v: UcLimitn) {
        let l = v.limit;
        let r = (v.limit as u16) as u64;
        assert(field(r, 0, 16) == r && r < (1u64 << 16u64) && spec_sign_extend_16(r) == l) by (bit_vector)
            requires
                r == (l as u16) as u64,
        ;
        lemma_word_of_bytes_of(r, 2);
    }
}

impl WritableRegister for UcLimitn {

}

impl ChannelRegister for UcLimitn {
    proof fn lemma_family_fits() {
    }
}

/// Overvoltage (OV) limit for each channel: a 16-bit two's complement number for all modes.
/// Disable ALERTs in [`crate::alerts::AlertEnable`] before changing the value to avoid
/// false triggers.
#[derive(Clone, Copy, Debug, PartialEq, Eq, Structural)]
pub struct OvLimitn {
    pub limit: i16,
}

impl Register for OvLimitn {
    open spec fn spec_addr() -> Address {
        Address::OvLimitn
    }

    open spec fn spec_size() -> nat {
        2
    }

    open spec fn wf(self) -> bool {
        true
    }

    open spec fn encode(self) -> Seq<u8> {
        bytes_of((self.limit as u16) as u64, 2)
    }

    open spec fn valid_codes(bytes: Seq<u8>) -> bool {
        true
    }

    open spec fn decode(bytes: Seq<u8>) -> OvLimitn {
        OvLimitn { limit: spec_sign_extend_16(field(word_of(bytes), 0, 16)) }
    }

    fn addr() -> Address {
        Address::OvLimitn
    }

    fn size() -> usize {
        2
    }

    fn pack(&self) -> Vec<u8> {
        to_be_bytes((self.limit as u16) as u64, 2)
    }

    fn unpack(bytes: &[u8]) -> Result<OvLimitn, DecodingError> {
        let w = from_be_bytes(bytes);
        let r = get_field(w, 0, 16);
        proof {
            lemma_small_pows();
        }
        Ok(OvLimitn { limit: sign_extend_16(r) })
    }
}

impl RoundTrip for OvLimitn {
    proof fn lemma_round_trip(v: OvLimitn) {
        let l = v.limit;
        let r = (v.limit as u16) as u64;
        assert(field(r, 0, 16) == r && r < (1u64 << 16u64) && spec_sign_extend_16(r) == l) by (bit_vector)
            requires
                r == (l as u16) as u64,
        ;
        lemma_word_of_bytes_of(r, 2);
    }
}

impl WritableRegister for OvLimitn {

}

impl ChannelRegister for OvLimitn {
    proof fn lemma_family_fits() {
    }
}

/// Undervoltage (UV) limit for each channel: a 16-bit two's complement number for all modes.
/// Disable ALERTs in [`crate::alerts::AlertEnable`] before changing the value to avoid
/// false triggers.
#[derive(Clone, Copy, Debug, PartialEq, Eq, Structural)]
pub struct UvLimitn {
    pub limit: i16,
}

impl Register for UvLimitn {
    open spec fn spec_addr() -> Address {
        Address::UvLimitn
    }

    open spec fn spec_size() -> nat {
        2
    }

    open spec fn wf(self) -> bool {
        true
    }

    open spec fn encode(self) -> Seq<u8> {
        bytes_of((self.limit as u16) as u64, 2)
    }

    open spec fn valid_codes(bytes: Seq<u8>) -> bool {
        true
    }

    open spec fn decode(bytes: Seq<u8>) -> UvLimitn {
        UvLimitn { limit: spec_sign_extend_16(field(word_of(bytes), 0, 16)) }
    }

    fn addr() -> Address {
        Address::UvLimitn
    }

    fn size() -> usize {
        2
    }

    fn pack(&self) -> Vec<u8> {
        to_be_bytes((self.limit as u16) as u64, 2)
    }

    fn unpack(bytes: &[u8]) -> Result<UvLimitn, DecodingError> {
        let w = from_be_bytes(bytes);
        let r = get_field(w, 0, 16);
        proof {
            lemma_small_pows();
        }
        Ok(UvLimitn { limit: sign_extend_16(r) })
    }
}

impl RoundTrip for UvLimitn {
    proof fn lemma_round_trip(v: UvLimitn) {
        let l = v.limit;
        let r = (v.limit as u16) as u64;
        assert(field(r, 0, 16) == r && r < (1u64 << 16u64) && spec_sign_extend_16(r) == l) by (bit_vector)
            requires
                r == (l as u16) as u64,
        ;
        lemma_word_of_bytes_of(r, 2);
    }
}

impl WritableRegister for UvLimitn {

}

impl ChannelRegister for UvLimitn {
    proof fn lemma_family_fits() {
    }
}

/// Overpower (OP) limit for each channel: a 24-bit two's complement number for all modes,
/// the upper 24 MSBs of the VPOWER number. The OP limit is magnitude based. Packing keeps
/// the low 24 bits of `limit`.
#[derive(Clone, Copy, Debug, PartialEq, Eq, Structural)]
pub struct OpLimitn {
    pub limit: i32,
}

impl Register for OpLimitn {
    open spec fn spec_addr() -> Address {
        Address::OpLimitn
    }

    open spec fn spec_size() -> nat {
        3
    }

    open spec fn wf(self) -> bool {
        -0x80_0000 <= self.limit < 0x80_0000
    }

    open spec fn encode(self) -> Seq<u8> {
        bytes_of(((self.limit as u32) as u64) & 0xff_ffff, 3)
    }

    open spec fn valid_codes(bytes: Seq<u8>) -> bool {
        true
    }

    open spec fn decode(bytes: Seq<u8>) -> OpLimitn {
        OpLimitn { limit: spec_sign_extend_24(field(word_of(bytes), 0, 24)) }
    }

    fn addr() -> Address {
        Address::OpLimitn
    }

    fn size() -> usize {
        3
    }

    fn pack(&self) -> Vec<u8> {
        to_be_bytes(((self.limit as u32) as u64) & 0xff_ffff, 3)
    }

    fn unpack(bytes: &[u8]) -> Result<OpLimitn, DecodingError> {
        let w = from_be_bytes(bytes);
        let r = get_field(w, 0, 24);
        proof {
            lemma_small_pows();
        }
        Ok(OpLimitn { limit: sign_extend_24(r) })
    }
}

impl RoundTrip for OpLimitn {
    proof fn lemma_round_trip(v: OpLimitn) {
        let l = v.limit;
        let r = ((v.limit as u32) as u64) & 0xff_ffff;
        assert(field(r, 0, 24) == r && r < (1u64 << 24u64) && spec_sign_extend_24(r) == l) by (bit_vector)
            requires
                -0x80_0000 <= l < 0x80_0000,
                r == ((l as u32) as u64) & 0xff_ffff,
        ;
        lemma_word_of_bytes_of(r, 3);
    }
}

impl WritableRegister for OpLimitn {

}

impl ChannelRegister for OpLimitn {
    proof fn lemma_family_fits() {
    }
}

/// Number of consecutive samples exceeding the overcurrent limit that are required to trigger
/// the ALERT function for each channel; two bits per channel, channel 1 in bits 7:6.
#[derive(Clone, Copy, Debug, PartialEq, Eq, Structural)]
pub struct OcLimitNSamples {
    pub n_samples_ch1: SampleCount,
    pub n_samples_ch2: SampleCount,
    pub n_samples_ch3: SampleCount,
    pub n_samples_ch4: SampleCount,
}

impl OcLimitNSamples {
    /// The 4 two-bit codes, most significant first.
    pub open spec fn digits(self) -> Seq<u64> {
        seq![
            self.n_samples_ch1.spec_code(),
            self.n_samples_ch2.spec_code(),
            self.n_samples_ch3.spec_code(),
            self.n_samples_ch4.spec_code(),
        ]
    }

    proof fn lemma_digits_fit(v: OcLimitNSamples)
        ensures
            digits_fit(v.digits(), 2),
    {
        lemma_small_pows();
        v.n_samples_ch1.lemma_code();
        v.n_samples_ch2.lemma_code();
        v.n_samples_ch3.lemma_code();
        v.n_samples_ch4.lemma_code();
    }
}

impl Register for OcLimitNSamples {
    open spec fn spec_addr() -> Address {
        Address::OcLimitNSamples
    }

    open spec fn spec_size() -> nat {
        1
    }

    open spec fn wf(self) -> bool {
        true
    }

    open spec fn encode(self) -> Seq<u8> {
        bytes_of(digits_word(self.digits(), 2) << 0u64, 1)
    }

    open spec fn valid_codes(bytes: Seq<u8>) -> bool {
        let d = digits_of(word_of(bytes), 0, 2, 4);
        &&& SampleCount::spec_from_code(d[0]) is Some
        &&& SampleCount::spec_from_code(d[1]) is Some
        &&& SampleCount::spec_from_code(d[2]) is Some
        &&& SampleCount::spec_from_code(d[3]) is Some
    }

    open spec fn decode(bytes: Seq<u8>) -> OcLimitNSamples {
        let d = digits_of(word_of(bytes), 0, 2, 4);
        OcLimitNSamples {
            n_samples_ch1: SampleCount::spec_from_code(d[0])->Some_0,
            n_samples_ch2: SampleCount::spec_from_code(d[1])->Some_0,
            n_samples_ch3: SampleCount::spec_from_code(d[2])->Some_0,
            n_samples_ch4: SampleCount::spec_from_code(d[3])->Some_0,
        }
    }

    fn addr() -> Address {
        Address::OcLimitNSamples
    }

    fn size() -> usize {
        1
    }

    fn pack(&self) -> Vec<u8> {
        let d = vec![
            self.n_samples_ch1.code(),
            self.n_samples_ch2.code(),
            self.n_samples_ch3.code(),
            self.n_samples_ch4.code(),
        ];
        assert(d@ =~= self.digits());
        proof {
            OcLimitNSamples::lemma_digits_fit(*self);
        }
        pack_digits(&d, 2, 0, 1)
    }

    fn unpack(bytes: &[u8]) -> Result<OcLimitNSamples, DecodingError> {
        let d = unpack_digits(bytes, 2, 0, 4);
        let n_samples_ch1 = match SampleCount::from_code(d[0]) {
            Some(c) => c,
            None => return Err(DecodingError),
        };
        let n_samples_ch2 = match SampleCount::from_code(d[1]) {
            Some(c) => c,
            None => return Err(DecodingError),
        };
        let n_samples_ch3 = match SampleCount::from_code(d[2]) {
            Some(c) => c,
            None => return Err(DecodingError),
        };
        let n_samples_ch4 = match SampleCount::from_code(d[3]) {
            Some(c) => c,
            None => return Err(DecodingError),
        };
        Ok(OcLimitNSamples { n_samples_ch1, n_samples_ch2, n_samples_ch3, n_samples_ch4 })
    }
}

impl RoundTrip for OcLimitNSamples {
    proof fn lemma_round_trip(v: OcLimitNSamples) {
        OcLimitNSamples::lemma_digits_fit(v);
        lemma_digits_image(v.digits(), 2, 0, 1);
        v.n_samples_ch1.lemma_code();
        v.n_samples_ch2.lemma_code();
        v.n_samples_ch3.lemma_code();
        v.n_samples_ch4.lemma_code();
    }
}

impl WritableRegister for OcLimitNSamples {

}

/// Number of consecutive samples exceeding the undercurrent limit that are required to trigger
/// the ALERT function for each channel; two bits per channel, channel 1 in bits 7:6.
#[derive(Clone, Copy, Debug, PartialEq, Eq, Structural)]
pub struct UcLimitNSamples {
    pub n_samples_ch1: SampleCount,
    pub n_samples_ch2: SampleCount,
    pub n_samples_ch3: SampleCount,
    pub n_samples_ch4: SampleCount,
}

impl UcLimitNSamples {
    /// The 4 two-bit codes, most significant first.
    pub open spec fn digits(self) -> Seq<u64> {
        seq![
            self.n_samples_ch1.spec_code(),
            self.n_samples_ch2.spec_code(),
            self.n_samples_ch3.spec_code(),
            self.n_samples_ch4.spec_code(),
        ]
    }

    proof fn lemma_digits_fit(v: UcLimitNSamples)
        ensures
            digits_fit(v.digits(), 2),
    {
        lemma_small_pows();
        v.n_samples_ch1.lemma_code();
        v.n_samples_ch2.lemma_code();
        v.n_samples_ch3.lemma_code();
        v.n_samples_ch4.lemma_code();
    }
}

impl Register for UcLimitNSamples {
    open spec fn spec_addr() -> Address {
        Address::UcLimitNSamples
    }

    open spec fn spec_size() -> nat {
        1
    }

    open spec fn wf(self) -> bool {
        true
    }

    open spec fn encode(self) -> Seq<u8> {
        bytes_of(digits_word(self.digits(), 2) << 0u64, 1)
    }

    open spec fn valid_codes(bytes: Seq<u8>) -> bool {
        let d = digits_of(word_of(bytes), 0, 2, 4);
        &&& SampleCount::spec_from_code(d[0]) is Some
        &&& SampleCount::spec_from_code(d[1]) is Some
        &&& SampleCount::spec_from_code(d[2]) is Some
        &&& SampleCount::spec_from_code(d[3]) is Some
    }

    open spec fn decode(bytes: Seq<u8>) -> UcLimitNSamples {
        let d = digits_of(word_of(bytes), 0, 2, 4);
        UcLimitNSamples {
            n_samples_ch1: SampleCount::spec_from_code(d[0])->Some_0,
            n_samples_ch2: SampleCount::spec_from_code(d[1])->Some_0,
            n_samples_ch3: SampleCount::spec_from_code(d[2])->Some_0,
            n_samples_ch4: SampleCount::spec_from_code(d[3])->Some_0,
        }
    }

    fn addr() -> Address {
        Address::UcLimitNSamples
    }

    fn size() -> usize {
        1
    }

    fn pack(&self) -> Vec<u8> {
        let d = vec![
            self.n_samples_ch1.code(),
            self.n_samples_ch2.code(),
            self.n_samples_ch3.code(),
            self.n_samples_ch4.code(),
        ];
        assert(d@ =~= self.digits());
        proof {
            UcLimitNSamples::lemma_digits_fit(*self);
        }
        pack_digits(&d, 2, 0, 1)
    }

    fn unpack(bytes: &[u8]) -> Result<UcLimitNSamples, DecodingError> {
        let d = unpack_digits(bytes, 2, 0, 4);
        let n_samples_ch1 = match SampleCount::from_code(d[0]) {
            Some(c) => c,
            None => return Err(DecodingError),
        };
        let n_samples_ch2 = match SampleCount::from_code(d[1]) {
            Some(c) => c,
            None => return Err(DecodingError),
        };
        let n_samples_ch3 = match SampleCount::from_code(d[2]) {
            Some(c) => c,
            None => return Err(DecodingError),
        };
        let n_samples_ch4 = match SampleCount::from_code(d[3]) {
            Some(c) => c,
            None => return Err(DecodingError),
        };
        Ok(UcLimitNSamples { n_samples_ch1, n_samples_ch2, n_samples_ch3, n_samples_ch4 })
    }
}

impl RoundTrip for UcLimitNSamples {
    proof fn lemma_round_trip(v: UcLimitNSamples) {
        UcLimitNSamples::lemma_digits_fit(v);
        lemma_digits_image(v.digits(), 2, 0, 1);
        v.n_samples_ch1.lemma_code();
        v.n_samples_ch2.lemma_code();
        v.n_samples_ch3.lemma_code();
        v.n_samples_ch4.lemma_code();
    }
}

impl WritableRegister for UcLimitNSamples {

}

/// Number of consecutive samples exceeding the overpower limit that are required to trigger
/// the ALERT function for each channel; two bits per channel, channel 1 in bits 7:6.
#[derive(Clone, Copy, Debug, PartialEq, Eq, Structural)]
pub struct OpLimitNSamples {
    pub n_samples_ch1: SampleCount,
    pub n_samples_ch2: SampleCount,
    pub n_samples_ch3: SampleCount,
    pub n_samples_ch4: SampleCount,
}

impl OpLimitNSamples {
    /// The 4 two-bit codes, most significant first.
    pub open spec fn digits(self) -> Seq<u64> {
        seq![
            self.n_samples_ch1.spec_code(),
            self.n_samples_ch2.spec_code(),
            self.n_samples_ch3.spec_code(),
            self.n_samples_ch4.spec_code(),
        ]
    }

    proof fn lemma_digits_fit(v: OpLimitNSamples)
        ensures
            digits_fit(v.digits(), 2),
    {
        lemma_small_pows();
        v.n_samples_ch1.lemma_code();
        v.n_samples_ch2.lemma_code();
        v.n_samples_ch3.lemma_code();
        v.n_samples_ch4.lemma_code();
    }
}

impl Register for OpLimitNSamples {
    open spec fn spec_addr() -> Address {
        Address::OpLimitNSamples
    }

    open spec fn spec_size() -> nat {
        1
    }

    open spec fn wf(self) -> bool {
        true
    }

    open spec fn encode(self) -> Seq<u8> {
        bytes_of(digits_word(self.digits(), 2) << 0u64, 1)
    }

    open spec fn valid_codes(bytes: Seq<u8>) -> bool {
        let d = digits_of(word_of(bytes), 0, 2, 4);
        &&& SampleCount::spec_from_code(d[0]) is Some
        &&& SampleCount::spec_from_code(d[1]) is Some
        &&& SampleCount::spec_from_code(d[2]) is Some
        &&& SampleCount::spec_from_code(d[3]) is Some
    }

    open spec fn decode(bytes: Seq<u8>) -> OpLimitNSamples {
        let d = digits_of(word_of(bytes), 0, 2, 4);
        OpLimitNSamples {
            n_samples_ch1: SampleCount::spec_from_code(d[0])->Some_0,
            n_samples_ch2: SampleCount::spec_from_code(d[1])->Some_0,
            n_samples_ch3: SampleCount::spec_from_code(d[2])->Some_0,
            n_samples_ch4: SampleCount::spec_from_code(d[3])->Some_0,
        }
    }

    fn addr() -> Address {
        Address::OpLimitNSamples
    }

    fn size() -> usize {
        1
    }

    fn pack(&self) -> Vec<u8> {
        let d = vec![
            self.n_samples_ch1.code(),
            self.n_samples_ch2.code(),
            self.n_samples_ch3.code(),
            self.n_samples_ch4.code(),
        ];
        assert(d@ =~= self.digits());
        proof {
            OpLimitNSamples::lemma_digits_fit(*self);
        }
        pack_digits(&d, 2, 0, 1)
    }

    fn unpack(bytes: &[u8]) -> Result<OpLimitNSamples, DecodingError> {
        let d = unpack_digits(bytes, 2, 0, 4);
        let n_samples_ch1 = match SampleCount::from_code(d[0]) {
            Some(c) => c,
            None => return Err(DecodingError),
        };
        let n_samples_ch2 = match SampleCount::from_code(d[1]) {
            Some(c) => c,
            None => return Err(DecodingError),
        };
        let n_samples_ch3 = match SampleCount::from_code(d[2]) {
            Some(c) => c,
            None => return Err(DecodingError),
        };
        let n_samples_ch4 = match SampleCount::from_code(d[3]) {
            Some(c) => c,
            None => return Err(DecodingError),
        };
        Ok(OpLimitNSamples { n_samples_ch1, n_samples_ch2, n_samples_ch3, n_samples_ch4 })
    }
}

impl RoundTrip for OpLimitNSamples {
    proof fn lemma_round_trip(v: OpLimitNSamples) {
        OpLimitNSamples::lemma_digits_fit(v);
        lemma_digits_image(v.digits(), 2, 0, 1);
        v.n_samples_ch1.lemma_code();
        v.n_samples_ch2.lemma_code();
        v.n_samples_ch3.lemma_code();
        v.n_samples_ch4.lemma_code();
    }
}

impl WritableRegister for OpLimitNSamples {

}

/// Number of consecutive samples exceeding the overvoltage limit that are required to trigger
/// the ALERT function for each channel; two bits per channel, channel 1 in bits 7:6.
#[derive(Clone, Copy, Debug, PartialEq, Eq, Structural)]
pub struct OvLimitNSamples {
    pub n_samples_ch1: SampleCount,
    pub n_samples_ch2: SampleCount,
    pub n_samples_ch3: SampleCount,
    pub n_samples_ch4: SampleCount,
}

impl OvLimitNSamples {
    /// The 4 two-bit codes, most significant first.
    pub open spec fn digits(self) -> Seq<u64> {
        seq![
            self.n_samples_ch1.spec_code(),
            self.n_samples_ch2.spec_code(),
            self.n_samples_ch3.spec_code(),
            self.n_samples_ch4.spec_code(),
        ]
    }

    proof fn lemma_digits_fit(v: OvLimitNSamples)
        ensures
            digits_fit(v.digits(), 2),
    {
        lemma_small_pows();
        v.n_samples_ch1.lemma_code();
        v.n_samples_ch2.lemma_code();
        v.n_samples_ch3.lemma_code();
        v.n_samples_ch4.lemma_code();
    }
}

impl Register for OvLimitNSamples {
    open spec fn spec_addr() -> Address {
        Address::OvLimitNSamples
    }

    open spec fn spec_size() -> nat {
        1
    }

    open spec fn wf(self) -> bool {
        true
    }

    open spec fn encode(self) -> Seq<u8> {
        bytes_of(digits_word(self.digits(), 2) << 0u64, 1)
    }

    open spec fn valid_codes(bytes: Seq<u8>) -> bool {
        let d = digits_of(word_of(bytes), 0, 2, 4);
        &&& SampleCount::spec_from_code(d[0]) is Some
        &&& SampleCount::spec_from_code(d[1]) is Some
        &&& SampleCount::spec_from_code(d[2]) is Some
        &&& SampleCount::spec_from_code(d[3]) is Some
    }

    open spec fn decode(bytes: Seq<u8>) -> OvLimitNSamples {
        let d = digits_of(word_of(bytes), 0, 2, 4);
        OvLimitNSamples {
            n_samples_ch1: SampleCount::spec_from_code(d[0])->Some_0,
            n_samples_ch2: SampleCount::spec_from_code(d[1])->Some_0,
            n_samples_ch3: SampleCount::spec_from_code(d[2])->Some_0,
            n_samples_ch4: SampleCount::spec_from_code(d[3])->Some_0,
        }
    }

    fn addr() -> Address {
        Address::OvLimitNSamples
    }

    fn size() -> usize {
        1
    }

    fn pack(&self) -> Vec<u8> {
        let d = vec![
            self.n_samples_ch1.code(),
            self.n_samples_ch2.code(),
            self.n_samples_ch3.code(),
            self.n_samples_ch4.code(),
        ];
        assert(d@ =~= self.digits());
        proof {
            OvLimitNSamples::lemma_digits_fit(*self);
        }
        pack_digits(&d, 2, 0, 1)
    }

    fn unpack(bytes: &[u8]) -> Result<OvLimitNSamples, DecodingError> {
        let d = unpack_digits(bytes, 2, 0, 4);
        let n_samples_ch1 = match SampleCount::from_code(d[0]) {
            Some(c) => c,
            None => return Err(DecodingError),
        };
        let n_samples_ch2 = match SampleCount::from_code(d[1]) {
            Some(c) => c,
            None => return Err(DecodingError),
        };
        let n_samples_ch3 = match SampleCount::from_code(d[2]) {
            Some(c) => c,
            None => return Err(DecodingError),
        };
        let n_samples_ch4 = match SampleCount::from_code(d[3]) {
            Some(c) => c,
            None => return Err(DecodingError),
        };
        Ok(OvLimitNSamples { n_samples_ch1, n_samples_ch2, n_samples_ch3, n_samples_ch4 })
    }
}

impl RoundTrip for OvLimitNSamples {
    proof fn lemma_round_trip(v: OvLimitNSamples) {
        OvLimitNSamples::lemma_digits_fit(v);
        lemma_digits_image(v.digits(), 2, 0, 1);
        v.n_samples_ch1.lemma_code();
        v.n_samples_ch2.lemma_code();
        v.n_samples_ch3.lemma_code();
        v.n_samples_ch4.lemma_code();
    }
}

impl WritableRegister for OvLimitNSamples {

}

/// Number of consecutive samples exceeding the undervoltage limit that are required to trigger
/// the ALERT function for each channel; two bits per channel, channel 1 in bits 7:6.
#[derive(Clone, Copy, Debug, PartialEq, Eq, Structural)]
pub struct UvLimitNSamples {
    pub n_samples_ch1: SampleCount,
    pub n_samples_ch2: SampleCount,
    pub n_samples_ch3: SampleCount,
    pub n_samples_ch4: SampleCount,
}

impl UvLimitNSamples {
    /// The 4 two-bit codes, most significant first.
    pub open spec fn digits(self) -> Seq<u64> {
        seq![
            self.n_samples_ch1.spec_code(),
            self.n_samples_ch2.spec_code(),
            self.n_samples_ch3.spec_code(),
            self.n_samples_ch4.spec_code(),
        ]
    }

    proof fn lemma_digits_fit(v: UvLimitNSamples)
        ensures
            digits_fit(v.digits(), 2),
    {
        lemma_small_pows();
        v.n_samples_ch1.lemma_code();
        v.n_samples_ch2.lemma_code();
        v.n_samples_ch3.lemma_code();
        v.n_samples_ch4.lemma_code();
    }
}

impl Register for UvLimitNSamples {
    open spec fn spec_addr() -> Address {
        Address::UvLimitNSamples
    }

    open spec fn spec_size() -> nat {
        1
    }

    open spec fn wf(self) -> bool {
        true
    }

    open spec fn encode(self) -> Seq<u8> {
        bytes_of(digits_word(self.digits(), 2) << 0u64, 1)
    }

    open spec fn valid_codes(bytes: Seq<u8>) -> bool {
        let d = digits_of(word_of(bytes), 0, 2, 4);
        &&& SampleCount::spec_from_code(d[0]) is Some
        &&& SampleCount::spec_from_code(d[1]) is Some
        &&& SampleCount::spec_from_code(d[2]) is Some
        &&& SampleCount::spec_from_code(d[3]) is Some
    }

    open spec fn decode(bytes: Seq<u8>) -> UvLimitNSamples {
        let d = digits_of(word_of(bytes), 0, 2, 4);
        UvLimitNSamples {
            n_samples_ch1: SampleCount::spec_from_code(d[0])->Some_0,
            n_samples_ch2: SampleCount::spec_from_code(d[1])->Some_0,
            n_samples_ch3: SampleCount::spec_from_code(d[2])->Some_0,
            n_samples_ch4: SampleCount::spec_from_code(d[3])->Some_0,
        }
    }

    fn addr() -> Address {
        Address::UvLimitNSamples
    }

    fn size() -> usize {
        1
    }

    fn pack(&self) -> Vec<u8> {
        let d = vec![
            self.n_samples_ch1.code(),
            self.n_samples_ch2.code(),
            self.n_samples_ch3.code(),
            self.n_samples_ch4.code(),
        ];
        assert(d@ =~= self.digits());
        proof {
            UvLimitNSamples::lemma_digits_fit(*self);
        }
        pack_digits(&d, 2, 0, 1)
    }

    fn unpack(bytes: &[u8]) -> Result<UvLimitNSamples, DecodingError> {
        let d = unpack_digits(bytes, 2, 0, 4);
        let n_samples_ch1 = match SampleCount::from_code(d[0]) {
            Some(c) => c,
            None => return Err(DecodingError),
        };
        let n_samples_ch2 = match SampleCount::from_code(d[1]) {
            Some(c) => c,
            None => return Err(DecodingError),
        };
        let n_samples_ch3 = match SampleCount::from_code(d[2]) {
            Some(c) => c,
            None => return Err(DecodingError),
        };
        let n_samples_ch4 = match SampleCount::from_code(d[3]) {
            Some(c) => c,
            None => return Err(DecodingError),
        };
        Ok(UvLimitNSamples { n_samples_ch1, n_samples_ch2, n_samples_ch3, n_samples_ch4 })
    }
}

impl RoundTrip for UvLimitNSamples {
    proof fn lemma_round_trip(v: UvLimitNSamples) {
        UvLimitNSamples::lemma_digits_fit(v);
        lemma_digits_image(v.digits(), 2, 0, 1);
        v.n_samples_ch1.lemma_code();
        v.n_samples_ch2.lemma_code();
        v.n_samples_ch3.lemma_code();
        v.n_samples_ch4.lemma_code();
    }
}

impl WritableRegister for UvLimitNSamples {

}

/// How full the accumulators and the accumulator count may get before their limits trip:
/// two bits each from channel 1 in bits 15:14 to the count in bits 7:6; bits 5:0 are
/// unused.
#[derive(Clone, Copy, Debug, PartialEq, Eq, Structural)]
pub struct AccFullnessLimits {
    pub ch1_acc_full: AccFullness,
    pub ch2_acc_full: AccFullness,
    pub ch3_acc_full: AccFullness,
    pub ch4_acc_full: AccFullness,
    pub acc_count_full: AccFullness,
}

impl AccFullnessLimits {
    /// The 5 two-bit codes, most significant first.
    pub open spec fn digits(self) -> Seq<u64> {
        seq![
            self.ch1_acc_full.spec_code(),
            self.ch2_acc_full.spec_code(),
            self.ch3_acc_full.spec_code(),
            self.ch4_acc_full.spec_code(),
            self.acc_count_full.spec_code(),
        ]
    }

    proof fn lemma_digits_fit(v: AccFullnessLimits)
        ensures
            digits_fit(v.digits(), 2),
    {
        lemma_small_pows();
        v.ch1_acc_full.lemma_code();
        v.ch2_acc_full.lemma_code();
        v.ch3_acc_full.lemma_code();
        v.ch4_acc_full.lemma_code();
        v.acc_count_full.lemma_code();
    }
}

impl Register for AccFullnessLimits {
    open spec fn spec_addr() -> Address {
        Address::AccFullnessLimits
    }

    open spec fn spec_size() -> nat {
        2
    }

    open spec fn wf(self) -> bool {
        true
    }

    open spec fn encode(self) -> Seq<u8> {
        bytes_of(digits_word(self.digits(), 2) << 6u64, 2)
    }

    open spec fn valid_codes(bytes: Seq<u8>) -> bool {
        let d = digits_of(word_of(bytes), 6, 2, 5);
        &&& AccFullness::spec_from_code(d[0]) is Some
        &&& AccFullness::spec_from_code(d[1]) is Some
        &&& AccFullness::spec_from_code(d[2]) is Some
        &&& AccFullness::spec_from_code(d[3]) is Some
        &&& AccFullness::spec_from_code(d[4]) is Some
    }

    open spec fn decode(bytes: Seq<u8>) -> AccFullnessLimits {
        let d = digits_of(word_of(bytes), 6, 2, 5);
        AccFullnessLimits {
            ch1_acc_full: AccFullness::spec_from_code(d[0])->Some_0,
            ch2_acc_full: AccFullness::spec_from_code(d[1])->Some_0,
            ch3_acc_full: AccFullness::spec_from_code(d[2])->Some_0,
            ch4_acc_full: AccFullness::spec_from_code(d[3])->Some_0,
            acc_count_full: AccFullness::spec_from_code(d[4])->Some_0,
        }
    }

    fn addr() -> Address {
        Address::AccFullnessLimits
    }

    fn size() -> usize {
        2
    }

    fn pack(&self) -> Vec<u8> {
        let d = vec![
            self.ch1_acc_full.code(),
            self.ch2_acc_full.code(),
            self.ch3_acc_full.code(),
            self.ch4_acc_full.code(),
            self.acc_count_full.code(),
        ];
        assert(d@ =~= self.digits());
        proof {
            AccFullnessLimits::lemma_digits_fit(*self);
        }
        pack_digits(&d, 2, 6, 2)
    }

    fn unpack(bytes: &[u8]) -> Result<AccFullnessLimits, DecodingError> {
        let d = unpack_digits(bytes, 2, 6, 5);
        let ch1_acc_full = match AccFullness::from_code(d[0]) {
            Some(c) => c,
            None => return Err(DecodingError),
        };
        let ch2_acc_full = match AccFullness::from_code(d[1]) {
            Some(c) => c,
            None => return Err(DecodingError),
        };
        let ch3_acc_full = match AccFullness::from_code(d[2]) {
            Some(c) => c,
            None => return Err(DecodingError),
        };
        let ch4_acc_full = match AccFullness::from_code(d[3]) {
            Some(c) => c,
            None => return Err(DecodingError),
        };
        let acc_count_full = match AccFullness::from_code(d[4]) {
            Some(c) => c,
            None => return Err(DecodingError),
        };
        Ok(AccFullnessLimits { ch1_acc_full, ch2_acc_full, ch3_acc_full, ch4_acc_full, acc_count_full })
    }
}

impl RoundTrip for AccFullnessLimits {
    proof fn lemma_round_trip(v: AccFullnessLimits) {
        AccFullnessLimits::lemma_digits_fit(v);
        lemma_digits_image(v.digits(), 2, 6, 2);
        v.ch1_acc_full.lemma_code();
        v.ch2_acc_full.lemma_code();
        v.ch3_acc_full.lemma_code();
        v.ch4_acc_full.lemma_code();
        v.acc_count_full.lemma_code();
    }
}

impl WritableRegister for AccFullnessLimits {

}

} // verus!
