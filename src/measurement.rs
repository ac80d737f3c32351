//! Measurement results: the accumulator count and, per channel, the accumulated sum,
//! the bus and sense voltages, their rolling averages and the power.
//!
//! The chip reports these as unsigned numbers, or in two's complement when a bipolar
//! range is configured; the registers hold the raw bits, most significant byte first.

use vstd::prelude::*;
use crate::bits::{bytes_of, field, from_be_bytes, get_field, lemma_word_of_bytes_of, to_be_bytes, word_of};
use crate::error::DecodingError;
use crate::register::{Address, RoundTrip, ChannelRegister, Register, WritableRegister};

verus! {

/// This register contains the count for each time a power result is summed in the
/// accumulator.
#[derive(Clone, Copy, Debug, PartialEq, Eq, Structural)]
pub struct AccCount {
    pub count: u32,
}

impl Register for AccCount {
    open spec fn spec_addr() -> Address {
        Address::AccCount
    }

    open spec fn spec_size() -> nat {
        4
    }

    open spec fn wf(self) -> bool {
        true
    }

    open spec fn encode(self) -> Seq<u8> {
        bytes_of((self.count as u64) & 0xffff_ffff, 4)
    }

    open spec fn valid_codes(bytes: Seq<u8>) -> bool {
        true
    }

    open spec fn decode(bytes: Seq<u8>) -> AccCount {
        AccCount { count: field(word_of(bytes), 0, 32) as u32 }
    }

    fn addr() -> Address {
        Address::AccCount
    }

    fn size() -> usize {
        4
    }

    fn pack(&self) -> Vec<u8> {
        to_be_bytes((self.count as u64) & 0xffff_ffff, 4)
    }

    fn unpack(bytes: &[u8]) -> Result<AccCount, DecodingError> {
        let w = from_be_bytes(bytes);
        Ok(AccCount { count: get_field(w, 0, 32) as u32 })
    }
}

impl RoundTrip for AccCount {
    proof fn lemma_round_trip(v: AccCount) {
        let x = v.count as u64;
        let w = x & 0xffff_ffff;
        assert(field(w, 0, 32) == x && w < (1u64 << 32u64)) by (bit_vector)
            requires
                x <= 0xffff_ffff,
                w == x & 0xffff_ffff,
        ;
        lemma_word_of_bytes_of(w, 4);
    }
}

impl WritableRegister for AccCount {

}

/// The accumulated sum of V POWER samples of a channel, or of V SENSE or V BUS as
/// configured in [`crate::control::AccumConfig`]: 56 bits, unsigned unless a bipolar
/// range is configured. Packing keeps the low 56 bits of `sum`.
#[derive(Clone, Copy, Debug, PartialEq, Eq, Structural)]
pub struct Vaccn {
    pub sum: u64,
}

impl Register for Vaccn {
    open spec fn spec_addr() -> Address {
        Address::Vaccn
    }

    open spec fn spec_size() -> nat {
        7
    }

    open spec fn wf(self) -> bool {
        (self.sum as u64) < (1u64 << 56u64)
    }

    open spec fn encode(self) -> Seq<u8> {
        bytes_of((self.sum as u64) & 0xff_ffff_ffff_ffff, 7)
    }

    open spec fn valid_codes(bytes: Seq<u8>) -> bool {
        true
    }

    open spec fn decode(bytes: Seq<u8>) -> Vaccn {
        Vaccn { sum: field(word_of(bytes), 0, 56) as u64 }
    }

    fn addr() -> Address {
        Address::Vaccn
    }

    fn size() -> usize {
        7
    }

    fn pack(&self) -> Vec<u8> {
        to_be_bytes((self.sum as u64) & 0xff_ffff_ffff_ffff, 7)
    }

    fn unpack(bytes: &[u8]) -> Result<Vaccn, DecodingError> {
        let w = from_be_bytes(bytes);
        Ok(Vaccn { sum: get_field(w, 0, 56) as u64 })
    }
}

impl RoundTrip for Vaccn {
    proof fn lemma_round_trip(v: Vaccn) {
        let x = v.sum as u64;
        let w = x & 0xff_ffff_ffff_ffff;
        assert(field(w, 0, 56) == x && w < (1u64 << 56u64)) by (bit_vector)
            requires
                x < (1u64 << 56u64),
                w == x & 0xff_ffff_ffff_ffff,
        ;
        lemma_word_of_bytes_of(w, 7);
    }
}

/// The most recent digitized value of a channel's V BUS sample: 16 bits, unsigned unless
/// V BUS is configured to have a bipolar range.
#[derive(Clone, Copy, Debug, PartialEq, Eq, Structural)]
pub struct Vbusn {
    pub voltage: u16,
}

impl Register for Vbusn {
    open spec fn spec_addr() -> Address {
        Address::Vbusn
    }

    open spec fn spec_size() -> nat {
        2
    }

    open spec fn wf(self) -> bool {
        true
    }

    open spec fn encode(self) -> Seq<u8> {
        bytes_of((self.voltage as u64) & 0xffff, 2)
    }

    open spec fn valid_codes(bytes: Seq<u8>) -> bool {
        true
    }

    open spec fn decode(bytes: Seq<u8>) -> Vbusn {
        Vbusn { voltage: field(word_of(bytes), 0, 16) as u16 }
    }

    fn addr() -> Address {
        Address::Vbusn
    }

    fn size() -> usize {
        2
    }

    fn pack(&self) -> Vec<u8> {
        to_be_bytes((self.voltage as u64) & 0xffff, 2)
    }

    fn unpack(bytes: &[u8]) -> Result<Vbusn, DecodingError> {
        let w = from_be_bytes(bytes);
        Ok(Vbusn { voltage: get_field(w, 0, 16) as u16 })
    }
}

impl RoundTrip for Vbusn {
    proof fn lemma_round_trip(v: Vbusn) {
        let x = v.voltage as u64;
        let w = x & 0xffff;
        assert(field(w, 0, 16) == x && w < (1u64 << 16u64)) by (bit_vector)
            requires
                x <= 0xffff,
                w == x & 0xffff,
        ;
        lemma_word_of_bytes_of(w, 2);
    }
}

/// The most recent digitized value of a channel's V SENSE sample: 16 bits, unsigned
/// unless V SENSE is configured to have a bipolar range.
#[derive(Clone, Copy, Debug, PartialEq, Eq, Structural)]
pub struct Vsensen {
    pub voltage: u16,
}

impl Register for Vsensen {
    open spec fn spec_addr() -> Address {
        Address::Vsensen
    }

    open spec fn spec_size() -> nat {
        2
    }

    open spec fn wf(self) -> bool {
        true
    }

    open spec fn encode(self) -> Seq<u8> {
        bytes_of((self.voltage as u64) & 0xffff, 2)
    }

    open spec fn valid_codes(bytes: Seq<u8>) -> bool {
        true
    }

    open spec fn decode(bytes: Seq<u8>) -> Vsensen {
        Vsensen { voltage: field(word_of(bytes), 0, 16) as u16 }
    }

    fn addr() -> Address {
        Address::Vsensen
    }

    fn size() -> usize {
        2
    }

    fn pack(&self) -> Vec<u8> {
        to_be_bytes((self.voltage as u64) & 0xffff, 2)
    }

    fn unpack(bytes: &[u8]) -> Result<Vsensen, DecodingError> {
        let w = from_be_bytes(bytes);
        Ok(Vsensen { voltage: get_field(w, 0, 16) as u16 })
    }
}

impl RoundTrip for Vsensen {
    proof fn lemma_round_trip(v: Vsensen) {
        let x = v.voltage as u64;
        let w = x & 0xffff;
        assert(field(w, 0, 16) == x && w < (1u64 << 16u64)) by (bit_vector)
            requires
                x <= 0xffff,
                w == x & 0xffff,
        ;
        lemma_word_of_bytes_of(w, 2);
    }
}

/// A rolling average of the eight most recent V BUS measurements of a channel, in the
/// format of [`Vbusn`].
#[derive(Clone, Copy, Debug, PartialEq, Eq, Structural)]
pub struct VbusnAvg {
    pub voltage: u16,
}

impl Register for VbusnAvg {
    open spec fn spec_addr() -> Address {
        Address::VbusnAvg
    }

    open spec fn spec_size() -> nat {
        2
    }

    open spec fn wf(self) -> bool {
        true
    }

    open spec fn encode(self) -> Seq<u8> {
        bytes_of((self.voltage as u64) & 0xffff, 2)
    }

    open spec fn valid_codes(bytes: Seq<u8>) -> bool {
        true
    }

    open spec fn decode(bytes: Seq<u8>) -> VbusnAvg {
        VbusnAvg { voltage: field(word_of(bytes), 0, 16) as u16 }
    }

    fn addr() -> Address {
        Address::VbusnAvg
    }

    fn size() -> usize {
        2
    }

    fn pack(&self) -> Vec<u8> {
        to_be_bytes((self.voltage as u64) & 0xffff, 2)
    }

    fn unpack(bytes: &[u8]) -> Result<VbusnAvg, DecodingError> {
        let w = from_be_bytes(bytes);
        Ok(VbusnAvg { voltage: get_field(w, 0, 16) as u16 })
    }
}

impl RoundTrip for VbusnAvg {
    proof fn lemma_round_trip(v: VbusnAvg) {
        let x = v.voltage as u64;
        let w = x & 0xffff;
        assert(field(w, 0, 16) == x && w < (1u64 << 16u64)) by (bit_vector)
            requires
                x <= 0xffff,
                w == x & 0xffff,
        ;
        lemma_word_of_bytes_of(w, 2);
    }
}

/// A rolling average of the eight most recent V SENSE measurements of a channel, in the
/// format of [`Vsensen`].
#[derive(Clone, Copy, Debug, PartialEq, Eq, Structural)]
pub struct VsensenAvg {
    pub voltage: u16,
}

impl Register for VsensenAvg {
    open spec fn spec_addr() -> Address {
        Address::VsensenAvg
    }

    open spec fn spec_size() -> nat {
        2
    }

    open spec fn wf(self) -> bool {
        true
    }

    open spec fn encode(self) -> Seq<u8> {
        bytes_of((self.voltage as u64) & 0xffff, 2)
    }

    open spec fn valid_codes(bytes: Seq<u8>) -> bool {
        true
    }

    open spec fn decode(bytes: Seq<u8>) -> VsensenAvg {
        VsensenAvg { voltage: field(word_of(bytes), 0, 16) as u16 }
    }

    fn addr() -> Address {
        Address::VsensenAvg
    }

    fn size() -> usize {
        2
    }

    fn pack(&self) -> Vec<u8> {
        to_be_bytes((self.voltage as u64) & 0xffff, 2)
    }

    fn unpack(bytes: &[u8]) -> Result<VsensenAvg, DecodingError> {
        let w = from_be_bytes(bytes);
        Ok(VsensenAvg { voltage: get_field(w, 0, 16) as u16 })
    }
}

impl RoundTrip for VsensenAvg {
    proof fn lemma_round_trip(v: VsensenAvg) {
        let x = v.voltage as u64;
        let w = x & 0xffff;
        assert(field(w, 0, 16) == x && w < (1u64 << 16u64)) by (bit_vector)
            requires
                x <= 0xffff,
                w == x & 0xffff,
        ;
        lemma_word_of_bytes_of(w, 2);
    }
}

/// The product of V BUS (14 MSBs) and V SENSE, the proportional power of a channel: 30
/// bits in bits 31:2, unsigned unless a bipolar range is configured. Packing keeps the low
/// 30 bits of `power`.
#[derive(Clone, Copy, Debug, PartialEq, Eq, Structural)]
pub struct Vpowern {
    pub power: u32,
}

impl Register for Vpowern {
    open spec fn spec_addr() -> Address {
        Address::Vpowern
    }

    open spec fn spec_size() -> nat {
        4
    }

    open spec fn wf(self) -> bool {
        (self.power as u64) < (1u64 << 30u64)
    }

    open spec fn encode(self) -> Seq<u8> {
        bytes_of(((self.power as u64) & 0x3fff_ffff) << 2u64, 4)
    }

    open spec fn valid_codes(bytes: Seq<u8>) -> bool {
        true
    }

    open spec fn decode(bytes: Seq<u8>) -> Vpowern {
        Vpowern { power: field(word_of(bytes), 2, 30) as u32 }
    }

    fn addr() -> Address {
        Address::Vpowern
    }

    fn size() -> usize {
        4
    }

    fn pack(&self) -> Vec<u8> {
        to_be_bytes(((self.power as u64) & 0x3fff_ffff) << 2u64, 4)
    }

    fn unpack(bytes: &[u8]) -> Result<Vpowern, DecodingError> {
        let w = from_be_bytes(bytes);
        Ok(Vpowern { power: get_field(w, 2, 30) as u32 })
    }
}

impl RoundTrip for Vpowern {
    proof fn lemma_round_trip(v: Vpowern) {
        let x = v.power as u64;
        let w = (x & 0x3fff_ffff) << 2u64;
        assert(field(w, 2, 30) == x && w < (1u64 << 32u64)) by (bit_vector)
            requires
                x < (1u64 << 30u64),
                w == (x & 0x3fff_ffff) << 2u64,
        ;
        lemma_word_of_bytes_of(w, 4);
    }
}

impl ChannelRegister for Vaccn {
    proof fn lemma_family_fits() {
    }
}

impl ChannelRegister for Vbusn {
    proof fn lemma_family_fits() {
    }
}

impl ChannelRegister for Vsensen {
    proof fn lemma_family_fits() {
    }
}

impl ChannelRegister for VbusnAvg {
    proof fn lemma_family_fits() {
    }
}

impl ChannelRegister for VsensenAvg {
    proof fn lemma_family_fits() {
    }
}

impl ChannelRegister for Vpowern {
    proof fn lemma_family_fits() {
    }
}

} // verus!
