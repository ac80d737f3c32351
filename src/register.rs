//! The register map of the chip and the contract that every register type meets.

use vstd::prelude::*;
use crate::error::DecodingError;

verus! {

/// Addresses of the registers of the chip. For a per-channel family this is the address
/// of channel 1.
#[derive(Clone, Copy, Debug, PartialEq, Eq, Structural)]
pub enum Address {
    Refresh,
    Ctrl,
    AccCount,
    Vaccn,
    Vbusn,
    Vsensen,
    VbusnAvg,
    VsensenAvg,
    Vpowern,
    SmbusSettings,
    NegPwrFsr,
    RefreshG,
    RefreshV,
    Slow,
    CtrlAct,
    NegPwrFsrAct,
    CtrlLat,
    NegPwrFsrLat,
    AccumConfig,
    AlertStatus,
    SlowAlert1,
    GpioAlert2,
    AccFullnessLimits,
    OcLimitn,
    UcLimitn,
    OpLimitn,
    OvLimitn,
    UvLimitn,
    OcLimitNSamples,
    UcLimitNSamples,
    OpLimitNSamples,
    OvLimitNSamples,
    UvLimitNSamples,
    AlertEnable,
    AccumConfigAct,
    AccumConfigLat,
    ProductId,
    ManufacturerId,
    RevisionId,
}

impl Address {
    /// The byte that addresses the register on the bus.
    pub open spec fn spec_value(self) -> u8 {
        match self {
            Address::Refresh => 0x00,
            Address::Ctrl => 0x01,
            Address::AccCount => 0x02,
            Address::Vaccn => 0x03,
            Address::Vbusn => 0x07,
            Address::Vsensen => 0x0B,
            Address::VbusnAvg => 0x0F,
            Address::VsensenAvg => 0x13,
            Address::Vpowern => 0x17,
            Address::SmbusSettings => 0x1C,
            Address::NegPwrFsr => 0x1D,
            Address::RefreshG => 0x1E,
            Address::RefreshV => 0x1F,
            Address::Slow => 0x20,
            Address::CtrlAct => 0x21,
            Address::NegPwrFsrAct => 0x22,
            Address::CtrlLat => 0x23,
            Address::NegPwrFsrLat => 0x24,
            Address::AccumConfig => 0x25,
            Address::AlertStatus => 0x26,
            Address::SlowAlert1 => 0x27,
            Address::GpioAlert2 => 0x28,
            Address::AccFullnessLimits => 0x29,
            Address::OcLimitn => 0x30,
            Address::UcLimitn => 0x34,
            Address::OpLimitn => 0x38,
            Address::OvLimitn => 0x3C,
            Address::UvLimitn => 0x40,
            Address::OcLimitNSamples => 0x44,
            Address::UcLimitNSamples => 0x45,
            Address::OpLimitNSamples => 0x46,
            Address::OvLimitNSamples => 0x47,
            Address::UvLimitNSamples => 0x48,
            Address::AlertEnable => 0x49,
            Address::AccumConfigAct => 0x4A,
            Address::AccumConfigLat => 0x4B,
            Address::ProductId => 0xFD,
            Address::ManufacturerId => 0xFE,
            Address::RevisionId => 0xFF,
        }
    }

    /// The byte that addresses the register on the bus.
    pub fn value(&self) -> (r: u8)
        ensures
            r == self.spec_value(),
    {
        match self {
            Address::Refresh => 0x00,
            Address::Ctrl => 0x01,
            Address::AccCount => 0x02,
            Address::Vaccn => 0x03,
            Address::Vbusn => 0x07,
            Address::Vsensen => 0x0B,
            Address::VbusnAvg => 0x0F,
            Address::VsensenAvg => 0x13,
            Address::Vpowern => 0x17,
            Address::SmbusSettings => 0x1C,
            Address::NegPwrFsr => 0x1D,
            Address::RefreshG => 0x1E,
            Address::RefreshV => 0x1F,
            Address::Slow => 0x20,
            Address::CtrlAct => 0x21,
            Address::NegPwrFsrAct => 0x22,
            Address::CtrlLat => 0x23,
            Address::NegPwrFsrLat => 0x24,
            Address::AccumConfig => 0x25,
            Address::AlertStatus => 0x26,
            Address::SlowAlert1 => 0x27,
            Address::GpioAlert2 => 0x28,
            Address::AccFullnessLimits => 0x29,
            Address::OcLimitn => 0x30,
            Address::UcLimitn => 0x34,
            Address::OpLimitn => 0x38,
            Address::OvLimitn => 0x3C,
            Address::UvLimitn => 0x40,
            Address::OcLimitNSamples => 0x44,
            Address::UcLimitNSamples => 0x45,
            Address::OpLimitNSamples => 0x46,
            Address::OvLimitNSamples => 0x47,
            Address::UvLimitNSamples => 0x48,
            Address::AlertEnable => 0x49,
            Address::AccumConfigAct => 0x4A,
            Address::AccumConfigLat => 0x4B,
            Address::ProductId => 0xFD,
            Address::ManufacturerId => 0xFE,
            Address::RevisionId => 0xFF,
        }
    }
}

/// A register of the chip: its address, its fixed byte length and its byte layout.
///
/// `encode` is the byte image of a value; `decode` reads the fields back out of a byte
/// image, and `valid_codes` says that every enumerated field of the image holds a code
/// that names one of its values.
pub trait Register: Sized {
    /// Where the register is; for a per-channel family, channel 1's register.
    spec fn spec_addr() -> Address;

    /// The number of bytes of the register.
    spec fn spec_size() -> nat;

    /// Every field of the value fits the bits that the layout gives it.
    spec fn wf(self) -> bool;

    /// The bytes of the value, as they travel on the bus.
    spec fn encode(self) -> Seq<u8>;

    /// Every enumerated field of `bytes` holds a defined code.
    spec fn valid_codes(bytes: Seq<u8>) -> bool;

    /// The value whose fields `bytes` hold; meaningful where `valid_codes(bytes)`.
    spec fn decode(bytes: Seq<u8>) -> Self;

    /// The address of the register.
    fn addr() -> (r: Address)
        ensures
            r == Self::spec_addr(),
    ;

    /// The number of bytes of the register.
    fn size() -> (r: usize)
        ensures
            r == Self::spec_size(),
            1 <= r <= 7,
    ;

    /// Writes every field into its bits.
    fn pack(&self) -> (r: Vec<u8>)
        ensures
            r@ == self.encode(),
            r@.len() == Self::spec_size(),
    ;

    /// Reads every field out of its bits; fails exactly where an enumerated field holds
    /// an undefined code.
    fn unpack(bytes: &[u8]) -> (r: Result<Self, DecodingError>)
        requires
            bytes@.len() == Self::spec_size(),
        ensures
            r is Err <==> !Self::valid_codes(bytes@),
            r is Ok ==> r->Ok_0 == Self::decode(bytes@),
    ;
}

/// A register whose layout gives every value its own bytes.
pub trait RoundTrip: Register {
    /// Unpacking what was packed gives back the value.
    proof fn lemma_round_trip(v: Self)
        requires
            v.wf(),
        ensures
            Self::valid_codes(v.encode()),
            Self::decode(v.encode()) == v,
    ;
}

/// A family of four registers, one per channel, at consecutive addresses from
/// `spec_addr()`.
pub trait ChannelRegister: Register {
    /// All four addresses of the family fit in a byte.
    proof fn lemma_family_fits()
        ensures
            Self::spec_addr().spec_value() + 3 <= 0xFF,
    ;
}

/// A register that the host may write.
pub trait WritableRegister: Register {

}

} // verus!
