//! Alert status and routing: one flag per alert condition, in the same order in every
//! register, from channel 1's overcurrent alert in bit 23.

use vstd::prelude::*;
use crate::bits::{
    bit_set, bytes_of, flag_byte, from_be_bytes, make_flag_byte, test_bit, to_be_bytes, word_of,
};
use crate::error::DecodingError;
use crate::register::{Address, Register, WritableRegister};

verus! {

/// The cause of a tripped ALERT. Cleared when read and another conversion cycle completes.
/// 22 flags from bit 23 down; bits 1:0 are unused.
#[derive(Clone, Copy, Debug, PartialEq, Eq, Structural)]
pub struct AlertStatus {
    pub ch1_oc: bool,
    pub ch2_oc: bool,
    pub ch3_oc: bool,
    pub ch4_oc: bool,
    pub ch1_uc: bool,
    pub ch2_uc: bool,
    pub ch3_uc: bool,
    pub ch4_uc: bool,
    pub ch1_ov: bool,
    pub ch2_ov: bool,
    pub ch3_ov: bool,
    pub ch4_ov: bool,
    pub ch1_uv: bool,
    pub ch2_uv: bool,
    pub ch3_uv: bool,
    pub ch4_uv: bool,
    pub ch1_op: bool,
    pub ch2_op: bool,
    pub ch3_op: bool,
    pub ch4_op: bool,
    /// The accumulator of a channel overflowed or exceeded its fullness limit.
    pub acc_ovf: bool,
    /// The accumulator count overflowed or exceeded its fullness limit.
    pub acc_count: bool,
}

impl AlertStatus {
    /// The register word: the flags from bit 23 down, three bytes of eight.
    pub open spec fn word(self) -> u64 {
        (flag_byte(self.ch1_oc, self.ch2_oc, self.ch3_oc, self.ch4_oc, self.ch1_uc, self.ch2_uc, self.ch3_uc, self.ch4_uc) << 16u64)
            | (flag_byte(self.ch1_ov, self.ch2_ov, self.ch3_ov, self.ch4_ov, self.ch1_uv, self.ch2_uv, self.ch3_uv, self.ch4_uv) << 8u64)
            | flag_byte(self.ch1_op, self.ch2_op, self.ch3_op, self.ch4_op, self.acc_ovf, self.acc_count, false, false)
    }

    /// The flags that the register word `w` holds.
    pub open spec fn from_word(w: u64) -> AlertStatus {
        AlertStatus {
            ch1_oc: bit_set(w, 23),
            ch2_oc: bit_set(w, 22),
            ch3_oc: bit_set(w, 21),
            ch4_oc: bit_set(w, 20),
            ch1_uc: bit_set(w, 19),
            ch2_uc: bit_set(w, 18),
            ch3_uc: bit_set(w, 17),
            ch4_uc: bit_set(w, 16),
            ch1_ov: bit_set(w, 15),
            ch2_ov: bit_set(w, 14),
            ch3_ov: bit_set(w, 13),
            ch4_ov: bit_set(w, 12),
            ch1_uv: bit_set(w, 11),
            ch2_uv: bit_set(w, 10),
            ch3_uv: bit_set(w, 9),
            ch4_uv: bit_set(w, 8),
            ch1_op: bit_set(w, 7),
            ch2_op: bit_set(w, 6),
            ch3_op: bit_set(w, 5),
            ch4_op: bit_set(w, 4),
            acc_ovf: bit_set(w, 3),
            acc_count: bit_set(w, 2),
        }
    }

    fn to_word(&self) -> (r: u64)
        ensures
            r == self.word(),
    {
        let h = make_flag_byte(self.ch1_oc, self.ch2_oc, self.ch3_oc, self.ch4_oc, self.ch1_uc, self.ch2_uc, self.ch3_uc, self.ch4_uc);
        let m = make_flag_byte(self.ch1_ov, self.ch2_ov, self.ch3_ov, self.ch4_ov, self.ch1_uv, self.ch2_uv, self.ch3_uv, self.ch4_uv);
        let l = make_flag_byte(self.ch1_op, self.ch2_op, self.ch3_op, self.ch4_op, self.acc_ovf, self.acc_count, false, false);
        (h << 16u64) | (m << 8u64) | l
    }

    fn of_word(w: u64) -> (r: AlertStatus)
        ensures
            r == AlertStatus::from_word(w),
    {
        AlertStatus {
            ch1_oc: test_bit(w, 23),
            ch2_oc: test_bit(w, 22),
            ch3_oc: test_bit(w, 21),
            ch4_oc: test_bit(w, 20),
            ch1_uc: test_bit(w, 19),
            ch2_uc: test_bit(w, 18),
            ch3_uc: test_bit(w, 17),
            ch4_uc: test_bit(w, 16),
            ch1_ov: test_bit(w, 15),
            ch2_ov: test_bit(w, 14),
            ch3_ov: test_bit(w, 13),
            ch4_ov: test_bit(w, 12),
            ch1_uv: test_bit(w, 11),
            ch2_uv: test_bit(w, 10),
            ch3_uv: test_bit(w, 9),
            ch4_uv: test_bit(w, 8),
            ch1_op: test_bit(w, 7),
            ch2_op: test_bit(w, 6),
            ch3_op: test_bit(w, 5),
            ch4_op: test_bit(w, 4),
            acc_ovf: test_bit(w, 3),
            acc_count: test_bit(w, 2),
        }
    }
}

impl Register for AlertStatus {
    open spec fn spec_addr() -> Address {
        Address::AlertStatus
    }

    open spec fn spec_size() -> nat {
        3
    }

    open spec fn wf(self) -> bool {
        true
    }

    open spec fn encode(self) -> Seq<u8> {
        bytes_of(self.word(), 3)
    }

    open spec fn valid_codes(bytes: Seq<u8>) -> bool {
        true
    }

    open spec fn decode(bytes: Seq<u8>) -> AlertStatus {
        AlertStatus::from_word(word_of(bytes))
    }

    fn addr() -> Address {
        Address::AlertStatus
    }

    fn size() -> usize {
        3
    }

    fn pack(&self) -> Vec<u8> {
        to_be_bytes(self.to_word(), 3)
    }

    fn unpack(bytes: &[u8]) -> Result<AlertStatus, DecodingError> {
        Ok(AlertStatus::of_word(from_be_bytes(bytes)))
    }
}

/// Routes ALERT signals to the SLOW/ALERT1 pin. 23 flags from bit 23 down; bit 0 is
/// unused.
#[derive(Clone, Copy, Debug, PartialEq, Eq, Structural)]
pub struct SlowAlert1 {
    pub ch1_oc: bool,
    pub ch2_oc: bool,
    pub ch3_oc: bool,
    pub ch4_oc: bool,
    pub ch1_uc: bool,
    pub ch2_uc: bool,
    pub ch3_uc: bool,
    pub ch4_uc: bool,
    pub ch1_ov: bool,
    pub ch2_ov: bool,
    pub ch3_ov: bool,
    pub ch4_ov: bool,
    pub ch1_uv: bool,
    pub ch2_uv: bool,
    pub ch3_uv: bool,
    pub ch4_uv: bool,
    pub ch1_op: bool,
    pub ch2_op: bool,
    pub ch3_op: bool,
    pub ch4_op: bool,
    /// The accumulator of a channel overflowed or exceeded its fullness limit.
    pub acc_ovf: bool,
    /// The accumulator count overflowed or exceeded its fullness limit.
    pub acc_count: bool,
    /// Assert the SLOW/ALERT1 pin for 5 us at the end of each conversion cycle.
    pub alert_cc1: bool,
}

impl SlowAlert1 {
    /// The register word: the flags from bit 23 down, three bytes of eight.
    pub open spec fn word(self) -> u64 {
        (flag_byte(self.ch1_oc, self.ch2_oc, self.ch3_oc, self.ch4_oc, self.ch1_uc, self.ch2_uc, self.ch3_uc, self.ch4_uc) << 16u64)
            | (flag_byte(self.ch1_ov, self.ch2_ov, self.ch3_ov, self.ch4_ov, self.ch1_uv, self.ch2_uv, self.ch3_uv, self.ch4_uv) << 8u64)
            | flag_byte(self.ch1_op, self.ch2_op, self.ch3_op, self.ch4_op, self.acc_ovf, self.acc_count, self.alert_cc1, false)
    }

    /// The flags that the register word `w` holds.
    pub open spec fn from_word(w: u64) -> SlowAlert1 {
        SlowAlert1 {
            ch1_oc: bit_set(w, 23),
            ch2_oc: bit_set(w, 22),
            ch3_oc: bit_set(w, 21),
            ch4_oc: bit_set(w, 20),
            ch1_uc: bit_set(w, 19),
            ch2_uc: bit_set(w, 18),
            ch3_uc: bit_set(w, 17),
            ch4_uc: bit_set(w, 16),
            ch1_ov: bit_set(w, 15),
            ch2_ov: bit_set(w, 14),
            ch3_ov: bit_set(w, 13),
            ch4_ov: bit_set(w, 12),
            ch1_uv: bit_set(w, 11),
            ch2_uv: bit_set(w, 10),
            ch3_uv: bit_set(w, 9),
            ch4_uv: bit_set(w, 8),
            ch1_op: bit_set(w, 7),
            ch2_op: bit_set(w, 6),
            ch3_op: bit_set(w, 5),
            ch4_op: bit_set(w, 4),
            acc_ovf: bit_set(w, 3),
            acc_count: bit_set(w, 2),
            alert_cc1: bit_set(w, 1),
        }
    }

    fn to_word(&self) -> (r: u64)
        ensures
            r == self.word(),
    {
        let h = make_flag_byte(self.ch1_oc, self.ch2_oc, self.ch3_oc, self.ch4_oc, self.ch1_uc, self.ch2_uc, self.ch3_uc, self.ch4_uc);
        let m = make_flag_byte(self.ch1_ov, self.ch2_ov, self.ch3_ov, self.ch4_ov, self.ch1_uv, self.ch2_uv, self.ch3_uv, self.ch4_uv);
        let l = make_flag_byte(self.ch1_op, self.ch2_op, self.ch3_op, self.ch4_op, self.acc_ovf, self.acc_count, self.alert_cc1, false);
        (h << 16u64) | (m << 8u64) | l
    }

    fn of_word(w: u64) -> (r: SlowAlert1)
        ensures
            r == SlowAlert1::from_word(w),
    {
        SlowAlert1 {
            ch1_oc: test_bit(w, 23),
            ch2_oc: test_bit(w, 22),
            ch3_oc: test_bit(w, 21),
            ch4_oc: test_bit(w, 20),
            ch1_uc: test_bit(w, 19),
            ch2_uc: test_bit(w, 18),
            ch3_uc: test_bit(w, 17),
            ch4_uc: test_bit(w, 16),
            ch1_ov: test_bit(w, 15),
            ch2_ov: test_bit(w, 14),
            ch3_ov: test_bit(w, 13),
            ch4_ov: test_bit(w, 12),
            ch1_uv: test_bit(w, 11),
            ch2_uv: test_bit(w, 10),
            ch3_uv: test_bit(w, 9),
            ch4_uv: test_bit(w, 8),
            ch1_op: test_bit(w, 7),
            ch2_op: test_bit(w, 6),
            ch3_op: test_bit(w, 5),
            ch4_op: test_bit(w, 4),
            acc_ovf: test_bit(w, 3),
            acc_count: test_bit(w, 2),
            alert_cc1: test_bit(w, 1),
        }
    }
}

impl Register for SlowAlert1 {
    open spec fn spec_addr() -> Address {
        Address::SlowAlert1
    }

    open spec fn spec_size() -> nat {
        3
    }

    open spec fn wf(self) -> bool {
        true
    }

    open spec fn encode(self) -> Seq<u8> {
        bytes_of(self.word(), 3)
    }

    open spec fn valid_codes(bytes: Seq<u8>) -> bool {
        true
    }

    open spec fn decode(bytes: Seq<u8>) -> SlowAlert1 {
        SlowAlert1::from_word(word_of(bytes))
    }

    fn addr() -> Address {
        Address::SlowAlert1
    }

    fn size() -> usize {
        3
    }

    fn pack(&self) -> Vec<u8> {
        to_be_bytes(self.to_word(), 3)
    }

    fn unpack(bytes: &[u8]) -> Result<SlowAlert1, DecodingError> {
        Ok(SlowAlert1::of_word(from_be_bytes(bytes)))
    }
}

impl WritableRegister for SlowAlert1 {

}

/// Routes ALERT signals to the GPIO/ALERT2 pin. 23 flags from bit 23 down; bit 0 is
/// unused.
#[derive(Clone, Copy, Debug, PartialEq, Eq, Structural)]
pub struct GpioAlert2 {
    pub ch1_oc: bool,
    pub ch2_oc: bool,
    pub ch3_oc: bool,
    pub ch4_oc: bool,
    pub ch1_uc: bool,
    pub ch2_uc: bool,
    pub ch3_uc: bool,
    pub ch4_uc: bool,
    pub ch1_ov: bool,
    pub ch2_ov: bool,
    pub ch3_ov: bool,
    pub ch4_ov: bool,
    pub ch1_uv: bool,
    pub ch2_uv: bool,
    pub ch3_uv: bool,
    pub ch4_uv: bool,
    pub ch1_op: bool,
    pub ch2_op: bool,
    pub ch3_op: bool,
    pub ch4_op: bool,
    /// The accumulator of a channel overflowed or exceeded its fullness limit.
    pub acc_ovf: bool,
    /// The accumulator count overflowed or exceeded its fullness limit.
    pub acc_count: bool,
    /// Assert the GPIO/ALERT2 pin for 5 us at the end of each conversion cycle.
    pub alert_cc2: bool,
}

impl GpioAlert2 {
    /// The register word: the flags from bit 23 down, three bytes of eight.
    pub open spec fn word(self) -> u64 {
        (flag_byte(self.ch1_oc, self.ch2_oc, self.ch3_oc, self.ch4_oc, self.ch1_uc, self.ch2_uc, self.ch3_uc, self.ch4_uc) << 16u64)
            | (flag_byte(self.ch1_ov, self.ch2_ov, self.ch3_ov, self.ch4_ov, self.ch1_uv, self.ch2_uv, self.ch3_uv, self.ch4_uv) << 8u64)
            | flag_byte(self.ch1_op, self.ch2_op, self.ch3_op, self.ch4_op, self.acc_ovf, self.acc_count, self.alert_cc2, false)
    }

    /// The flags that the register word `w` holds.
    pub open spec fn from_word(w: u64) -> GpioAlert2 {
        GpioAlert2 {
            ch1_oc: bit_set(w, 23),
            ch2_oc: bit_set(w, 22),
            ch3_oc: bit_set(w, 21),
            ch4_oc: bit_set(w, 20),
            ch1_uc: bit_set(w, 19),
            ch2_uc: bit_set(w, 18),
            ch3_uc: bit_set(w, 17),
            ch4_uc: bit_set(w, 16),
            ch1_ov: bit_set(w, 15),
            ch2_ov: bit_set(w, 14),
            ch3_ov: bit_set(w, 13),
            ch4_ov: bit_set(w, 12),
            ch1_uv: bit_set(w, 11),
            ch2_uv: bit_set(w, 10),
            ch3_uv: bit_set(w, 9),
            ch4_uv: bit_set(w, 8),
            ch1_op: bit_set(w, 7),
            ch2_op: bit_set(w, 6),
            ch3_op: bit_set(w, 5),
            ch4_op: bit_set(w, 4),
            acc_ovf: bit_set(w, 3),
            acc_count: bit_set(w, 2),
            alert_cc2: bit_set(w, 1),
        }
    }

    fn to_word(&self) -> (r: u64)
        ensures
            r == self.word(),
    {
        let h = make_flag_byte(self.ch1_oc, self.ch2_oc, self.ch3_oc, self.ch4_oc, self.ch1_uc, self.ch2_uc, self.ch3_uc, self.ch4_uc);
        let m = make_flag_byte(self.ch1_ov, self.ch2_ov, self.ch3_ov, self.ch4_ov, self.ch1_uv, self.ch2_uv, self.ch3_uv, self.ch4_uv);
        let l = make_flag_byte(self.ch1_op, self.ch2_op, self.ch3_op, self.ch4_op, self.acc_ovf, self.acc_count, self.alert_cc2, false);
        (h << 16u64) | (m << 8u64) | l
    }

    fn of_word(w: u64) -> (r: GpioAlert2)
        ensures
            r == GpioAlert2::from_word(w),
    {
        GpioAlert2 {
            ch1_oc: test_bit(w, 23),
            ch2_oc: test_bit(w, 22),
            ch3_oc: test_bit(w, 21),
            ch4_oc: test_bit(w, 20),
            ch1_uc: test_bit(w, 19),
            ch2_uc: test_bit(w, 18),
            ch3_uc: test_bit(w, 17),
            ch4_uc: test_bit(w, 16),
            ch1_ov: test_bit(w, 15),
            ch2_ov: test_bit(w, 14),
            ch3_ov: test_bit(w, 13),
            ch4_ov: test_bit(w, 12),
            ch1_uv: test_bit(w, 11),
            ch2_uv: test_bit(w, 10),
            ch3_uv: test_bit(w, 9),
            ch4_uv: test_bit(w, 8),
            ch1_op: test_bit(w, 7),
            ch2_op: test_bit(w, 6),
            ch3_op: test_bit(w, 5),
            ch4_op: test_bit(w, 4),
            acc_ovf: test_bit(w, 3),
            acc_count: test_bit(w, 2),
            alert_cc2: test_bit(w, 1),
        }
    }
}

impl Register for GpioAlert2 {
    open spec fn spec_addr() -> Address {
        Address::GpioAlert2
    }

    open spec fn spec_size() -> nat {
        3
    }

    open spec fn wf(self) -> bool {
        true
    }

    open spec fn encode(self) -> Seq<u8> {
        bytes_of(self.word(), 3)
    }

    open spec fn valid_codes(bytes: Seq<u8>) -> bool {
        true
    }

    open spec fn decode(bytes: Seq<u8>) -> GpioAlert2 {
        GpioAlert2::from_word(word_of(bytes))
    }

    fn addr() -> Address {
        Address::GpioAlert2
    }

    fn size() -> usize {
        3
    }

    fn pack(&self) -> Vec<u8> {
        to_be_bytes(self.to_word(), 3)
    }

    fn unpack(bytes: &[u8]) -> Result<GpioAlert2, DecodingError> {
        Ok(GpioAlert2::of_word(from_be_bytes(bytes)))
    }
}

impl WritableRegister for GpioAlert2 {

}

/// Enables ALERT functions; they must be enabled here before they can be routed to a pin.
/// A REFRESH (or REFRESH_V/G) is required to activate them. 23 flags from bit 23 down; bit
/// 0 is unused.
#[derive(Clone, Copy, Debug, PartialEq, Eq, Structural)]
pub struct AlertEnable {
    pub ch1_oc: bool,
    pub ch2_oc: bool,
    pub ch3_oc: bool,
    pub ch4_oc: bool,
    pub ch1_uc: bool,
    pub ch2_uc: bool,
    pub ch3_uc: bool,
    pub ch4_uc: bool,
    pub ch1_ov: bool,
    pub ch2_ov: bool,
    pub ch3_ov: bool,
    pub ch4_ov: bool,
    pub ch1_uv: bool,
    pub ch2_uv: bool,
    pub ch3_uv: bool,
    pub ch4_uv: bool,
    pub ch1_op: bool,
    pub ch2_op: bool,
    pub ch3_op: bool,
    pub ch4_op: bool,
    /// The accumulator of a channel overflowed or exceeded its fullness limit.
    pub acc_ovf: bool,
    /// The accumulator count overflowed or exceeded its fullness limit.
    pub acc_count: bool,
    /// Enable the end-of-conversion-cycle ALERT.
    pub alert_cc: bool,
}

impl AlertEnable {
    /// The register word: the flags from bit 23 down, three bytes of eight.
    pub open spec fn word(self) -> u64 {
        (flag_byte(self.ch1_oc, self.ch2_oc, self.ch3_oc, self.ch4_oc, self.ch1_uc, self.ch2_uc, self.ch3_uc, self.ch4_uc) << 16u64)
            | (flag_byte(self.ch1_ov, self.ch2_ov, self.ch3_ov, self.ch4_ov, self.ch1_uv, self.ch2_uv, self.ch3_uv, self.ch4_uv) << 8u64)
            | flag_byte(self.ch1_op, self.ch2_op, self.ch3_op, self.ch4_op, self.acc_ovf, self.acc_count, self.alert_cc, false)
    }

    /// The flags that the register word `w` holds.
    pub open spec fn from_word(w: u64) -> AlertEnable {
        AlertEnable {
            ch1_oc: bit_set(w, 23),
            ch2_oc: bit_set(w, 22),
            ch3_oc: bit_set(w, 21),
            ch4_oc: bit_set(w, 20),
            ch1_uc: bit_set(w, 19),
            ch2_uc: bit_set(w, 18),
            ch3_uc: bit_set(w, 17),
            ch4_uc: bit_set(w, 16),
            ch1_ov: bit_set(w, 15),
            ch2_ov: bit_set(w, 14),
            ch3_ov: bit_set(w, 13),
            ch4_ov: bit_set(w, 12),
            ch1_uv: bit_set(w, 11),
            ch2_uv: bit_set(w, 10),
            ch3_uv: bit_set(w, 9),
            ch4_uv: bit_set(w, 8),
            ch1_op: bit_set(w, 7),
            ch2_op: bit_set(w, 6),
            ch3_op: bit_set(w, 5),
            ch4_op: bit_set(w, 4),
            acc_ovf: bit_set(w, 3),
            acc_count: bit_set(w, 2),
            alert_cc: bit_set(w, 1),
        }
    }

    fn to_word(&self) -> (r: u64)
        ensures
            r == self.word(),
    {
        let h = make_flag_byte(self.ch1_oc, self.ch2_oc, self.ch3_oc, self.ch4_oc, self.ch1_uc, self.ch2_uc, self.ch3_uc, self.ch4_uc);
        let m = make_flag_byte(self.ch1_ov, self.ch2_ov, self.ch3_ov, self.ch4_ov, self.ch1_uv, self.ch2_uv, self.ch3_uv, self.ch4_uv);
        let l = make_flag_byte(self.ch1_op, self.ch2_op, self.ch3_op, self.ch4_op, self.acc_ovf, self.acc_count, self.alert_cc, false);
        (h << 16u64) | (m << 8u64) | l
    }

    fn of_word(w: u64) -> (r: AlertEnable)
        ensures
            r == AlertEnable::from_word(w),
    {
        AlertEnable {
            ch1_oc: test_bit(w, 23),
            ch2_oc: test_bit(w, 22),
            ch3_oc: test_bit(w, 21),
            ch4_oc: test_bit(w, 20),
            ch1_uc: test_bit(w, 19),
            ch2_uc: test_bit(w, 18),
            ch3_uc: test_bit(w, 17),
            ch4_uc: test_bit(w, 16),
            ch1_ov: test_bit(w, 15),
            ch2_ov: test_bit(w, 14),
            ch3_ov: test_bit(w, 13),
            ch4_ov: test_bit(w, 12),
            ch1_uv: test_bit(w, 11),
            ch2_uv: test_bit(w, 10),
            ch3_uv: test_bit(w, 9),
            ch4_uv: test_bit(w, 8),
            ch1_op: test_bit(w, 7),
            ch2_op: test_bit(w, 6),
            ch3_op: test_bit(w, 5),
            ch4_op: test_bit(w, 4),
            acc_ovf: test_bit(w, 3),
            acc_count: test_bit(w, 2),
            alert_cc: test_bit(w, 1),
        }
    }
}

impl Register for AlertEnable {
    open spec fn spec_addr() -> Address {
        Address::AlertEnable
    }

    open spec fn spec_size() -> nat {
        3
    }

    open spec fn wf(self) -> bool {
        true
    }

    open spec fn encode(self) -> Seq<u8> {
        bytes_of(self.word(), 3)
    }

    open spec fn valid_codes(bytes: Seq<u8>) -> bool {
        true
    }

    open spec fn decode(bytes: Seq<u8>) -> AlertEnable {
        AlertEnable::from_word(word_of(bytes))
    }

    fn addr() -> Address {
        Address::AlertEnable
    }

    fn size() -> usize {
        3
    }

    fn pack(&self) -> Vec<u8> {
        to_be_bytes(self.to_word(), 3)
    }

    fn unpack(bytes: &[u8]) -> Result<AlertEnable, DecodingError> {
        Ok(AlertEnable::of_word(from_be_bytes(bytes)))
    }
}

impl WritableRegister for AlertEnable {

}

} // verus!
