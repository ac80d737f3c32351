//! The driver's side of the bus protocol: which transaction each operation issues, and
//! how the bytes that come back are read.
//!
//! A [`Device`] only describes transactions; a transport carries each one out and hands
//! back the bytes it read, which the register types then unpack.

use vstd::prelude::*;
use crate::error::{DecodingError, RangeError};
use crate::register::{Address, ChannelRegister, Register, WritableRegister};

verus! {

/// The bus address that every device answers to: a write to it reaches all of them.
pub const GENERAL_CALL_ADDRESS: u8 = 0;

/// Address select resistor value.
///
/// `GND` is a zero-ohm resistor where `ADDRSEL` is connected to ground.
/// `VDD` is when `ADDRSEL` is connected directly to the power rail.
#[derive(Clone, Copy, Debug, PartialEq, Eq, Structural)]
pub enum AddrSelect {
    GND,
    _499,
    _806,
    _1270,
    _2050,
    _3240,
    _5230,
    _8450,
    _13300,
    _21500,
    _34000,
    _54900,
    _88700,
    _140000,
    _226000,
    VDD,
}

impl AddrSelect {
    /// The bus address that the resistor selects, from `0b10000` for `GND` up to
    /// `0b11111` for `VDD`.
    pub open spec fn spec_bus_address(self) -> u8 {
        match self {
            AddrSelect::GND => 0x10,
            AddrSelect::_499 => 0x11,
            AddrSelect::_806 => 0x12,
            AddrSelect::_1270 => 0x13,
            AddrSelect::_2050 => 0x14,
            AddrSelect::_3240 => 0x15,
            AddrSelect::_5230 => 0x16,
            AddrSelect::_8450 => 0x17,
            AddrSelect::_13300 => 0x18,
            AddrSelect::_21500 => 0x19,
            AddrSelect::_34000 => 0x1A,
            AddrSelect::_54900 => 0x1B,
            AddrSelect::_88700 => 0x1C,
            AddrSelect::_140000 => 0x1D,
            AddrSelect::_226000 => 0x1E,
            AddrSelect::VDD => 0x1F,
        }
    }

    /// The bus address that the resistor selects.
    pub fn bus_address(&self) -> (r: u8)
        ensures
            r == self.spec_bus_address(),
            0x10 <= r <= 0x1F,
    {
        match self {
            AddrSelect::GND => 0x10,
            AddrSelect::_499 => 0x11,
            AddrSelect::_806 => 0x12,
            AddrSelect::_1270 => 0x13,
            AddrSelect::_2050 => 0x14,
            AddrSelect::_3240 => 0x15,
            AddrSelect::_5230 => 0x16,
            AddrSelect::_8450 => 0x17,
            AddrSelect::_13300 => 0x18,
            AddrSelect::_21500 => 0x19,
            AddrSelect::_34000 => 0x1A,
            AddrSelect::_54900 => 0x1B,
            AddrSelect::_88700 => 0x1C,
            AddrSelect::_140000 => 0x1D,
            AddrSelect::_226000 => 0x1E,
            AddrSelect::VDD => 0x1F,
        }
    }
}

/// The Product ID of the connected part.
#[derive(Clone, Copy, Debug, PartialEq, Eq, Structural)]
pub enum ProductId {
    PAC1941_1,
    PAC1942_1,
    PAC1943_1,
    PAC1944_1,
    PAC1941_2,
    PAC1942_2,
}

impl ProductId {
    /// The part whose Product ID register reads `b`, if any.
    pub open spec fn spec_from_byte(b: u8) -> Option<ProductId> {
        if b == 0x68 {
            Some(ProductId::PAC1941_1)
        } else if b == 0x69 {
            Some(ProductId::PAC1942_1)
        } else if b == 0x6A {
            Some(ProductId::PAC1943_1)
        } else if b == 0x6B {
            Some(ProductId::PAC1944_1)
        } else if b == 0x6C {
            Some(ProductId::PAC1941_2)
        } else if b == 0x6D {
            Some(ProductId::PAC1942_2)
        } else {
            None
        }
    }

    /// The part whose Product ID register reads `b`; a byte that names no known part
    /// does not decode.
    pub fn from_byte(b: u8) -> (r: Result<ProductId, DecodingError>)
        ensures
            r is Ok <==> ProductId::spec_from_byte(b) is Some,
            r is Ok ==> Some(r->Ok_0) == ProductId::spec_from_byte(b),
    {
        match b {
            0x68 => Ok(ProductId::PAC1941_1),
            0x69 => Ok(ProductId::PAC1942_1),
            0x6A => Ok(ProductId::PAC1943_1),
            0x6B => Ok(ProductId::PAC1944_1),
            0x6C => Ok(ProductId::PAC1941_2),
            0x6D => Ok(ProductId::PAC1942_2),
            _ => Err(DecodingError),
        }
    }
}

/// The address of channel `n` of a family whose channel 1 is at `base`.
///
/// Defined for channels 1 to 4 only: any other channel is refused before any bus
/// activity.
pub fn resolve(base: u8, n: u8) -> (r: Result<u8, RangeError>)
    requires
        base + 3 <= 0xFF,
    ensures
        r is Ok <==> 1 <= n <= 4,
        r is Ok ==> r->Ok_0 == base + n - 1,
{
    if 1 <= n && n <= 4 {
        Ok(base + (n - 1))
    } else {
        Err(RangeError)
    }
}

/// One bus transaction, addressed to one device (or to all, at the general call
/// address).
#[derive(Clone, Debug, PartialEq, Eq)]
pub enum Transaction {
    /// Write `bytes` to the device in one transaction.
    Write { address: u8, bytes: Vec<u8> },
    /// Read `len` bytes from the device.
    Read { address: u8, len: usize },
    /// Write `bytes`, then read `len` bytes, in one combined transaction.
    WriteRead { address: u8, bytes: Vec<u8>, len: usize },
}

impl Transaction {
    /// A write of `bytes` to `address`.
    pub open spec fn is_write(self, address: u8, bytes: Seq<u8>) -> bool {
        match self {
            Transaction::Write { address: a, bytes: b } => a == address && b@ == bytes,
            _ => false,
        }
    }

    /// A read of `len` bytes from `address`.
    pub open spec fn is_read(self, address: u8, len: nat) -> bool {
        match self {
            Transaction::Read { address: a, len: l } => a == address && l == len,
            _ => false,
        }
    }

    /// A write of `bytes` to `address` followed by a read of `len` bytes.
    pub open spec fn is_write_read(self, address: u8, bytes: Seq<u8>, len: nat) -> bool {
        match self {
            Transaction::WriteRead { address: a, bytes: b, len: l } => a == address && b@
                == bytes && l == len,
            _ => false,
        }
    }
}

/// A PAC194X on the bus, known by its address.
#[derive(Clone, Copy, Debug, PartialEq, Eq)]
pub struct Device {
    address: u8,
}

impl Device {
    /// The device's bus address.
    pub closed spec fn spec_address(self) -> u8 {
        self.address
    }

    /// The device that the address select resistor `addr_sel` puts on the bus.
    pub fn new(addr_sel: AddrSelect) -> (r: Device)
        ensures
            r.spec_address() == addr_sel.spec_bus_address(),
    {
        Device { address: addr_sel.bus_address() }
    }

    /// The device's bus address.
    pub fn address(&self) -> (r: u8)
        ensures
            r == self.spec_address(),
    {
        self.address
    }

    /// The send byte protocol sets the internal address register pointer to `reg`. No
    /// data is transferred.
    pub fn send_byte(&self, reg: Address) -> (t: Transaction)
        ensures
            t.is_write(self.spec_address(), seq![reg.spec_value()]),
    {
        let r = vec![reg.value()];
        assert(r@ =~= seq![reg.spec_value()]);
        Transaction::Write { address: self.address, bytes: r }
    }

    /// The receive byte protocol reads one byte from the register that the address
    /// pointer is already at (e.g. set via `send_byte`).
    pub fn receive_byte(&self) -> (t: Transaction)
        ensures
            t.is_read(self.spec_address(), 1),
    {
        Transaction::Read { address: self.address, len: 1 }
    }

    /// Block write: the register address `reg`, then `payload`, in one transaction.
    pub fn block_write(&self, reg: u8, payload: &Vec<u8>) -> (t: Transaction)
        ensures
            t.is_write(self.spec_address(), seq![reg] + payload@),
    {
        let mut bytes: Vec<u8> = Vec::new();
        bytes.push(reg);
        let mut i: usize = 0;
        while i < payload.len()
            invariant
                i <= payload@.len(),
                bytes@ =~= seq![reg] + payload@.take(i as int),
            decreases payload@.len() - i,
        {
            bytes.push(payload[i]);
            i = i + 1;
            assert(bytes@ =~= seq![reg] + payload@.take(i as int));
        }
        assert(payload@.take(payload@.len() as int) =~= payload@);
        Transaction::Write { address: self.address, bytes }
    }

    /// Block read: write the register address `reg`, then read `len` bytes back, in one
    /// combined transaction.
    pub fn block_read(&self, reg: u8, len: usize) -> (t: Transaction)
        ensures
            t.is_write_read(self.spec_address(), seq![reg], len as nat),
    {
        let r = vec![reg];
        assert(r@ =~= seq![reg]);
        Transaction::WriteRead { address: self.address, bytes: r, len }
    }

    /// Refreshes the device: the accumulator data, accumulator count, Vbus and Vsense
    /// measurements are all refreshed and the accumulators are reset. The host must
    /// wait 1 ms before reading accumulator or Vbus/Vsense data.
    pub fn refresh(&self) -> (t: Transaction)
        ensures
            t.is_write(self.spec_address(), seq![0x00u8]),
    {
        self.send_byte(Address::Refresh)
    }

    /// Refreshes the device without resetting the accumulators.
    pub fn refresh_v(&self) -> (t: Transaction)
        ensures
            t.is_write(self.spec_address(), seq![0x1Fu8]),
    {
        self.send_byte(Address::RefreshV)
    }

    /// Refreshes every PAC194X on the bus by sending REFRESH_G to the general call
    /// address.
    pub fn refresh_g(&self) -> (t: Transaction)
        ensures
            t.is_write(GENERAL_CALL_ADDRESS, seq![0x1Eu8]),
    {
        let r = vec![Address::RefreshG.value()];
        assert(r@ =~= seq![0x1Eu8]);
        Transaction::Write { address: GENERAL_CALL_ADDRESS, bytes: r }
    }

    /// Reads register `R`: its address, then its bytes.
    pub fn read_request<R: Register>(&self) -> (t: Transaction)
        ensures
            t.is_write_read(self.spec_address(), seq![R::spec_addr().spec_value()], R::spec_size()),
    {
        self.block_read(R::addr().value(), R::size())
    }

    /// Reads channel `n` of the register family `R`; a channel outside `1..=4` is
    /// refused before any transaction.
    pub fn read_request_n<R: ChannelRegister>(&self, n: u8) -> (r: Result<Transaction, RangeError>)
        ensures
            r is Ok <==> 1 <= n <= 4,
            r is Ok ==> r->Ok_0.is_write_read(
                self.spec_address(),
                seq![(R::spec_addr().spec_value() + n - 1) as u8],
                R::spec_size(),
            ),
    {
        proof {
            R::lemma_family_fits();
        }
        match resolve(R::addr().value(), n) {
            Ok(a) => Ok(self.block_read(a, R::size())),
            Err(e) => Err(e),
        }
    }

    /// Writes `value` into register `R`: its address, then its packed bytes.
    pub fn write_request<R: WritableRegister>(&self, value: &R) -> (t: Transaction)
        ensures
            t.is_write(self.spec_address(), seq![R::spec_addr().spec_value()] + value.encode()),
    {
        let payload = value.pack();
        self.block_write(R::addr().value(), &payload)
    }

    /// Writes `value` into channel `n` of the register family `R`; a channel outside
    /// `1..=4` is refused before any transaction.
    pub fn write_request_n<R: WritableRegister + ChannelRegister>(&self, value: &R, n: u8) -> (r: Result<Transaction, RangeError>)
        ensures
            r is Ok <==> 1 <= n <= 4,
            r is Ok ==> r->Ok_0.is_write(
                self.spec_address(),
                seq![(R::spec_addr().spec_value() + n - 1) as u8] + value.encode(),
            ),
    {
        proof {
            R::lemma_family_fits();
        }
        match resolve(R::addr().value(), n) {
            Ok(a) => {
                let payload = value.pack();
                Ok(self.block_write(a, &payload))
            },
            Err(e) => Err(e),
        }
    }
}

} // verus!
