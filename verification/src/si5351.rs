//! Driver for the Si5351 any-frequency clock generator, programmed over
//! I2C.
//!
//! The chip derives up to eight output clocks from a crystal through two
//! PLLs and per-output multisynth dividers. The driver computes divider
//! and feedback coefficients and writes them into the chip's register
//! map through the [`I2cBus`] port.

use vstd::prelude::*;

use crate::i2c::BusTransaction;
use crate::i2c::ErrorKind;
use crate::i2c::I2cBus;
use crate::i2c::OpModel;
use crate::i2c::bus_write;
use crate::i2c::bus_write_read;

verus! {

#[derive(Clone, Copy, PartialEq, Eq, Structural, Debug)]
pub enum Error {
    CommunicationError,
    InvalidParameter,
}

impl Error {
    /// Human-readable form of the error.
    pub fn message(&self) -> (s: &'static str)
        ensures
            *self is CommunicationError ==> s@ == "Communication Error"@,
            *self is InvalidParameter ==> s@ == "Invalid Parameter"@,
    {
        match self {
            Error::CommunicationError => "Communication Error",
            Error::InvalidParameter => "Invalid Parameter",
        }
    }
}

#[derive(Clone, Copy, PartialEq, Eq, Structural, Debug)]
pub enum CrystalLoad {
    _6,
    _8,
    _10,
}

#[derive(Clone, Copy, PartialEq, Eq, Structural, Debug)]
pub enum PLL {
    A,
    B,
}

#[derive(Clone, Copy, PartialEq, Eq, Structural, Debug)]
pub enum FeedbackMultisynth {
    MSNA,
    MSNB,
}

#[derive(Clone, Copy, PartialEq, Eq, Structural, Debug)]
pub enum Multisynth {
    MS0,
    MS1,
    MS2,
    MS3,
    MS4,
    MS5,
}

#[derive(Clone, Copy, PartialEq, Eq, Structural, Debug)]
pub enum SimpleMultisynth {
    MS6,
    MS7,
}

#[derive(Clone, Copy, PartialEq, Eq, Structural, Debug)]
pub enum ClockOutput {
    Clk0,
    Clk1,
    Clk2,
    Clk3,
    Clk4,
    Clk5,
    Clk6,
    Clk7,
}

#[derive(Clone, Copy, PartialEq, Eq, Structural, Debug)]
pub enum OutputDivider {
    Div1,
    Div2,
    Div4,
    Div8,
    Div16,
    Div32,
    Div64,
    Div128,
}

/// The chip's fixed 7-bit base address.
pub const ADDRESS: u8 = 0x60;

impl PLL {
    /// The feedback multisynth fed by this PLL.
    pub fn multisynth(&self) -> (ms: FeedbackMultisynth)
        ensures
            *self is A ==> ms == FeedbackMultisynth::MSNA,
            *self is B ==> ms == FeedbackMultisynth::MSNB,
    {
        match *self {
            PLL::A => FeedbackMultisynth::MSNA,
            PLL::B => FeedbackMultisynth::MSNB,
        }
    }
}

/// A multisynth with a fractional divider: its coefficients occupy eight
/// consecutive registers at a fixed base address, and it owns one bit
/// position in the driver's bookkeeping masks.
pub trait FractionalMultisynth: Sized + Copy {
    spec fn spec_base_addr(self) -> int;

    spec fn spec_ix(self) -> int;

    fn base_addr(&self) -> (a: u8)
        ensures
            a as int == self.spec_base_addr(),
    ;

    fn ix(&self) -> (i: u8)
        ensures
            i as int == self.spec_ix(),
            0 <= i < 8,
    ;
}

impl FractionalMultisynth for FeedbackMultisynth {
    open spec fn spec_base_addr(self) -> int {
        match self {
            FeedbackMultisynth::MSNA => 26,
            FeedbackMultisynth::MSNB => 34,
        }
    }

    open spec fn spec_ix(self) -> int {
        match self {
            FeedbackMultisynth::MSNA => 6,
            FeedbackMultisynth::MSNB => 7,
        }
    }

    fn base_addr(&self) -> u8 {
        match *self {
            FeedbackMultisynth::MSNA => 26,
            FeedbackMultisynth::MSNB => 34,
        }
    }

    fn ix(&self) -> u8 {
        match *self {
            FeedbackMultisynth::MSNA => 6,
            FeedbackMultisynth::MSNB => 7,
        }
    }
}

impl FractionalMultisynth for Multisynth {
    open spec fn spec_base_addr(self) -> int {
        match self {
            Multisynth::MS0 => 42,
            Multisynth::MS1 => 50,
            Multisynth::MS2 => 58,
            Multisynth::MS3 => 66,
            Multisynth::MS4 => 74,
            Multisynth::MS5 => 82,
        }
    }

    open spec fn spec_ix(self) -> int {
        match self {
            Multisynth::MS0 => 0,
            Multisynth::MS1 => 1,
            Multisynth::MS2 => 2,
            Multisynth::MS3 => 3,
            Multisynth::MS4 => 4,
            Multisynth::MS5 => 5,
        }
    }

    fn base_addr(&self) -> u8 {
        match *self {
            Multisynth::MS0 => 42,
            Multisynth::MS1 => 50,
            Multisynth::MS2 => 58,
            Multisynth::MS3 => 66,
            Multisynth::MS4 => 74,
            Multisynth::MS5 => 82,
        }
    }

    fn ix(&self) -> u8 {
        match *self {
            Multisynth::MS0 => 0,
            Multisynth::MS1 => 1,
            Multisynth::MS2 => 2,
            Multisynth::MS3 => 3,
            Multisynth::MS4 => 4,
            Multisynth::MS5 => 5,
        }
    }
}

impl SimpleMultisynth {
    /// Register address of this integer-only multisynth's divider.
    pub fn base_addr(&self) -> (a: u8)
        ensures
            *self is MS6 ==> a == 90,
            *self is MS7 ==> a == 91,
    {
        match *self {
            SimpleMultisynth::MS6 => 90,
            SimpleMultisynth::MS7 => 91,
        }
    }
}

/// The chip's register map, as far as the driver touches it.
#[derive(Clone, Copy, PartialEq, Eq, Structural, Debug)]
pub enum Register {
    DeviceStatus,
    OutputEnable,
    Clk0,
    Clk1,
    Clk2,
    Clk3,
    Clk4,
    Clk5,
    Clk6,
    Clk7,
    Clk0PhOff,
    Clk1PhOff,
    Clk2PhOff,
    Clk3PhOff,
    Clk4PhOff,
    Clk5PhOff,
    PLLReset,
    CrystalLoad,
}

pub open spec fn spec_register_addr(reg: Register) -> int {
    match reg {
        Register::DeviceStatus => 0,
        Register::OutputEnable => 3,
        Register::Clk0 => 16,
        Register::Clk1 => 17,
        Register::Clk2 => 18,
        Register::Clk3 => 19,
        Register::Clk4 => 20,
        Register::Clk5 => 21,
        Register::Clk6 => 22,
        Register::Clk7 => 23,
        Register::Clk0PhOff => 165,
        Register::Clk1PhOff => 166,
        Register::Clk2PhOff => 167,
        Register::Clk3PhOff => 168,
        Register::Clk4PhOff => 169,
        Register::Clk5PhOff => 170,
        Register::PLLReset => 177,
        Register::CrystalLoad => 183,
    }
}

impl Register {
    pub fn addr(&self) -> (a: u8)
        ensures
            a as int == spec_register_addr(*self),
    {
        match *self {
            Register::DeviceStatus => 0,
            Register::OutputEnable => 3,
            Register::Clk0 => 16,
            Register::Clk1 => 17,
            Register::Clk2 => 18,
            Register::Clk3 => 19,
            Register::Clk4 => 20,
            Register::Clk5 => 21,
            Register::Clk6 => 22,
            Register::Clk7 => 23,
            Register::Clk0PhOff => 165,
            Register::Clk1PhOff => 166,
            Register::Clk2PhOff => 167,
            Register::Clk3PhOff => 168,
            Register::Clk4PhOff => 169,
            Register::Clk5PhOff => 170,
            Register::PLLReset => 177,
            Register::CrystalLoad => 183,
        }
    }
}

/// The device status register, read as a raw byte.
#[derive(Clone, Copy, PartialEq, Eq, Structural, Debug)]
pub struct DeviceStatusBits {
    pub bits: u8,
}

/// System-initialization-in-progress flag of the status register.
pub const SYS_INIT: u8 = 0x80;

impl DeviceStatusBits {
    /// Whether the chip is still running its own start-up initialization.
    pub fn sys_init(&self) -> (b: bool)
        ensures
            b == (self.bits & SYS_INIT != 0),
    {
        self.bits & SYS_INIT != 0
    }
}

// Clock control register bits.
pub const CLK_PDN: u8 = 0x80;

pub const MS_INT: u8 = 0x40;

pub const MS_SRC: u8 = 0x20;

pub const CLK_SRC_MS: u8 = 0x0C;

pub const CLK_DRV_8: u8 = 0x03;

// Crystal load register bits.
pub const CRYSTAL_LOAD_RESERVED: u8 = 0x12;

pub const CL_6: u8 = 0x40;

pub const CL_8: u8 = 0x80;

pub const CL_10: u8 = 0xC0;

// PLL reset register bits.
pub const PLLB_RST: u8 = 0x80;

pub const PLLA_RST: u8 = 0x20;

impl ClockOutput {
    /// The clock-control register of this output.
    pub fn register(self) -> (reg: Register)
        ensures
            reg == spec_clock_register(self),
    {
        match self {
            ClockOutput::Clk0 => Register::Clk0,
            ClockOutput::Clk1 => Register::Clk1,
            ClockOutput::Clk2 => Register::Clk2,
            ClockOutput::Clk3 => Register::Clk3,
            ClockOutput::Clk4 => Register::Clk4,
            ClockOutput::Clk5 => Register::Clk5,
            ClockOutput::Clk6 => Register::Clk6,
            ClockOutput::Clk7 => Register::Clk7,
        }
    }

    /// Bit position of this output in the enable and bookkeeping masks.
    pub fn ix(&self) -> (i: u8)
        ensures
            i as int == spec_clock_ix(*self),
            i < 8,
    {
        match *self {
            ClockOutput::Clk0 => 0,
            ClockOutput::Clk1 => 1,
            ClockOutput::Clk2 => 2,
            ClockOutput::Clk3 => 3,
            ClockOutput::Clk4 => 4,
            ClockOutput::Clk5 => 5,
            ClockOutput::Clk6 => 6,
            ClockOutput::Clk7 => 7,
        }
    }
}

pub open spec fn spec_clock_register(clk: ClockOutput) -> Register {
    match clk {
        ClockOutput::Clk0 => Register::Clk0,
        ClockOutput::Clk1 => Register::Clk1,
        ClockOutput::Clk2 => Register::Clk2,
        ClockOutput::Clk3 => Register::Clk3,
        ClockOutput::Clk4 => Register::Clk4,
        ClockOutput::Clk5 => Register::Clk5,
        ClockOutput::Clk6 => Register::Clk6,
        ClockOutput::Clk7 => Register::Clk7,
    }
}

pub open spec fn spec_clock_ix(clk: ClockOutput) -> int {
    match clk {
        ClockOutput::Clk0 => 0,
        ClockOutput::Clk1 => 1,
        ClockOutput::Clk2 => 2,
        ClockOutput::Clk3 => 3,
        ClockOutput::Clk4 => 4,
        ClockOutput::Clk5 => 5,
        ClockOutput::Clk6 => 6,
        ClockOutput::Clk7 => 7,
    }
}

pub open spec fn spec_divider_bits(d: OutputDivider) -> u8 {
    match d {
        OutputDivider::Div1 => 0,
        OutputDivider::Div2 => 1,
        OutputDivider::Div4 => 2,
        OutputDivider::Div8 => 3,
        OutputDivider::Div16 => 4,
        OutputDivider::Div32 => 5,
        OutputDivider::Div64 => 6,
        OutputDivider::Div128 => 7,
    }
}

pub open spec fn spec_divider_denominator(d: OutputDivider) -> int {
    match d {
        OutputDivider::Div1 => 1,
        OutputDivider::Div2 => 2,
        OutputDivider::Div4 => 4,
        OutputDivider::Div8 => 8,
        OutputDivider::Div16 => 16,
        OutputDivider::Div32 => 32,
        OutputDivider::Div64 => 64,
        OutputDivider::Div128 => 128,
    }
}

/// The smallest power-of-two output divider able to divide by at least
/// `d`, or an error past the largest stage.
pub open spec fn spec_min_divider(d: int) -> Result<OutputDivider, Error> {
    if d <= 1 {
        Ok(OutputDivider::Div1)
    } else if d <= 2 {
        Ok(OutputDivider::Div2)
    } else if d <= 4 {
        Ok(OutputDivider::Div4)
    } else if d <= 8 {
        Ok(OutputDivider::Div8)
    } else if d <= 16 {
        Ok(OutputDivider::Div16)
    } else if d <= 32 {
        Ok(OutputDivider::Div32)
    } else if d <= 64 {
        Ok(OutputDivider::Div64)
    } else if d <= 128 {
        Ok(OutputDivider::Div128)
    } else {
        Err(Error::InvalidParameter)
    }
}

impl OutputDivider {
    pub fn bits(&self) -> (b: u8)
        ensures
            b == spec_divider_bits(*self),
    {
        match *self {
            OutputDivider::Div1 => 0,
            OutputDivider::Div2 => 1,
            OutputDivider::Div4 => 2,
            OutputDivider::Div8 => 3,
            OutputDivider::Div16 => 4,
            OutputDivider::Div32 => 5,
            OutputDivider::Div64 => 6,
            OutputDivider::Div128 => 7,
        }
    }

    /// The smallest divider stage covering the desired ratio.
    pub fn min_divider(desired_divider: u16) -> (r: Result<OutputDivider, Error>)
        ensures
            r == spec_min_divider(desired_divider as int),
    {
        if desired_divider <= 1 {
            Ok(OutputDivider::Div1)
        } else if desired_divider <= 2 {
            Ok(OutputDivider::Div2)
        } else if desired_divider <= 4 {
            Ok(OutputDivider::Div4)
        } else if desired_divider <= 8 {
            Ok(OutputDivider::Div8)
        } else if desired_divider <= 16 {
            Ok(OutputDivider::Div16)
        } else if desired_divider <= 32 {
            Ok(OutputDivider::Div32)
        } else if desired_divider <= 64 {
            Ok(OutputDivider::Div64)
        } else if desired_divider <= 128 {
            Ok(OutputDivider::Div128)
        } else {
            Err(Error::InvalidParameter)
        }
    }

    pub fn denominator_u8(&self) -> (d: u8)
        ensures
            d as int == spec_divider_denominator(*self),
            1 <= d,
    {
        match *self {
            OutputDivider::Div1 => 1,
            OutputDivider::Div2 => 2,
            OutputDivider::Div4 => 4,
            OutputDivider::Div8 => 8,
            OutputDivider::Div16 => 16,
            OutputDivider::Div32 => 32,
            OutputDivider::Div64 => 64,
            OutputDivider::Div128 => 128,
        }
    }
}

/// Map a bus failure to the driver's communication error.
pub fn i2c_error(_e: ErrorKind) -> (r: Error)
    ensures
        r == Error::CommunicationError,
{
    Error::CommunicationError
}

/// Output drive strength settings.
#[derive(Clone, Copy, PartialEq, Eq, Structural, Debug)]
pub enum Current {
    Output2mA,
    Output4mA,
    Output6mA,
    Output8mA,
}

pub open spec fn spec_current_bits(c: Current) -> u8 {
    match c {
        Current::Output2mA => 0,
        Current::Output4mA => 1,
        Current::Output6mA => 2,
        Current::Output8mA => 3,
    }
}

// ---------------------------------------------------------------------------
// The driver
// ---------------------------------------------------------------------------

/// Whether a fractional configuration is representable in the chip's
/// 20-bit numerator and denominator fields.
pub open spec fn spec_ms_config_params_ok(frac_num: u32, frac_denom: u32) -> bool {
    frac_denom != 0 && frac_num <= 0xfffff && frac_denom <= 0xfffff
}

/// The chip's P1/P2/P3 encoding of an integer-plus-fraction divider.
pub open spec fn spec_ms_p123(int_val: u16, frac_num: u32, frac_denom: u32) -> (int, int, int) {
    if frac_num == 0 {
        (128 * (int_val as int) - 512, 0int, 1int)
    } else {
        let ratio = 128 * (frac_num as int) / (frac_denom as int);
        (
            128 * (int_val as int) + ratio - 512,
            128 * (frac_num as int) - (frac_denom as int) * ratio,
            frac_denom as int,
        )
    }
}

/// The eight register bytes of one multisynth configuration.
pub open spec fn spec_ms_config_bytes(
    int_val: u16,
    frac_num: u32,
    frac_denom: u32,
    r_div: OutputDivider,
) -> Seq<u8> {
    let p = spec_ms_p123(int_val, frac_num, frac_denom);
    let p1 = p.0 as u32;
    let p2 = p.1 as u32;
    let p3 = p.2 as u32;
    seq![
        ((p3 & 0x0000FF00) >> 8) as u8,
        (p3 & 0xFF) as u8,
        ((((p1 & 0x00030000) >> 16) as u8) | spec_divider_bits(r_div)),
        ((p1 & 0x0000FF00) >> 8) as u8,
        (p1 & 0xFF) as u8,
        (((p3 & 0x000F0000) >> 12) | ((p2 & 0x000F0000) >> 16)) as u8,
        ((p2 & 0x0000FF00) >> 8) as u8,
        (p2 & 0xFF) as u8,
    ]
}

/// The clock-control byte of one output, from the bookkeeping masks.
pub open spec fn spec_clock_control_byte(
    enabled_mask: u8,
    int_mask: u8,
    src_mask: u8,
    clk: ClockOutput,
) -> u8 {
    let bit = 1u8 << (spec_clock_ix(clk) as u8);
    let pdn: u8 = if enabled_mask & bit != 0 {
        0
    } else {
        CLK_PDN
    };
    let ms_int: u8 = if int_mask & bit == 0 {
        0
    } else {
        MS_INT
    };
    let ms_src: u8 = if src_mask & bit == 0 {
        0
    } else {
        MS_SRC
    };
    let base: u8 = CLK_SRC_MS | CLK_DRV_8;
    pdn | ms_int | ms_src | base
}

/// A write of one register as it appears on the bus.
pub open spec fn spec_reg_write(address: u8, reg: Register, byte: u8) -> BusTransaction {
    BusTransaction {
        address,
        ops: seq![OpModel::Write(seq![spec_register_addr(reg) as u8, byte])],
    }
}

/// A write of one multisynth configuration as it appears on the bus.
pub open spec fn spec_synth_write(address: u8, base_addr: int, params: Seq<u8>) -> BusTransaction {
    BusTransaction { address, ops: seq![OpModel::Write(seq![base_addr as u8].add(params))] }
}

/// The driver state: the bus handle, the device address, the crystal
/// frequency, and the bookkeeping masks mirrored into the chip's output
/// enable and clock control registers.
pub struct Si5351Device<I2C> {
    pub i2c: I2C,
    pub address: u8,
    pub xtal_freq: u32,
    pub clk_enabled_mask: u8,
    pub ms_int_mode_mask: u8,
    pub ms_src_mask: u8,
}

impl<I2C: I2cBus> Si5351Device<I2C> {
    /// A driver for a chip on the given bus.
    pub fn new(i2c: I2C, address_bit: bool, xtal_freq: u32) -> (r: Self)
        ensures
            r.address == (ADDRESS | (if address_bit { 1u8 } else { 0u8 })),
            r.xtal_freq == xtal_freq,
            r.clk_enabled_mask == 0,
            r.ms_int_mode_mask == 0,
            r.ms_src_mask == 0,
            r.i2c == i2c,
    {
        Si5351Device {
            i2c,
            address: ADDRESS | if address_bit {
                1
            } else {
                0
            },
            xtal_freq,
            clk_enabled_mask: 0,
            ms_int_mode_mask: 0,
            ms_src_mask: 0,
        }
    }

    /// A driver configured for the common breakout module: base address
    /// and a 25 MHz crystal.
    pub fn new_adafruit_module(i2c: I2C) -> (r: Self)
        ensures
            r.address == ADDRESS,
            r.xtal_freq == 25_000_000,
            r.clk_enabled_mask == 0,
            r.ms_int_mode_mask == 0,
            r.ms_src_mask == 0,
            r.i2c == i2c,
    {
        proof {
            assert(ADDRESS | 0u8 == ADDRESS) by (bit_vector);
        }
        Si5351Device::new(i2c, false, 25_000_000)
    }

    /// Write one register: a two-byte bus write of address and value.
    pub fn write_register(&mut self, reg: Register, byte: u8) -> (r: Result<(), Error>)
        ensures
            *final(self) == (Si5351Device { i2c: final(self).i2c, ..*old(self) }),
            final(self).i2c.history() == old(self).i2c.history().push(
                spec_reg_write(old(self).address, reg, byte),
            ),
            r is Err ==> r == Err::<(), Error>(Error::CommunicationError),
    {
        let mut bytes: Vec<u8> = Vec::new();
        bytes.push(reg.addr());
        bytes.push(byte);
        proof {
            assert(bytes@ =~= seq![spec_register_addr(reg) as u8, byte]);
        }
        let res = bus_write(&mut self.i2c, self.address, &bytes);
        match res {
            Ok(()) => Ok(()),
            Err(e) => Err(i2c_error(e)),
        }
    }

    /// Read one register: a one-byte address write followed by a one-byte
    /// read. What comes back is the device's to choose.
    pub fn read_register(&mut self, reg: Register) -> (r: Result<u8, Error>)
        ensures
            *final(self) == (Si5351Device { i2c: final(self).i2c, ..*old(self) }),
            final(self).i2c.history() == old(self).i2c.history().push(
                BusTransaction {
                    address: old(self).address,
                    ops: seq![
                        OpModel::Write(seq![spec_register_addr(reg) as u8]),
                        OpModel::Read(1),
                    ],
                },
            ),
            r is Err ==> r == Err::<u8, Error>(Error::CommunicationError),
    {
        let mut addr_bytes: Vec<u8> = Vec::new();
        addr_bytes.push(reg.addr());
        proof {
            assert(addr_bytes@ =~= seq![spec_register_addr(reg) as u8]);
        }
        let mut buffer: Vec<u8> = Vec::new();
        buffer.push(0);
        let res = bus_write_read(&mut self.i2c, self.address, &addr_bytes, &mut buffer);
        match res {
            Ok(()) => Ok(buffer[0]),
            Err(e) => Err(i2c_error(e)),
        }
    }

    /// Write the eight coefficient registers of one multisynth in a
    /// single auto-incremented bus write.
    pub fn write_synth_registers<MS: FractionalMultisynth>(&mut self, ms: MS, params: [u8; 8]) -> (r:
        Result<(), Error>)
        ensures
            *final(self) == (Si5351Device { i2c: final(self).i2c, ..*old(self) }),
            final(self).i2c.history() == old(self).i2c.history().push(
                spec_synth_write(old(self).address, ms.spec_base_addr(), params@),
            ),
            r is Err ==> r == Err::<(), Error>(Error::CommunicationError),
    {
        let mut bytes: Vec<u8> = Vec::new();
        bytes.push(ms.base_addr());
        let mut k: usize = 0;
        while k < 8
            invariant
                k <= 8,
                bytes@ =~= seq![(ms.spec_base_addr()) as u8].add(params@.take(k as int)),
            decreases 8 - k,
        {
            bytes.push(params[k]);
            proof {
                assert(params@.take(k + 1) =~= params@.take(k as int).push(params@[k as int]));
            }
            k = k + 1;
        }
        proof {
            assert(params@.take(8) =~= params@);
        }
        let res = bus_write(&mut self.i2c, self.address, &bytes);
        match res {
            Ok(()) => Ok(()),
            Err(e) => Err(i2c_error(e)),
        }
    }

    /// Program one multisynth with an integer part, a 20-bit fraction and
    /// an output divider, and record its integer mode in the bookkeeping
    /// mask.
    pub fn write_ms_config<MS: FractionalMultisynth + Copy>(
        &mut self,
        ms: MS,
        int_val: u16,
        frac_num: u32,
        frac_denom: u32,
        r_div: OutputDivider,
    ) -> (r: Result<(), Error>)
        requires
            int_val >= 4,
        ensures
            !spec_ms_config_params_ok(frac_num, frac_denom) ==> r == Err::<(), Error>(
                Error::InvalidParameter,
            ) && *final(self) == *old(self),
            spec_ms_config_params_ok(frac_num, frac_denom) ==> {
                &&& final(self).i2c.history() == old(self).i2c.history().push(
                    spec_synth_write(
                        old(self).address,
                        ms.spec_base_addr(),
                        spec_ms_config_bytes(int_val, frac_num, frac_denom, r_div),
                    ),
                )
                &&& (r is Ok ==> *final(self) == (Si5351Device {
                    i2c: final(self).i2c,
                    ms_int_mode_mask: (if frac_num == 0 {
                        old(self).ms_int_mode_mask | (ms.spec_ix() as u8)
                    } else {
                        old(self).ms_int_mode_mask & !(ms.spec_ix() as u8)
                    }),
                    ..*old(self)
                }))
                &&& (r is Err ==> r == Err::<(), Error>(Error::CommunicationError) && *final(self)
                    == (Si5351Device { i2c: final(self).i2c, ..*old(self) }))
            },
    {
        if frac_denom == 0 {
            return Err(Error::InvalidParameter);
        }
        if frac_num > 0xfffff {
            return Err(Error::InvalidParameter);
        }
        if frac_denom > 0xfffff {
            return Err(Error::InvalidParameter);
        }

        let p1: u32;
        let p2: u32;
        let p3: u32;

        if frac_num == 0 {
            p1 = 128 * (int_val as u32) - 512;
            p2 = 0;
            p3 = 1;
        } else {
            proof {
                assert(128 * (frac_num as int) / (frac_denom as int) <= 128 * (frac_num as int)
                    && (frac_denom as int) * (128 * (frac_num as int) / (frac_denom as int)) <= 128
                    * (frac_num as int) && 0 <= 128 * (frac_num as int) / (frac_denom as int))
                    by (nonlinear_arith)
                    requires
                        1 <= frac_denom as int,
                        0 <= frac_num as int,
                ;
            }
            let ratio: u32 = (128u64 * (frac_num as u64) / (frac_denom as u64)) as u32;
            p1 = 128 * (int_val as u32) + ratio - 512;
            p2 = 128 * frac_num - frac_denom * ratio;
            p3 = frac_denom;
        }

        let params: [u8; 8] = [
            ((p3 & 0x0000FF00) >> 8) as u8,
            (p3 & 0xFF) as u8,
            (((p1 & 0x00030000) >> 16) as u8) | r_div.bits(),
            ((p1 & 0x0000FF00) >> 8) as u8,
            (p1 & 0xFF) as u8,
            (((p3 & 0x000F0000) >> 12) | ((p2 & 0x000F0000) >> 16)) as u8,
            ((p2 & 0x0000FF00) >> 8) as u8,
            (p2 & 0xFF) as u8,
        ];
        proof {
            assert(params@ =~= spec_ms_config_bytes(int_val, frac_num, frac_denom, r_div));
        }

        let res = self.write_synth_registers(ms, params);
        match res {
            Ok(()) => {
                if frac_num == 0 {
                    self.ms_int_mode_mask = self.ms_int_mode_mask | ms.ix();
                } else {
                    self.ms_int_mode_mask = self.ms_int_mode_mask & !ms.ix();
                }
                Ok(())
            },
            Err(e) => Err(e),
        }
    }

    /// Pulse the reset bit of one PLL.
    pub fn reset_pll(&mut self, pll: PLL) -> (r: Result<(), Error>)
        ensures
            *final(self) == (Si5351Device { i2c: final(self).i2c, ..*old(self) }),
            final(self).i2c.history() == old(self).i2c.history().push(
                spec_reg_write(
                    old(self).address,
                    Register::PLLReset,
                    (if pll is A {
                        PLLA_RST
                    } else {
                        PLLB_RST
                    }),
                ),
            ),
            r is Err ==> r == Err::<(), Error>(Error::CommunicationError),
    {
        let byte = match pll {
            PLL::A => PLLA_RST,
            PLL::B => PLLB_RST,
        };
        let res = self.write_register(Register::PLLReset, byte);
        match res {
            Ok(()) => Ok(()),
            Err(e) => Err(e),
        }
    }
}

// ---------------------------------------------------------------------------
// The chip-level interface
// ---------------------------------------------------------------------------

/// The device-facing state of the driver, as the chip-level contracts
/// see it.
#[verifier::ext_equal]
pub struct DevModel {
    pub address: u8,
    pub xtal_freq: int,
    pub clk_enabled_mask: u8,
    pub ms_int_mode_mask: u8,
    pub ms_src_mask: u8,
}

/// The divider plan for one output frequency against a 900 MHz ceiling:
/// the total divider is split into a multisynth stage of at least 6 and
/// a power-of-two output stage.
pub open spec fn spec_find_int_dividers(max_pll_freq: int, freq: int) -> Result<
    (int, OutputDivider),
    Error,
> {
    let total_divider = ((max_pll_freq / freq) as u16) as int;
    match spec_min_divider(total_divider / 900) {
        Err(e) => Err(e),
        Ok(r_div) => {
            let den = spec_divider_denominator(r_div);
            let md = (total_divider / (2 * den)) * 2;
            let ms_div = if md < 6 {
                6
            } else {
                md
            };
            if ms_div > 1800 {
                Err(Error::InvalidParameter)
            } else {
                Ok((ms_div, r_div))
            }
        },
    }
}

/// Feedback coefficients for a target PLL frequency: the integer
/// multiplier (as the chip's 8-bit field sees it) and the 20-bit
/// fractional numerator against the given denominator.
pub open spec fn spec_pll_coeffs(xtal: int, denom: int, pll_freq: int) -> (int, int) {
    (((pll_freq / xtal) as u8) as int, (pll_freq % xtal) * denom / xtal)
}

/// The status-register read as it appears on the bus.
pub open spec fn spec_status_read(address: u8) -> BusTransaction {
    BusTransaction {
        address,
        ops: seq![
            OpModel::Write(seq![spec_register_addr(Register::DeviceStatus) as u8]),
            OpModel::Read(1),
        ],
    }
}

pub open spec fn spec_crystal_load_byte(xtal_load: CrystalLoad) -> u8 {
    CRYSTAL_LOAD_RESERVED | match xtal_load {
        CrystalLoad::_6 => CL_6,
        CrystalLoad::_8 => CL_8,
        CrystalLoad::_10 => CL_10,
    }
}

/// The bus after a successful initialization: `k` status polls, then the
/// initialization writes.
pub open spec fn spec_init_bus(
    bus0: Seq<BusTransaction>,
    address: u8,
    clk_enabled_mask: u8,
    xtal_load: CrystalLoad,
    k: nat,
) -> Seq<BusTransaction> {
    bus0.add(Seq::new(k, |j: int| spec_status_read(address))).add(
        spec_init_writes(address, clk_enabled_mask, xtal_load),
    )
}

/// The write sequence of a successful initialization: all outputs
/// flushed, every clock powered down, then the crystal load set.
pub open spec fn spec_init_writes(
    address: u8,
    clk_enabled_mask: u8,
    xtal_load: CrystalLoad,
) -> Seq<BusTransaction> {
    seq![
        spec_reg_write(address, Register::OutputEnable, !clk_enabled_mask),
        spec_reg_write(address, Register::Clk0, CLK_PDN),
        spec_reg_write(address, Register::Clk1, CLK_PDN),
        spec_reg_write(address, Register::Clk2, CLK_PDN),
        spec_reg_write(address, Register::Clk3, CLK_PDN),
        spec_reg_write(address, Register::Clk4, CLK_PDN),
        spec_reg_write(address, Register::Clk5, CLK_PDN),
        spec_reg_write(address, Register::Clk6, CLK_PDN),
        spec_reg_write(address, Register::Clk7, CLK_PDN),
        spec_reg_write(address, Register::CrystalLoad, spec_crystal_load_byte(xtal_load)),
    ]
}

/// Whether a frequency request is rejected as unrepresentable: the
/// multisynth stage leaves its range, the output has no fractional
/// multisynth, or the PLL multiplier leaves the chip's 15 to 90 window.
pub open spec fn spec_set_frequency_invalid(xtal: int, clk: ClockOutput, freq: int) -> bool {
    match spec_find_int_dividers(900_000_000, freq) {
        Err(_) => true,
        Ok(p) => {
            let total = p.0 * spec_divider_denominator(p.1);
            let mult = spec_pll_coeffs(xtal, 1048575, freq * total).0;
            (clk is Clk6 || clk is Clk7) || mult < 15 || mult > 90
        },
    }
}

pub open spec fn spec_multisynth_for_clock(clk: ClockOutput) -> Multisynth {
    match clk {
        ClockOutput::Clk0 => Multisynth::MS0,
        ClockOutput::Clk1 => Multisynth::MS1,
        ClockOutput::Clk2 => Multisynth::MS2,
        ClockOutput::Clk3 => Multisynth::MS3,
        ClockOutput::Clk4 => Multisynth::MS4,
        ClockOutput::Clk5 => Multisynth::MS5,
        _ => Multisynth::MS0,
    }
}

/// The complete effect of a successful frequency change: the updated
/// bookkeeping masks and the five writes issued, in order.
pub open spec fn spec_set_frequency_effect(
    d: DevModel,
    pll: PLL,
    clk: ClockOutput,
    freq: int,
) -> (DevModel, Seq<BusTransaction>) {
    let plan = spec_find_int_dividers(900_000_000, freq);
    let ms_div = plan->Ok_0.0;
    let r_div = plan->Ok_0.1;
    let total = ms_div * spec_divider_denominator(r_div);
    let coeffs = spec_pll_coeffs(d.xtal_freq, 1048575, freq * total);
    let mult = coeffs.0;
    let num = coeffs.1;
    let msn = match pll {
        PLL::A => FeedbackMultisynth::MSNA,
        PLL::B => FeedbackMultisynth::MSNB,
    };
    let ms = spec_multisynth_for_clock(clk);
    let int1 = if num == 0 {
        d.ms_int_mode_mask | (msn.spec_ix() as u8)
    } else {
        d.ms_int_mode_mask & !(msn.spec_ix() as u8)
    };
    let int2 = int1 | (ms.spec_ix() as u8);
    let bit = 1u8 << (spec_clock_ix(clk) as u8);
    let src2 = match pll {
        PLL::A => d.ms_src_mask & !bit,
        PLL::B => d.ms_src_mask | bit,
    };
    let en2 = d.clk_enabled_mask | bit;
    let d2 = DevModel {
        clk_enabled_mask: en2,
        ms_int_mode_mask: int2,
        ms_src_mask: src2,
        ..d
    };
    let writes = seq![
        spec_synth_write(
            d.address,
            msn.spec_base_addr(),
            spec_ms_config_bytes(mult as u16, num as u32, 1048575, OutputDivider::Div1),
        ),
        spec_synth_write(
            d.address,
            ms.spec_base_addr(),
            spec_ms_config_bytes(ms_div as u16, 0, 1, r_div),
        ),
        spec_reg_write(
            d.address,
            spec_clock_register(clk),
            spec_clock_control_byte(en2, int2, src2, clk),
        ),
        spec_reg_write(
            d.address,
            Register::PLLReset,
            (if pll is A {
                PLLA_RST
            } else {
                PLLB_RST
            }),
        ),
        spec_reg_write(d.address, Register::OutputEnable, !en2),
    ];
    (d2, writes)
}

/// The chip-level operations of the clock generator.
///
/// `dev()` is the driver's device-facing state and `bus()` the
/// transactions issued so far; every operation states exactly which
/// writes it adds and how it moves the bookkeeping masks. What the chip
/// answers to a read is the chip's to choose, so success against the bus
/// is never promised, only classified.
pub trait Si5351 {
    spec fn dev(&self) -> DevModel;

    spec fn bus(&self) -> Seq<BusTransaction>;

    /// Initialize with the load capacitance of the common breakout
    /// module.
    fn init_adafruit_module(&mut self) -> (r: Result<(), Error>)
        ensures
            final(self).dev() == old(self).dev(),
            r is Err ==> r == Err::<(), Error>(Error::CommunicationError),
            r is Ok ==> exists|k: nat|
                1 <= k && final(self).bus() == #[trigger] spec_init_bus(
                    old(self).bus(),
                    old(self).dev().address,
                    old(self).dev().clk_enabled_mask,
                    CrystalLoad::_10,
                    k,
                ),
    ;

    /// Wait out the chip's own start-up initialization (a bounded number
    /// of status polls), then power every output down and set the
    /// crystal load.
    fn init(&mut self, xtal_load: CrystalLoad) -> (r: Result<(), Error>)
        ensures
            final(self).dev() == old(self).dev(),
            r is Err ==> r == Err::<(), Error>(Error::CommunicationError),
            r is Ok ==> exists|k: nat|
                1 <= k && final(self).bus() == #[trigger] spec_init_bus(
                    old(self).bus(),
                    old(self).dev().address,
                    old(self).dev().clk_enabled_mask,
                    xtal_load,
                    k,
                ),
    ;

    /// Read the device status register.
    fn read_device_status(&mut self) -> (r: Result<DeviceStatusBits, Error>)
        ensures
            final(self).dev() == old(self).dev(),
            final(self).bus() == old(self).bus().push(spec_status_read(old(self).dev().address)),
            r is Err ==> r == Err::<DeviceStatusBits, Error>(Error::CommunicationError),
    ;

    /// Find integer dividers placing the PLL as high as possible under
    /// the given ceiling.
    fn find_int_dividers_for_max_pll_freq(&self, max_pll_freq: u32, freq: u32) -> (r: Result<
        (u16, OutputDivider),
        Error,
    >)
        requires
            freq >= 1,
        ensures
            ({
                let plan = spec_find_int_dividers(max_pll_freq as int, freq as int);
                match plan {
                    Ok(p) => r is Ok && r->Ok_0.0 as int == p.0 && r->Ok_0.1 == p.1,
                    Err(e) => r == Err::<(u16, OutputDivider), Error>(e),
                }
            }),
    ;

    /// Find the PLL feedback coefficients for a total divider.
    fn find_pll_coeffs_for_dividers(&self, total_div: u32, denom: u32, freq: u32) -> (r: Result<
        (u8, u32),
        Error,
    >)
        requires
            (freq as int) * (total_div as int) <= u32::MAX,
            self.dev().xtal_freq >= 1,
        ensures
            (denom == 0 || denom > 0xfffff) ==> r == Err::<(u8, u32), Error>(
                Error::InvalidParameter,
            ),
            (denom != 0 && denom <= 0xfffff) ==> {
                let c = spec_pll_coeffs(
                    self.dev().xtal_freq,
                    denom as int,
                    (freq as int) * (total_div as int),
                );
                r is Ok && r->Ok_0.0 as int == c.0 && r->Ok_0.1 as int == c.1 && r->Ok_0.1
                    <= denom
            },
    ;

    /// Route one output clock through a PLL at the given frequency: plan
    /// the dividers, program both multisynth stages, select and reset
    /// the PLL, and enable the output.
    fn set_frequency(&mut self, pll: PLL, clk: ClockOutput, freq: u32) -> (r: Result<(), Error>)
        requires
            1 <= freq <= 150_000_000,
            old(self).dev().xtal_freq >= 1,
        ensures
            spec_set_frequency_invalid(old(self).dev().xtal_freq, clk, freq as int) ==> r
                == Err::<(), Error>(Error::InvalidParameter) && final(self).dev() == old(self).dev() && final(self).bus() == old(self).bus(),
            !spec_set_frequency_invalid(old(self).dev().xtal_freq, clk, freq as int) ==> {
                let eff = spec_set_frequency_effect(old(self).dev(), pll, clk, freq as int);
                &&& (r is Ok ==> final(self).dev() == eff.0 && final(self).bus() == old(self).bus().add(eff.1))
                &&& (r is Err ==> r == Err::<(), Error>(Error::CommunicationError))
            },
    ;

    /// Mark one output as enabled or disabled in the bookkeeping mask;
    /// flushed to the chip separately.
    fn set_clock_enabled(&mut self, clk: ClockOutput, enabled: bool)
        ensures
            final(self).bus() == old(self).bus(),
            final(self).dev() == (DevModel {
                clk_enabled_mask: (if enabled {
                    old(self).dev().clk_enabled_mask | (1u8 << (spec_clock_ix(clk) as u8))
                } else {
                    old(self).dev().clk_enabled_mask & !(1u8 << (spec_clock_ix(clk) as u8))
                }),
                ..old(self).dev()
            }),
    ;

    /// Write the output-enable register from the bookkeeping mask.
    fn flush_output_enabled(&mut self) -> (r: Result<(), Error>)
        ensures
            final(self).dev() == old(self).dev(),
            final(self).bus() == old(self).bus().push(
                spec_reg_write(
                    old(self).dev().address,
                    Register::OutputEnable,
                    !old(self).dev().clk_enabled_mask,
                ),
            ),
            r is Err ==> r == Err::<(), Error>(Error::CommunicationError),
    ;

    /// Write one output's clock-control register from the bookkeeping
    /// masks.
    fn flush_clock_control(&mut self, clk: ClockOutput) -> (r: Result<(), Error>)
        ensures
            final(self).dev() == old(self).dev(),
            final(self).bus() == old(self).bus().push(
                spec_reg_write(
                    old(self).dev().address,
                    spec_clock_register(clk),
                    spec_clock_control_byte(
                        old(self).dev().clk_enabled_mask,
                        old(self).dev().ms_int_mode_mask,
                        old(self).dev().ms_src_mask,
                        clk,
                    ),
                ),
            ),
            r is Err ==> r == Err::<(), Error>(Error::CommunicationError),
    ;

    /// Program a PLL with an integer-only multiplier.
    fn setup_pll_int(&mut self, pll: PLL, mult: u8) -> (r: Result<(), Error>)
        ensures
            (mult < 15 || mult > 90) ==> r == Err::<(), Error>(Error::InvalidParameter) && final(self).dev() == old(self).dev() && final(self).bus() == old(self).bus(),
            (15 <= mult <= 90) ==> {
                let msn = match pll {
                    PLL::A => FeedbackMultisynth::MSNA,
                    PLL::B => FeedbackMultisynth::MSNB,
                };
                &&& final(self).bus() == old(self).bus().push(
                    spec_synth_write(
                        old(self).dev().address,
                        msn.spec_base_addr(),
                        spec_ms_config_bytes(mult as u16, 0, 1, OutputDivider::Div1),
                    ),
                )
                &&& (r is Ok ==> final(self).dev() == (DevModel {
                    ms_int_mode_mask: old(self).dev().ms_int_mode_mask | (msn.spec_ix() as u8),
                    ..old(self).dev()
                }))
                &&& (r is Err ==> r == Err::<(), Error>(Error::CommunicationError) && final(self).dev() == old(self).dev())
            },
    ;

    /// Program a PLL with an integer multiplier and a 20-bit fraction.
    fn setup_pll(&mut self, pll: PLL, mult: u8, num: u32, denom: u32) -> (r: Result<(), Error>)
        ensures
            (mult < 15 || mult > 90) ==> r == Err::<(), Error>(Error::InvalidParameter) && final(self).dev() == old(self).dev() && final(self).bus() == old(self).bus(),
            (15 <= mult <= 90 && !spec_ms_config_params_ok(num, denom)) ==> r == Err::<
                (),
                Error,
            >(Error::InvalidParameter) && final(self).dev() == old(self).dev() && final(self).bus()
                == old(self).bus(),
            (15 <= mult <= 90 && spec_ms_config_params_ok(num, denom)) ==> {
                let msn = match pll {
                    PLL::A => FeedbackMultisynth::MSNA,
                    PLL::B => FeedbackMultisynth::MSNB,
                };
                &&& final(self).bus() == old(self).bus().push(
                    spec_synth_write(
                        old(self).dev().address,
                        msn.spec_base_addr(),
                        spec_ms_config_bytes(mult as u16, num, denom, OutputDivider::Div1),
                    ),
                )
                &&& (r is Ok ==> final(self).dev() == (DevModel {
                    ms_int_mode_mask: (if num == 0 {
                        old(self).dev().ms_int_mode_mask | (msn.spec_ix() as u8)
                    } else {
                        old(self).dev().ms_int_mode_mask & !(msn.spec_ix() as u8)
                    }),
                    ..old(self).dev()
                }))
                &&& (r is Err ==> r == Err::<(), Error>(Error::CommunicationError) && final(self).dev() == old(self).dev())
            },
    ;

    /// Program an output multisynth with an integer-only divider.
    fn setup_multisynth_int(&mut self, ms: Multisynth, mult: u16, r_div: OutputDivider) -> (r:
        Result<(), Error>)
        ensures
            (mult < 6 || mult > 1800) ==> r == Err::<(), Error>(Error::InvalidParameter) && final(self).dev() == old(self).dev() && final(self).bus() == old(self).bus(),
            (6 <= mult <= 1800) ==> {
                &&& final(self).bus() == old(self).bus().push(
                    spec_synth_write(
                        old(self).dev().address,
                        ms.spec_base_addr(),
                        spec_ms_config_bytes(mult, 0, 1, r_div),
                    ),
                )
                &&& (r is Ok ==> final(self).dev() == (DevModel {
                    ms_int_mode_mask: old(self).dev().ms_int_mode_mask | (ms.spec_ix() as u8),
                    ..old(self).dev()
                }))
                &&& (r is Err ==> r == Err::<(), Error>(Error::CommunicationError) && final(self).dev() == old(self).dev())
            },
    ;

    /// Program an output multisynth with an integer divider and a 20-bit
    /// fraction.
    fn setup_multisynth(
        &mut self,
        ms: Multisynth,
        div: u16,
        num: u32,
        denom: u32,
        r_div: OutputDivider,
    ) -> (r: Result<(), Error>)
        ensures
            (div < 6 || div > 1800) ==> r == Err::<(), Error>(Error::InvalidParameter) && final(self).dev() == old(self).dev() && final(self).bus() == old(self).bus(),
            (6 <= div <= 1800 && !spec_ms_config_params_ok(num, denom)) ==> r == Err::<
                (),
                Error,
            >(Error::InvalidParameter) && final(self).dev() == old(self).dev() && final(self).bus()
                == old(self).bus(),
            (6 <= div <= 1800 && spec_ms_config_params_ok(num, denom)) ==> {
                &&& final(self).bus() == old(self).bus().push(
                    spec_synth_write(
                        old(self).dev().address,
                        ms.spec_base_addr(),
                        spec_ms_config_bytes(div, num, denom, r_div),
                    ),
                )
                &&& (r is Ok ==> final(self).dev() == (DevModel {
                    ms_int_mode_mask: (if num == 0 {
                        old(self).dev().ms_int_mode_mask | (ms.spec_ix() as u8)
                    } else {
                        old(self).dev().ms_int_mode_mask & !(ms.spec_ix() as u8)
                    }),
                    ..old(self).dev()
                }))
                &&& (r is Err ==> r == Err::<(), Error>(Error::CommunicationError) && final(self).dev() == old(self).dev())
            },
    ;

    /// Route one output clock to a PLL in the bookkeeping mask.
    fn select_clock_pll(&mut self, clock: ClockOutput, pll: PLL)
        ensures
            final(self).bus() == old(self).bus(),
            final(self).dev() == (DevModel {
                ms_src_mask: (match pll {
                    PLL::A => old(self).dev().ms_src_mask & !(1u8 << (spec_clock_ix(clock) as u8)),
                    PLL::B => old(self).dev().ms_src_mask | (1u8 << (spec_clock_ix(clock) as u8)),
                }),
                ..old(self).dev()
            }),
    ;

    /// Set the phase offset of one of the first six outputs; the offset
    /// register holds half-period steps, so odd values are rejected.
    fn set_phase_offset(&mut self, clk: ClockOutput, offset: u8) -> (r: Result<(), Error>)
        ensures
            (clk is Clk6 || clk is Clk7 || offset & 1 == 1) ==> r == Err::<(), Error>(
                Error::InvalidParameter,
            ) && final(self).dev() == old(self).dev() && final(self).bus() == old(self).bus(),
            !(clk is Clk6 || clk is Clk7 || offset & 1 == 1) ==> {
                &&& final(self).dev() == old(self).dev()
                &&& final(self).bus() == old(self).bus().push(
                    spec_reg_write(old(self).dev().address, spec_phase_register(clk), offset),
                )
                &&& (r is Err ==> r == Err::<(), Error>(Error::CommunicationError))
            },
    ;

    /// Set the drive strength of one output.
    fn set_current(&mut self, clk: ClockOutput, current: Current) -> (r: Result<(), Error>)
        ensures
            final(self).dev() == old(self).dev(),
            final(self).bus() == old(self).bus().push(
                spec_reg_write(
                    old(self).dev().address,
                    spec_clock_register(clk),
                    spec_current_bits(current),
                ),
            ),
            r is Err ==> r == Err::<(), Error>(Error::CommunicationError),
    ;
}

impl<I2C: I2cBus> Si5351 for Si5351Device<I2C> {
    open spec fn dev(&self) -> DevModel {
        DevModel {
            address: self.address,
            xtal_freq: self.xtal_freq as int,
            clk_enabled_mask: self.clk_enabled_mask,
            ms_int_mode_mask: self.ms_int_mode_mask,
            ms_src_mask: self.ms_src_mask,
        }
    }

    open spec fn bus(&self) -> Seq<BusTransaction> {
        self.i2c.history()
    }

    fn init_adafruit_module(&mut self) -> Result<(), Error> {
        self.init(CrystalLoad::_10)
    }

    fn init(&mut self, xtal_load: CrystalLoad) -> Result<(), Error> {
        // The chip clears its start-up flag on its own schedule; wait it
        // out under a bounded deadline instead of polling forever.
        let mut attempts: u32 = 0;
        let mut ready = false;
        while !ready && attempts < 1000
            invariant
                attempts <= 1000,
                ready ==> attempts >= 1,
                *self == (Si5351Device { i2c: self.i2c, ..*old(self) }),
                self.i2c.history() =~= old(self).i2c.history().add(
                    Seq::new(attempts as nat, |j: int| spec_status_read(old(self).address)),
                ),
            decreases 1000 - attempts,
        {
            let st = match self.read_device_status() {
                Ok(s) => s,
                Err(e) => {
                    return Err(e);
                },
            };
            attempts = attempts + 1;
            proof {
                assert(Seq::new(attempts as nat, |j: int| spec_status_read(old(self).address))
                    =~= Seq::new(
                    (attempts - 1) as nat,
                    |j: int| spec_status_read(old(self).address),
                ).push(spec_status_read(old(self).address)));
            }
            if !st.sys_init() {
                ready = true;
            }
        }
        if !ready {
            return Err(Error::CommunicationError);
        }
        let ghost polls: nat = attempts as nat;

        match self.flush_output_enabled() {
            Ok(()) => {},
            Err(e) => {
                return Err(e);
            },
        }
        match self.write_register(Register::Clk0, CLK_PDN) {
            Ok(()) => {},
            Err(e) => {
                return Err(e);
            },
        }
        match self.write_register(Register::Clk1, CLK_PDN) {
            Ok(()) => {},
            Err(e) => {
                return Err(e);
            },
        }
        match self.write_register(Register::Clk2, CLK_PDN) {
            Ok(()) => {},
            Err(e) => {
                return Err(e);
            },
        }
        match self.write_register(Register::Clk3, CLK_PDN) {
            Ok(()) => {},
            Err(e) => {
                return Err(e);
            },
        }
        match self.write_register(Register::Clk4, CLK_PDN) {
            Ok(()) => {},
            Err(e) => {
                return Err(e);
            },
        }
        match self.write_register(Register::Clk5, CLK_PDN) {
            Ok(()) => {},
            Err(e) => {
                return Err(e);
            },
        }
        match self.write_register(Register::Clk6, CLK_PDN) {
            Ok(()) => {},
            Err(e) => {
                return Err(e);
            },
        }
        match self.write_register(Register::Clk7, CLK_PDN) {
            Ok(()) => {},
            Err(e) => {
                return Err(e);
            },
        }

        let load_byte = CRYSTAL_LOAD_RESERVED | match xtal_load {
            CrystalLoad::_6 => CL_6,
            CrystalLoad::_8 => CL_8,
            CrystalLoad::_10 => CL_10,
        };
        match self.write_register(Register::CrystalLoad, load_byte) {
            Ok(()) => {},
            Err(e) => {
                return Err(e);
            },
        }

        proof {
            assert(self.i2c.history() =~= spec_init_bus(
                old(self).i2c.history(),
                old(self).address,
                old(self).clk_enabled_mask,
                xtal_load,
                polls,
            ));
            assert(1 <= polls && self.bus() == spec_init_bus(
                old(self).bus(),
                old(self).dev().address,
                old(self).dev().clk_enabled_mask,
                xtal_load,
                polls,
            ));
        }
        Ok(())
    }

    fn read_device_status(&mut self) -> Result<DeviceStatusBits, Error> {
        let b = match self.read_register(Register::DeviceStatus) {
            Ok(b) => b,
            Err(e) => {
                return Err(e);
            },
        };
        Ok(DeviceStatusBits { bits: b & 0xF0 })
    }

    fn find_int_dividers_for_max_pll_freq(&self, max_pll_freq: u32, freq: u32) -> Result<
        (u16, OutputDivider),
        Error,
    > {
        let total_divider: u16 = #[verifier::truncate] ((max_pll_freq / freq) as u16);

        let r_div = match OutputDivider::min_divider(total_divider / 900) {
            Ok(d) => d,
            Err(e) => {
                return Err(e);
            },
        };
        let den: u16 = r_div.denominator_u8() as u16;
        proof {
            assert((total_divider as int) / (2 * (den as int)) * 2 <= total_divider as int
                && 0 <= (total_divider as int) / (2 * (den as int)) * 2) by (nonlinear_arith)
                requires
                    1 <= den as int,
                    0 <= total_divider as int,
            ;
        }
        let md: u16 = (total_divider / (2 * den)) * 2;
        let ms_div: u16 = if md < 6 {
            6
        } else {
            md
        };
        if ms_div > 1800 {
            return Err(Error::InvalidParameter);
        }

        Ok((ms_div, r_div))
    }

    fn find_pll_coeffs_for_dividers(&self, total_div: u32, denom: u32, freq: u32) -> Result<
        (u8, u32),
        Error,
    > {
        if denom == 0 || denom > 0xfffff {
            return Err(Error::InvalidParameter);
        }

        let pll_freq: u32 = freq * total_div;

        let mult: u8 = #[verifier::truncate] ((pll_freq / self.xtal_freq) as u8);
        proof {
            let a: int = pll_freq as int % (self.xtal_freq as int);
            let x: int = self.xtal_freq as int;
            let dn: int = denom as int;
            assert(0 <= a < x) by (nonlinear_arith)
                requires
                    1 <= x,
                    0 <= pll_freq as int,
                    a == pll_freq as int % x,
            ;
            assert(0 <= a * dn < 0x10000000000000) by (nonlinear_arith)
                requires
                    0 <= a < 0x1_0000_0000,
                    0 <= dn <= 0xfffff,
            ;
            assert(a * dn / x <= dn) by (nonlinear_arith)
                requires
                    0 <= a < x,
                    0 <= dn,
                    1 <= x,
            ;
        }
        let f: u32 = ((pll_freq % self.xtal_freq) as u64 * (denom as u64) / (
        self.xtal_freq as u64)) as u32;

        Ok((mult, f))
    }

    fn set_frequency(&mut self, pll: PLL, clk: ClockOutput, freq: u32) -> Result<(), Error> {
        let denom: u32 = 1048575;

        let (ms_divider, r_div) = match self.find_int_dividers_for_max_pll_freq(
            900_000_000,
            freq,
        ) {
            Ok(p) => p,
            Err(e) => {
                return Err(e);
            },
        };
        let den8 = r_div.denominator_u8();
        proof {
            assert((ms_divider as int) * (den8 as int) <= 1800 * 128) by (nonlinear_arith)
                requires
                    0 <= ms_divider as int <= 1800,
                    0 <= den8 as int <= 128,
            ;
        }
        let total_div: u32 = ms_divider as u32 * den8 as u32;

        proof {
            let fi: int = freq as int;
            let td: int = ((900_000_000int / fi) as u16) as int;
            let d: int = td / 900;
            let den: int = den8 as int;
            assert(0 <= 900_000_000int / fi) by (nonlinear_arith)
                requires
                    1 <= fi,
            ;
            assert(0 <= td && td <= 900_000_000int / fi);
            assert(fi * td <= 900_000_000) by (nonlinear_arith)
                requires
                    1 <= fi,
                    0 <= td,
                    td <= 900_000_000int / fi,
            ;
            assert(d == 0 ==> den == 1);
            assert(d >= 1 ==> den <= 2 * d);
            let md: int = td / (2 * den) * 2;
            if md >= 6 {
                assert(md * den <= td && fi * (md * den) <= fi * td) by (nonlinear_arith)
                    requires
                        1 <= den,
                        0 <= td,
                        1 <= fi,
                        md == td / (2 * den) * 2,
                ;
            } else {
                if d == 0 {
                    assert(fi * (6 * den) <= 900_000_000) by (nonlinear_arith)
                        requires
                            den == 1,
                            1 <= fi <= 150_000_000,
                    ;
                } else {
                    assert(450 * den <= td) by (nonlinear_arith)
                        requires
                            1 <= d,
                            den <= 2 * d,
                            d == td / 900,
                            0 <= td,
                    ;
                    assert(fi * (6 * den) <= 900_000_000) by (nonlinear_arith)
                        requires
                            450 * den <= td,
                            fi * td <= 900_000_000,
                            1 <= fi,
                            1 <= den,
                            0 <= td,
                    ;
                }
            }
            assert((freq as int) * (total_div as int) <= 900_000_000);
        }

        let (mult, num) = match self.find_pll_coeffs_for_dividers(total_div, denom, freq) {
            Ok(p) => p,
            Err(e) => {
                return Err(e);
            },
        };

        let ms = match clk {
            ClockOutput::Clk0 => Multisynth::MS0,
            ClockOutput::Clk1 => Multisynth::MS1,
            ClockOutput::Clk2 => Multisynth::MS2,
            ClockOutput::Clk3 => Multisynth::MS3,
            ClockOutput::Clk4 => Multisynth::MS4,
            ClockOutput::Clk5 => Multisynth::MS5,
            _ => {
                return Err(Error::InvalidParameter);
            },
        };

        match self.setup_pll(pll, mult, num, denom) {
            Ok(()) => {},
            Err(e) => {
                return Err(e);
            },
        }
        match self.setup_multisynth_int(ms, ms_divider, r_div) {
            Ok(()) => {},
            Err(e) => {
                return Err(e);
            },
        }
        self.select_clock_pll(clk, pll);
        self.set_clock_enabled(clk, true);
        match self.flush_clock_control(clk) {
            Ok(()) => {},
            Err(e) => {
                return Err(e);
            },
        }
        match self.reset_pll(pll) {
            Ok(()) => {},
            Err(e) => {
                return Err(e);
            },
        }
        match self.flush_output_enabled() {
            Ok(()) => {},
            Err(e) => {
                return Err(e);
            },
        }

        proof {
            let eff = spec_set_frequency_effect(old(self).dev(), pll, clk, freq as int);
            assert(self.dev() =~= eff.0);
            assert(self.i2c.history() =~= old(self).i2c.history().add(eff.1));
        }
        Ok(())
    }

    fn set_clock_enabled(&mut self, clk: ClockOutput, enabled: bool) {
        let bit: u8 = 1u8 << clk.ix();
        if enabled {
            self.clk_enabled_mask = self.clk_enabled_mask | bit;
        } else {
            self.clk_enabled_mask = self.clk_enabled_mask & !bit;
        }
    }

    fn flush_output_enabled(&mut self) -> Result<(), Error> {
        let mask = self.clk_enabled_mask;
        self.write_register(Register::OutputEnable, !mask)
    }

    fn flush_clock_control(&mut self, clk: ClockOutput) -> Result<(), Error> {
        let bit: u8 = 1u8 << clk.ix();
        let clk_control_pdn: u8 = if self.clk_enabled_mask & bit != 0 {
            0
        } else {
            CLK_PDN
        };

        let ms_int_mode: u8 = if self.ms_int_mode_mask & bit == 0 {
            0
        } else {
            MS_INT
        };

        let ms_src: u8 = if self.ms_src_mask & bit == 0 {
            0
        } else {
            MS_SRC
        };

        let base: u8 = CLK_SRC_MS | CLK_DRV_8;

        self.write_register(clk.register(), clk_control_pdn | ms_int_mode | ms_src | base)
    }

    fn setup_pll_int(&mut self, pll: PLL, mult: u8) -> Result<(), Error> {
        self.setup_pll(pll, mult, 0, 1)
    }

    fn setup_pll(&mut self, pll: PLL, mult: u8, num: u32, denom: u32) -> Result<(), Error> {
        if mult < 15 || mult > 90 {
            return Err(Error::InvalidParameter);
        }

        match self.write_ms_config(pll.multisynth(), mult as u16, num, denom, OutputDivider::Div1) {
            Ok(()) => {},
            Err(e) => {
                return Err(e);
            },
        }

        Ok(())
    }

    fn setup_multisynth_int(&mut self, ms: Multisynth, mult: u16, r_div: OutputDivider) -> Result<
        (),
        Error,
    > {
        self.setup_multisynth(ms, mult, 0, 1, r_div)
    }

    fn setup_multisynth(
        &mut self,
        ms: Multisynth,
        div: u16,
        num: u32,
        denom: u32,
        r_div: OutputDivider,
    ) -> Result<(), Error> {
        if div < 6 || div > 1800 {
            return Err(Error::InvalidParameter);
        }

        match self.write_ms_config(ms, div, num, denom, r_div) {
            Ok(()) => {},
            Err(e) => {
                return Err(e);
            },
        }

        Ok(())
    }

    fn select_clock_pll(&mut self, clock: ClockOutput, pll: PLL) {
        let bit: u8 = 1u8 << clock.ix();
        match pll {
            PLL::A => self.ms_src_mask = self.ms_src_mask & !bit,
            PLL::B => self.ms_src_mask = self.ms_src_mask | bit,
        }
    }

    fn set_phase_offset(&mut self, clk: ClockOutput, offset: u8) -> Result<(), Error> {
        let reg = match clk {
            ClockOutput::Clk0 => Register::Clk0PhOff,
            ClockOutput::Clk1 => Register::Clk1PhOff,
            ClockOutput::Clk2 => Register::Clk2PhOff,
            ClockOutput::Clk3 => Register::Clk3PhOff,
            ClockOutput::Clk4 => Register::Clk4PhOff,
            ClockOutput::Clk5 => Register::Clk5PhOff,
            _ => {
                return Err(Error::InvalidParameter);
            },
        };
        if offset & 1 == 1 {
            return Err(Error::InvalidParameter);
        }
        match self.write_register(reg, offset) {
            Ok(()) => {},
            Err(e) => {
                return Err(e);
            },
        }
        Ok(())
    }

    fn set_current(&mut self, clk: ClockOutput, current: Current) -> Result<(), Error> {
        let reg = clk.register();
        let bits: u8 = match current {
            Current::Output2mA => 0,
            Current::Output4mA => 1,
            Current::Output6mA => 2,
            Current::Output8mA => 3,
        };
        match self.write_register(reg, bits) {
            Ok(()) => {},
            Err(e) => {
                return Err(e);
            },
        }
        Ok(())
    }
}

pub open spec fn spec_phase_register(clk: ClockOutput) -> Register {
    match clk {
        ClockOutput::Clk0 => Register::Clk0PhOff,
        ClockOutput::Clk1 => Register::Clk1PhOff,
        ClockOutput::Clk2 => Register::Clk2PhOff,
        ClockOutput::Clk3 => Register::Clk3PhOff,
        ClockOutput::Clk4 => Register::Clk4PhOff,
        ClockOutput::Clk5 => Register::Clk5PhOff,
        _ => Register::Clk0PhOff,
    }
}

} // verus!
