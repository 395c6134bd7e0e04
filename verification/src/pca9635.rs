//! Driver for the I2C-attached 16-channel PWM LED expander.
//!
//! The expander sits at a fixed 7-bit address and is programmed with one
//! fixed 25-byte control block: an auto-increment command, the two mode
//! registers, the sixteen PWM duty bytes, the group settings, and the four
//! output-enable registers.

use vstd::prelude::*;

use crate::i2c::BusTransaction;
use crate::i2c::ErrorKind;
use crate::i2c::I2cBus;
use crate::i2c::OpModel;
use crate::i2c::bus_write;

verus! {

/// Fixed 7-bit address of the LED expander.
pub const PCA9635_ADDR: u8 = 5;

/// The exact 25-byte control block pushed on every refresh: auto-increment
/// starting from MODE1, MODE1, MODE2, the sixteen PWM bytes, GRPPWM,
/// GRPFREQ and the four LEDOUT registers.
pub open spec fn pca9635_frame(leds: Seq<u8>) -> Seq<u8> {
    seq![0x80u8, 0x81u8, 0x01u8].add(leds).add(
        seq![0xFFu8, 0x00u8, 0xAAu8, 0xAAu8, 0xAAu8, 0xAAu8],
    )
}

/// The LED expander driver: the desired duty of each of the sixteen
/// channels, pushed over the bus as one write transaction.
pub struct Pca9635Driver<I2C> {
    pub i2c: I2C,
    pub leds: [u8; 16],
}

impl<I2C: I2cBus> Pca9635Driver<I2C> {
    pub fn new(i2c: I2C) -> (r: Self)
        ensures
            r.leds@ =~= Seq::new(16, |i: int| 0u8),
            r.i2c == i2c,
    {
        Pca9635Driver { i2c, leds: [0u8; 16] }
    }

    /// Push the current duty values to the expander: exactly one write
    /// transaction carrying the fixed control block, whatever the device
    /// answers.
    pub fn push(&mut self) -> (r: Result<(), ErrorKind>)
        ensures
            final(self).leds == old(self).leds,
            final(self).i2c.history() == old(self).i2c.history().push(
                BusTransaction {
                    address: PCA9635_ADDR,
                    ops: seq![OpModel::Write(pca9635_frame(old(self).leds@))],
                },
            ),
    {
        let mut bytes: Vec<u8> = Vec::new();
        bytes.push(0x80);
        bytes.push(0x81);
        bytes.push(0x01);
        let mut n: usize = 0;
        while n < 16
            invariant
                n <= 16,
                bytes@ =~= seq![0x80u8, 0x81u8, 0x01u8].add(self.leds@.take(n as int)),
            decreases 16 - n,
        {
            bytes.push(self.leds[n]);
            proof {
                assert(self.leds@.take(n + 1) =~= self.leds@.take(n as int).push(
                    self.leds@[n as int],
                ));
            }
            n = n + 1;
        }
        bytes.push(0xFF);
        bytes.push(0x00);
        bytes.push(0xAA);
        bytes.push(0xAA);
        bytes.push(0xAA);
        bytes.push(0xAA);
        proof {
            assert(self.leds@.take(16) =~= self.leds@);
            assert(bytes@ =~= pca9635_frame(self.leds@));
        }
        bus_write(&mut self.i2c, PCA9635_ADDR, &bytes)
    }
}

} // verus!
