//! Interactive control core for a bare-metal audio/video synthesizer module.
//!
//! The crate models the subsystem that every firmware image of the module
//! shares: a two-level menu of typed options (`opt`), plus the components
//! built around it in the sibling modules.
//!
//! Hardware register access itself (memory-mapped I/O) is not part of this
//! crate; callers poll the hardware and hand the raw values in, and apply
//! the returned actions to their peripherals.

pub mod opt;

pub mod encoder;

pub mod i2c;

pub mod leds;

pub mod optif;

pub mod pca9635;

pub mod palette;

pub mod si5351;

pub mod opts;

pub mod opts_sid;
