//! Encoder and transmit protocol for WS2812-family addressable LED strips.
//!
//! A pixel stream is turned into the bit-level pulse train the strips consume:
//! colors are reordered into the strip's physical channel order, every byte is
//! expanded to its bits most-significant first, each bit becomes a pulse code
//! whose tick counts come from the configured clock rate, and one end marker
//! closes the train.  A driver wraps a single transmit-channel handle in a
//! Ready/Busy protocol so that at most one transmission is in flight.

use vstd::prelude::*;
use vstd::string::StringExecFns;

pub mod bits;
pub mod color;
pub mod esp;
pub mod timing;

verus! {

// The symbol timings below are the community-measured WS2812 profile,
// fixed at build time; every strip of the family tolerates them.

/// Nanoseconds the line is held high for a logical `0` bit.
pub const T0H_NS: u64 = 400;

/// Nanoseconds the line is held low for a logical `0` bit.
pub const T0L_NS: u64 = 850;

/// Nanoseconds the line is held high for a logical `1` bit.
pub const T1H_NS: u64 = 800;

/// Nanoseconds the line is held low for a logical `1` bit.
pub const T1L_NS: u64 = 450;

/// The shape of one transmitted bit: how long the line stays high,
/// then how long it stays low, both in nanoseconds.
#[derive(Clone, Copy, Debug, PartialEq, Eq, Structural)]
pub struct Symbol {
    /// High time in nanoseconds.
    pub high_ns: u64,
    /// Low time in nanoseconds.
    pub low_ns: u64,
}

impl Symbol {
    /// The symbol for a logical `0` bit.
    pub open spec fn spec_t0() -> Symbol {
        Symbol { high_ns: T0H_NS, low_ns: T0L_NS }
    }

    /// The symbol for a logical `1` bit.
    pub open spec fn spec_t1() -> Symbol {
        Symbol { high_ns: T1H_NS, low_ns: T1L_NS }
    }

    /// The symbol for a logical `0` bit.
    pub fn t0() -> (r: Symbol)
        ensures
            r == Symbol::spec_t0(),
    {
        Symbol { high_ns: T0H_NS, low_ns: T0L_NS }
    }

    /// The symbol for a logical `1` bit.
    pub fn t1() -> (r: Symbol)
        ensures
            r == Symbol::spec_t1(),
    {
        Symbol { high_ns: T1H_NS, low_ns: T1L_NS }
    }
}

impl From<bool> for Symbol {
    /// The symbol a bit is transmitted as: `T1` for a `1` bit, `T0` for a
    /// `0` bit.
    fn from(value: bool) -> (r: Symbol) {
        if value {
            Symbol::t1()
        } else {
            Symbol::t0()
        }
    }
}

impl vstd::std_specs::convert::FromSpecImpl<bool> for Symbol {
    open spec fn obeys_from_spec() -> bool {
        true
    }

    open spec fn from_spec(value: bool) -> Symbol {
        if value {
            Symbol::spec_t1()
        } else {
            Symbol::spec_t0()
        }
    }
}

/// What went wrong during a write attempt.
#[derive(Clone, Copy, Debug, PartialEq, Eq, Structural)]
pub enum ErrorKind {
    /// The transmit channel was already carrying a transmission; nothing
    /// was sent and no hardware was touched.
    ChannelBusy,
    /// The peripheral rejected the pulse buffer; the channel was restored.
    SubmitFailure,
    /// The peripheral reported failure during or after the transmission;
    /// the channel was restored, the strip's state is indeterminate.
    TransmitFailure,
}

/// A failed write attempt, with the channel always left usable again.
#[derive(Debug)]
pub struct WS2812Error {
    /// Which failure occurred.
    pub kind: ErrorKind,
    /// Detail handed along from the hardware layer, if any.
    pub msg: String,
}

impl WS2812Error {
    /// The error for a write attempt that found the channel busy.
    pub fn channel_busy() -> (e: WS2812Error)
        ensures
            e.kind is ChannelBusy,
    {
        WS2812Error {
            kind: ErrorKind::ChannelBusy,
            msg: String::from_str("tx channel unavailable and is probably being used elsewhere"),
        }
    }

    /// The error for a buffer the peripheral rejected.
    pub fn submit_failure(msg: String) -> (e: WS2812Error)
        ensures
            e.kind is SubmitFailure,
            e.msg == msg,
    {
        WS2812Error { kind: ErrorKind::SubmitFailure, msg }
    }

    /// The error for a transmission the peripheral reported as failed.
    pub fn transmit_failure(msg: String) -> (e: WS2812Error)
        ensures
            e.kind is TransmitFailure,
            e.msg == msg,
    {
        WS2812Error { kind: ErrorKind::TransmitFailure, msg }
    }

    /// The error's detail text.
    pub fn message(&self) -> (r: String)
        ensures
            r@ == self.msg@,
    {
        self.msg.clone()
    }
}

/// Drivers that transmit a pixel stream to a strip.  The driver is handed
/// back on success so a caller can keep writing frames; backends run their
/// peripheral between `EspWS2812::begin_write` and `EspWS2812::finish_write`.
pub trait WS2812: Sized {
    /// Transmit all pixels as one contiguous pulse train, blocking until
    /// the hardware reports completion or failure.
    fn write<Px: color::ColorChannels>(self, pixels: Vec<Px>) -> Result<Self, WS2812Error>;
}

} // verus!
