//! The transmit driver: pulse codes precomputed per channel, the frame
//! encoding pipeline, and the Ready/Busy protocol that keeps at most one
//! transmission in flight per channel.

use crossbeam::atomic::AtomicCell;
use vstd::prelude::*;

use crate::bits::{bits_of_byte, bits_of_bytes, lemma_bits_of_bytes_len, ToBits};
use crate::color::{Channel, ChannelOrder, ColorChannels};
use crate::timing::{
    lemma_short_duration_ticks_ok, spec_symbol_to_pulse_code, symbol_to_pulse_code, PulseCode,
};
use crate::{Symbol, WS2812Error, T0H_NS, T0L_NS, T1H_NS, T1L_NS};

verus! {

/// Relies on crossbeam's `AtomicCell` as the lock-free holder of the
/// channel state; what the cell holds is opaque here, and every access
/// goes through the wrappers below.
#[verifier::external_type_specification]
#[verifier::external_body]
#[verifier::reject_recursive_types(T)]
pub struct ExAtomicCell<T>(AtomicCell<T>);

/// Relies on crossbeam's `AtomicCell::new`: builds a cell holding the value.
#[verifier::external_body]
fn atomic_cell_new<T>(value: T) -> AtomicCell<T> {
    AtomicCell::new(value)
}

/// Relies on crossbeam's `AtomicCell::swap`: atomically replaces the cell's
/// contents and hands back what was there.  Concurrent callers may change
/// the cell at any moment, so nothing is promised of which value comes back.
#[verifier::external_body]
fn atomic_cell_swap<T>(cell: &AtomicCell<T>, value: T) -> T {
    cell.swap(value)
}

/// Relies on crossbeam's `AtomicCell::store`: atomically replaces the
/// cell's contents, dropping what was there.
#[verifier::external_body]
fn atomic_cell_store<T>(cell: &AtomicCell<T>, value: T) {
    cell.store(value)
}

/// The state of the transmit channel: `Ready` exclusively owns the hardware
/// handle, `Busy` marks exactly one transmission in flight.
enum ChannelStatus<H> {
    Ready(H),
    Busy,
}

/// The channel bytes one pixel contributes, one per physical position.
pub open spec fn pixel_bytes<Px: ColorChannels>(px: Px, order: Seq<Channel>) -> Seq<u8> {
    Seq::new(order.len(), |j: int| px.channel_value(order[j]))
}

/// The byte stream of a whole frame: every pixel's channel bytes, pixel
/// order preserved, the configured channel order within each pixel.
pub open spec fn stream_bytes<Px: ColorChannels>(pixels: Seq<Px>, order: Seq<Channel>) -> Seq<u8>
    decreases pixels.len(),
{
    if pixels.len() == 0 {
        Seq::empty()
    } else {
        stream_bytes(pixels.drop_last(), order) + pixel_bytes(pixels.last(), order)
    }
}

/// Each bit mapped to its pulse code: `p1` for a `1` bit, `p0` for a `0` bit.
pub open spec fn pulses_of_bits(bits: Seq<bool>, p0: PulseCode, p1: PulseCode) -> Seq<
    PulseCode,
> {
    Seq::new(bits.len(), |i: int| if bits[i] { p1 } else { p0 })
}

/// The full pulse buffer of a frame: every channel byte expanded to bits
/// most-significant first, each bit as its pulse code, closed by exactly
/// one end marker.
pub open spec fn pulse_stream<Px: ColorChannels>(
    pixels: Seq<Px>,
    order: Seq<Channel>,
    p0: PulseCode,
    p1: PulseCode,
) -> Seq<PulseCode> {
    pulses_of_bits(bits_of_bytes(stream_bytes(pixels, order)), p0, p1).push(
        PulseCode::spec_empty(),
    )
}

/// A frame's byte stream holds one byte per pixel and position.
pub proof fn lemma_stream_bytes_len<Px: ColorChannels>(pixels: Seq<Px>, order: Seq<Channel>)
    ensures
        stream_bytes(pixels, order).len() == pixels.len() * order.len(),
    decreases pixels.len(),
{
    if pixels.len() > 0 {
        lemma_stream_bytes_len(pixels.drop_last(), order);
        assert((pixels.len() - 1) * order.len() + order.len() == pixels.len() * order.len())
            by (nonlinear_arith);
    }
}

/// Pulse-buffer length law: a frame of `P` pixels over `C` channels yields
/// `P * C * 8 + 1` pulse codes, the one extra being the end marker.
pub proof fn lemma_pulse_stream_len<Px: ColorChannels>(
    pixels: Seq<Px>,
    order: Seq<Channel>,
    p0: PulseCode,
    p1: PulseCode,
)
    ensures
        pulse_stream(pixels, order, p0, p1).len() == pixels.len() * order.len() * 8 + 1,
{
    lemma_stream_bytes_len(pixels, order);
    lemma_bits_of_bytes_len(stream_bytes(pixels, order));
    assert(8 * (pixels.len() * order.len()) == pixels.len() * order.len() * 8)
        by (nonlinear_arith);
}

/// Encode a frame into its pulse buffer: channel bytes in the configured
/// order, bits most-significant first, one pulse code per bit, one end
/// marker at the end.
pub fn encode_pulses<Px: ColorChannels>(
    pixels: &Vec<Px>,
    order: &ChannelOrder,
    p0: PulseCode,
    p1: PulseCode,
) -> (r: Vec<PulseCode>)
    ensures
        r@ == pulse_stream(pixels@, order@, p0, p1),
        r@.len() == pixels@.len() * order@.len() * 8 + 1,
{
    let mut out: Vec<PulseCode> = Vec::new();
    let mut i: usize = 0;
    while i < pixels.len()
        invariant
            i <= pixels@.len(),
            out@ == pulses_of_bits(
                bits_of_bytes(stream_bytes(pixels@.take(i as int), order@)),
                p0,
                p1,
            ),
        decreases pixels@.len() - i,
    {
        let bytes = pixels[i].channels(order);
        proof {
            assert(bytes@ =~= pixel_bytes(pixels@[i as int], order@));
        }
        let ghost prefix_bytes: Seq<u8> = stream_bytes(pixels@.take(i as int), order@);
        let mut j: usize = 0;
        while j < bytes.len()
            invariant
                j <= bytes@.len(),
                out@ == pulses_of_bits(
                    bits_of_bytes(prefix_bytes + bytes@.take(j as int)),
                    p0,
                    p1,
                ),
            decreases bytes@.len() - j,
        {
            let byte = bytes[j];
            let bits = byte.to_bits();
            let ghost bits_prefix: Seq<bool> = bits_of_bytes(prefix_bytes + bytes@.take(j as int));
            let mut t: usize = 0;
            while t < 8
                invariant
                    t <= 8,
                    bits@ == bits_of_byte(byte),
                    out@ == pulses_of_bits(
                        bits_prefix + bits_of_byte(byte).take(t as int),
                        p0,
                        p1,
                    ),
                decreases 8 - t,
            {
                let p = if bits[t] {
                    p1
                } else {
                    p0
                };
                out.push(p);
                proof {
                    let bit = bits_of_byte(byte)[t as int];
                    assert(bits_prefix + bits_of_byte(byte).take(t as int + 1) =~= (bits_prefix
                        + bits_of_byte(byte).take(t as int)).push(bit));
                    assert(pulses_of_bits(
                        (bits_prefix + bits_of_byte(byte).take(t as int)).push(bit),
                        p0,
                        p1,
                    ) =~= pulses_of_bits(
                        bits_prefix + bits_of_byte(byte).take(t as int),
                        p0,
                        p1,
                    ).push(if bit { p1 } else { p0 }));
                }
                t = t + 1;
            }
            proof {
                let a = prefix_bytes + bytes@.take(j as int);
                assert(bits_of_byte(byte).take(8) =~= bits_of_byte(byte));
                assert((a.push(bytes@[j as int])).drop_last() =~= a);
                assert((a.push(bytes@[j as int])).last() == bytes@[j as int]);
                assert(prefix_bytes + bytes@.take(j as int + 1) =~= a.push(bytes@[j as int]));
            }
            j = j + 1;
        }
        proof {
            assert(bytes@.take(bytes@.len() as int) =~= bytes@);
            assert(pixels@.take(i as int + 1).drop_last() =~= pixels@.take(i as int));
            assert(pixels@.take(i as int + 1).last() == pixels@[i as int]);
            assert(prefix_bytes + bytes@ == stream_bytes(pixels@.take(i as int + 1), order@));
        }
        i = i + 1;
    }
    proof {
        assert(pixels@.take(pixels@.len() as int) =~= pixels@);
    }
    out.push(PulseCode::empty());
    proof {
        lemma_pulse_stream_len(pixels@, order@, p0, p1);
    }
    out
}

/// A WS2812 driver over one transmit channel whose hardware handle has
/// type `H`.
///
/// The two pulse codes are computed once at construction and reused for
/// every transmitted bit.  The handle sits in an atomic cell under the
/// Ready/Busy protocol: concurrent write attempts race for it and at most
/// one can hold it at a time.
#[verifier::reject_recursive_types(H)]
pub struct EspWS2812<H> {
    tx: AtomicCell<ChannelStatus<H>>,
    p1: PulseCode,
    p0: PulseCode,
    color_order: ChannelOrder,
}

impl<H> EspWS2812<H> {
    /// The pulse code transmitted for a `0` bit.
    pub closed spec fn pulse0(&self) -> PulseCode {
        self.p0
    }

    /// The pulse code transmitted for a `1` bit.
    pub closed spec fn pulse1(&self) -> PulseCode {
        self.p1
    }

    /// The configured channel order.
    pub closed spec fn order(&self) -> Seq<Channel> {
        self.color_order@
    }

    /// Wrap a transmit channel handle: the symbol timings are fixed at
    /// construction into the two pulse codes — total for every clock rate,
    /// since the built-in timings stay within the 16-bit tick field — and
    /// the handle starts out `Ready`.
    pub fn new(tx: H, clk_hz: u32, color_order: ChannelOrder) -> (r: EspWS2812<H>)
        ensures
            r.pulse0() == spec_symbol_to_pulse_code(clk_hz, Symbol::spec_t0()),
            r.pulse1() == spec_symbol_to_pulse_code(clk_hz, Symbol::spec_t1()),
            r.order() == color_order@,
    {
        proof {
            lemma_short_duration_ticks_ok(clk_hz, T0H_NS);
            lemma_short_duration_ticks_ok(clk_hz, T0L_NS);
            lemma_short_duration_ticks_ok(clk_hz, T1H_NS);
            lemma_short_duration_ticks_ok(clk_hz, T1L_NS);
        }
        let t1 = Symbol::t1();
        let t0 = Symbol::t0();
        EspWS2812 {
            tx: atomic_cell_new(ChannelStatus::Ready(tx)),
            p1: symbol_to_pulse_code(clk_hz, &t1),
            p0: symbol_to_pulse_code(clk_hz, &t0),
            color_order,
        }
    }

    /// Start a write attempt: atomically claim the channel, `Ready` to
    /// `Busy`, as the very first action.  The winner gets the handle and
    /// the frame's full pulse buffer to submit as one transmission; every
    /// other concurrent caller fails at once with `ChannelBusy`, touching
    /// no hardware.
    pub fn begin_write<Px: ColorChannels>(&self, pixels: &Vec<Px>) -> (r: Result<
        (H, Vec<PulseCode>),
        WS2812Error,
    >)
        ensures
            match r {
                Ok(p) => p.1@ == pulse_stream(pixels@, self.order(), self.pulse0(), self.pulse1())
                    && p.1@.len() == pixels@.len() * self.order().len() * 8 + 1,
                Err(e) => e.kind is ChannelBusy,
            },
    {
        match atomic_cell_swap(&self.tx, ChannelStatus::Busy) {
            ChannelStatus::Ready(tx) => {
                let buffer = encode_pulses(pixels, &self.color_order, self.p0, self.p1);
                Ok((tx, buffer))
            },
            ChannelStatus::Busy => Err(WS2812Error::channel_busy()),
        }
    }

    /// Finish a write attempt: hand the recovered handle back, `Busy` to
    /// `Ready` — on the failure path too, so a failed write never strands
    /// the channel — and surface the hardware outcome unchanged.
    pub fn finish_write(&self, tx: H, outcome: Result<(), WS2812Error>) -> (r: Result<
        (),
        WS2812Error,
    >)
        ensures
            r == outcome,
    {
        atomic_cell_store(&self.tx, ChannelStatus::Ready(tx));
        outcome
    }
}

} // verus!
