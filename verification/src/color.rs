//! Pixel color values and the mapping from logical color channels to the
//! strip's physical byte positions.

use vstd::prelude::*;

verus! {

/// A three-channel pixel with one byte per channel.
#[derive(Clone, Copy, Debug, PartialEq, Eq, Structural)]
pub struct RGB {
    /// Red channel.
    pub r: u8,
    /// Green channel.
    pub g: u8,
    /// Blue channel.
    pub b: u8,
}

/// A four-channel pixel with one byte per channel.
#[derive(Clone, Copy, Debug, PartialEq, Eq, Structural)]
pub struct RGBW {
    /// Red channel.
    pub r: u8,
    /// Green channel.
    pub g: u8,
    /// Blue channel.
    pub b: u8,
    /// White channel.
    pub w: u8,
}

impl RGB {
    /// Build a three-channel pixel from its channel bytes.
    pub fn new(r: u8, g: u8, b: u8) -> (px: Self)
        ensures
            px == (RGB { r, g, b }),
    {
        RGB { r, g, b }
    }
}

impl RGBW {
    /// Build a four-channel pixel from its channel bytes.
    pub fn new(r: u8, g: u8, b: u8, w: u8) -> (px: Self)
        ensures
            px == (RGBW { r, g, b, w }),
    {
        RGBW { r, g, b, w }
    }
}

/// A logical color channel.
#[derive(Clone, Copy, Debug, PartialEq, Eq, Structural)]
pub enum Channel {
    /// Red.
    R,
    /// Green.
    G,
    /// Blue.
    B,
    /// White.
    W,
}

/// The order in which a strip expects its color channels: one logical
/// channel per physical byte position.  Strips take three or four channels,
/// so only such lengths can be built.
pub struct ChannelOrder {
    slots: Vec<Channel>,
}

impl View for ChannelOrder {
    type V = Seq<Channel>;

    closed spec fn view(&self) -> Seq<Channel> {
        self.slots@
    }
}

impl ChannelOrder {
    /// An order is well formed when it fills exactly three or four positions.
    pub open spec fn wf(&self) -> bool {
        self@.len() == 3 || self@.len() == 4
    }

    /// Validate a channel sequence as an order: exactly three or four
    /// positions are accepted.
    pub fn new(slots: Vec<Channel>) -> (r: Option<ChannelOrder>)
        ensures
            match r {
                Some(order) => (slots@.len() == 3 || slots@.len() == 4) && order@ == slots@
                    && order.wf(),
                None => slots@.len() != 3 && slots@.len() != 4,
            },
    {
        if slots.len() == 3 || slots.len() == 4 {
            Some(ChannelOrder { slots })
        } else {
            None
        }
    }

    /// Number of physical positions.
    pub fn len(&self) -> (n: usize)
        ensures
            n == self@.len(),
    {
        self.slots.len()
    }

    /// The logical channel at a physical position.
    pub fn slot(&self, i: usize) -> (c: Channel)
        requires
            i < self@.len(),
        ensures
            c == self@[i as int],
    {
        self.slots[i]
    }

    /// Green, red, blue.
    pub fn grb() -> (r: ChannelOrder)
        ensures
            r@ == seq![Channel::G, Channel::R, Channel::B],
            r.wf(),
    {
        let order = ChannelOrder { slots: vec![Channel::G, Channel::R, Channel::B] };
        proof {
            assert(order@ =~= seq![Channel::G, Channel::R, Channel::B]);
        }
        order
    }

    /// Red, green, blue.
    pub fn rgb() -> (r: ChannelOrder)
        ensures
            r@ == seq![Channel::R, Channel::G, Channel::B],
            r.wf(),
    {
        let order = ChannelOrder { slots: vec![Channel::R, Channel::G, Channel::B] };
        proof {
            assert(order@ =~= seq![Channel::R, Channel::G, Channel::B]);
        }
        order
    }

    /// Blue, green, red.
    pub fn bgr() -> (r: ChannelOrder)
        ensures
            r@ == seq![Channel::B, Channel::G, Channel::R],
            r.wf(),
    {
        let order = ChannelOrder { slots: vec![Channel::B, Channel::G, Channel::R] };
        proof {
            assert(order@ =~= seq![Channel::B, Channel::G, Channel::R]);
        }
        order
    }

    /// Red, green, blue, white.
    pub fn rgbw() -> (r: ChannelOrder)
        ensures
            r@ == seq![Channel::R, Channel::G, Channel::B, Channel::W],
            r.wf(),
    {
        let order = ChannelOrder {
            slots: vec![Channel::R, Channel::G, Channel::B, Channel::W],
        };
        proof {
            assert(order@ =~= seq![Channel::R, Channel::G, Channel::B, Channel::W]);
        }
        order
    }

    /// Green, red, blue, white.
    pub fn grbw() -> (r: ChannelOrder)
        ensures
            r@ == seq![Channel::G, Channel::R, Channel::B, Channel::W],
            r.wf(),
    {
        let order = ChannelOrder {
            slots: vec![Channel::G, Channel::R, Channel::B, Channel::W],
        };
        proof {
            assert(order@ =~= seq![Channel::G, Channel::R, Channel::B, Channel::W]);
        }
        order
    }

    /// Blue, green, red, white.
    pub fn bgrw() -> (r: ChannelOrder)
        ensures
            r@ == seq![Channel::B, Channel::G, Channel::R, Channel::W],
            r.wf(),
    {
        let order = ChannelOrder {
            slots: vec![Channel::B, Channel::G, Channel::R, Channel::W],
        };
        proof {
            assert(order@ =~= seq![Channel::B, Channel::G, Channel::R, Channel::W]);
        }
        order
    }
}

/// Pixels that can serve each physical position its channel byte.
pub trait ColorChannels {
    /// The byte this pixel holds for a logical channel; a channel the pixel
    /// lacks yields zero.
    spec fn channel_value(&self, c: Channel) -> u8;

    /// One byte per physical position, each filled from the logical channel
    /// that position maps to.
    fn channels(&self, order: &ChannelOrder) -> (r: Vec<u8>)
        ensures
            r@.len() == order@.len(),
            forall|i: int| 0 <= i < order@.len() ==> r@[i] == self.channel_value(order@[i]),
    ;
}

impl ColorChannels for RGB {
    open spec fn channel_value(&self, c: Channel) -> u8 {
        match c {
            Channel::R => self.r,
            Channel::G => self.g,
            Channel::B => self.b,
            Channel::W => 0,
        }
    }

    fn channels(&self, order: &ChannelOrder) -> (r: Vec<u8>) {
        let mut r: Vec<u8> = Vec::new();
        let mut i: usize = 0;
        let n = order.len();
        while i < n
            invariant
                n == order@.len(),
                i <= n,
                r@.len() == i,
                forall|k: int| 0 <= k < i ==> r@[k] == self.channel_value(order@[k]),
            decreases n - i,
        {
            let byte = match order.slot(i) {
                Channel::R => self.r,
                Channel::G => self.g,
                Channel::B => self.b,
                Channel::W => 0,
            };
            r.push(byte);
            i = i + 1;
        }
        r
    }
}

impl ColorChannels for RGBW {
    open spec fn channel_value(&self, c: Channel) -> u8 {
        match c {
            Channel::R => self.r,
            Channel::G => self.g,
            Channel::B => self.b,
            Channel::W => self.w,
        }
    }

    fn channels(&self, order: &ChannelOrder) -> (r: Vec<u8>) {
        let mut r: Vec<u8> = Vec::new();
        let mut i: usize = 0;
        let n = order.len();
        while i < n
            invariant
                n == order@.len(),
                i <= n,
                r@.len() == i,
                forall|k: int| 0 <= k < i ==> r@[k] == self.channel_value(order@[k]),
            decreases n - i,
        {
            let byte = match order.slot(i) {
                Channel::R => self.r,
                Channel::G => self.g,
                Channel::B => self.b,
                Channel::W => self.w,
            };
            r.push(byte);
            i = i + 1;
        }
        r
    }
}

} // verus!
