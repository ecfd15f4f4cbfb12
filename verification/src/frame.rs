//! An owned, single-use handle over one captured frame: the metadata and
//! payload the driver reports for a buffer, validated against the
//! configured pixel format.

use vstd::prelude::*;
use crate::caps::PixelFormat;

verus! {

/// Whether `len` is an acceptable payload length for a frame of the given
/// format and pixel dimensions: for an uncompressed format, exactly the
/// format's byte count; for `Jpeg` the length is driver-reported and varies
/// frame to frame, so any length is acceptable here.
fn frame_len_ok(format: PixelFormat, width: usize, height: usize, len: usize) -> (r: bool)
    ensures
        r == (match format.spec_frame_len(width as nat, height as nat) {
            Some(n) => len == n,
            None => true,
        }),
{
    let w = width as u128;
    let h = height as u128;
    proof {
        assert(w * h <= 0xffffffffffffffff * 0xffffffffffffffff) by (nonlinear_arith)
            requires
                w <= 0xffffffffffffffff,
                h <= 0xffffffffffffffff,
        ;
    }
    let px: u128 = w * h;
    let cap = usize::MAX as u128;
    proof {
        assert(2 * px >= px && 3 * px >= px) by (nonlinear_arith)
            requires
                px >= 0,
        ;
        assert((2 * (width as int)) * (height as int) == 2 * px
            && (3 * (width as int)) * (height as int) == 3 * px) by (nonlinear_arith)
            requires
                px == (width as int) * (height as int),
        ;
    }
    match format {
        PixelFormat::Jpeg => true,
        PixelFormat::Grayscale | PixelFormat::Raw => (len as u128) == px,
        PixelFormat::Rgb565 | PixelFormat::Yuv422 | PixelFormat::Rgb444 | PixelFormat::Rgb555 => {
            if px > cap {
                false
            } else {
                (len as u128) == 2 * px
            }
        },
        PixelFormat::Rgb888 => {
            if px > cap {
                false
            } else {
                (len as u128) == 3 * px
            }
        },
        PixelFormat::Yuv420 => {
            if px > cap {
                proof {
                    vstd::arithmetic::div_mod::lemma_div_is_ordered(2 * px, 3 * px, 2);
                    vstd::arithmetic::div_mod::lemma_div_multiples_vanish(px as int, 2);
                }
                false
            } else {
                (len as u128) == (3 * px) / 2
            }
        },
    }
}

/// One captured frame, as the driver reports it: pixel dimensions, the
/// configured pixel format, and the raw payload bytes. The handle is the
/// unique owner of the frame it describes; construction validates the
/// driver-reported metadata, so a live handle's accessors are always
/// mutually consistent.
pub struct Pic {
    format: PixelFormat,
    width: usize,
    height: usize,
    bytes: Vec<u8>,
}

impl Pic {
    /// The pixel format the frame was captured in.
    pub closed spec fn spec_format(self) -> PixelFormat {
        self.format
    }

    /// The frame's width in pixels.
    pub closed spec fn spec_width(self) -> usize {
        self.width
    }

    /// The frame's height in pixels.
    pub closed spec fn spec_height(self) -> usize {
        self.height
    }

    /// The frame's raw payload.
    pub closed spec fn spec_bytes(self) -> Seq<u8> {
        self.bytes@
    }

    /// Metadata consistency: for an uncompressed format the payload holds
    /// exactly `width * height` pixels at the format's byte count; a `Jpeg`
    /// payload's length is whatever the driver reported.
    pub open spec fn wf(self) -> bool {
        match self.spec_format().spec_frame_len(self.spec_width() as nat, self.spec_height() as nat) {
            Some(n) => self.spec_bytes().len() == n,
            None => true,
        }
    }

    /// Wraps one polled frame record, handed over as the plain values the
    /// driver reported. Returns the handle exactly when the reported length
    /// is consistent with the format and dimensions ([`frame_len_ok`]);
    /// an inconsistent record yields `None` and no handle.
    pub fn new(format: PixelFormat, width: usize, height: usize, bytes: Vec<u8>) -> (r: Option<Pic>)
        ensures
            (r is Some) == (match format.spec_frame_len(width as nat, height as nat) {
                Some(n) => bytes@.len() == n,
                None => true,
            }),
            r matches Some(p) ==> {
                &&& p.spec_format() == format
                &&& p.spec_width() == width
                &&& p.spec_height() == height
                &&& p.spec_bytes() == bytes@
                &&& p.wf()
            },
    {
        if frame_len_ok(format, width, height, bytes.len()) {
            Some(Pic { format, width, height, bytes })
        } else {
            None
        }
    }

    /// Width in pixels of the wrapped frame.
    pub fn width(&self) -> (w: usize)
        ensures
            w == self.spec_width(),
    {
        self.width
    }

    /// Height in pixels of the wrapped frame.
    pub fn height(&self) -> (h: usize)
        ensures
            h == self.spec_height(),
    {
        self.height
    }

    /// Immutable view of the frame's payload, exactly as the driver filled
    /// it. Valid as long as the handle is alive.
    pub fn data(&self) -> (d: &[u8])
        ensures
            d@ == self.spec_bytes(),
    {
        self.bytes.as_slice()
    }

    /// The pixel format the frame was captured in.
    pub fn format(&self) -> (f: PixelFormat)
        ensures
            f == self.spec_format(),
    {
        self.format
    }
}

/// Law: accessor consistency. Every live handle with an uncompressed
/// format reports a payload of exactly `width() * height()` pixels at the
/// format's fixed per-pixel byte count; only `Jpeg` frames have a
/// frame-dependent length.
pub proof fn lemma_accessor_consistency(p: Pic)
    requires
        p.wf(),
        p.spec_format() !is Jpeg,
    ensures
        (p.spec_format() is Grayscale || p.spec_format() is Raw) ==> p.spec_bytes().len()
            == p.spec_width() * p.spec_height(),
        (p.spec_format() is Rgb565 || p.spec_format() is Yuv422 || p.spec_format() is Rgb444
            || p.spec_format() is Rgb555) ==> p.spec_bytes().len() == 2 * p.spec_width()
            * p.spec_height(),
        p.spec_format() is Rgb888 ==> p.spec_bytes().len() == 3 * p.spec_width()
            * p.spec_height(),
        p.spec_format() is Yuv420 ==> p.spec_bytes().len() == (3 * p.spec_width()
            * p.spec_height()) / 2,
{
}

} // verus!
