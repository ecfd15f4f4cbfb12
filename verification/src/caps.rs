//! Capability descriptors: the closed sets a configuration is built from,
//! each with its fixed mapping to the driver's numeric codes.

use vstd::prelude::*;

verus! {

/// Pixel encoding of a captured frame. Selected once at configuration time;
/// each variant maps 1:1 to a driver-defined numeric code.
#[derive(Clone, Copy, Debug, PartialEq, Eq, Structural)]
pub enum PixelFormat {
    Rgb565,
    Yuv422,
    Yuv420,
    Grayscale,
    Jpeg,
    Rgb888,
    Raw,
    Rgb444,
    Rgb555,
}

impl PixelFormat {
    /// The driver's numeric code for this format, fixed by the driver ABI.
    pub open spec fn spec_code(self) -> u32 {
        match self {
            PixelFormat::Rgb565 => 0,
            PixelFormat::Yuv422 => 1,
            PixelFormat::Yuv420 => 2,
            PixelFormat::Grayscale => 3,
            PixelFormat::Jpeg => 4,
            PixelFormat::Rgb888 => 5,
            PixelFormat::Raw => 6,
            PixelFormat::Rgb444 => 7,
            PixelFormat::Rgb555 => 8,
        }
    }

    /// Numeric code sent across the driver boundary.
    pub fn code(self) -> (c: u32)
        ensures
            c == self.spec_code(),
    {
        match self {
            PixelFormat::Rgb565 => 0,
            PixelFormat::Yuv422 => 1,
            PixelFormat::Yuv420 => 2,
            PixelFormat::Grayscale => 3,
            PixelFormat::Jpeg => 4,
            PixelFormat::Rgb888 => 5,
            PixelFormat::Raw => 6,
            PixelFormat::Rgb444 => 7,
            PixelFormat::Rgb555 => 8,
        }
    }

    /// Exact byte length of an uncompressed frame of this format with the
    /// given pixel dimensions, or `None` for `Jpeg`, whose length is
    /// compressed and therefore frame-dependent.
    pub open spec fn spec_frame_len(self, width: nat, height: nat) -> Option<nat> {
        match self {
            PixelFormat::Rgb565 => Some(2 * width * height),
            PixelFormat::Yuv422 => Some(2 * width * height),
            PixelFormat::Yuv420 => Some((3 * width * height) / 2),
            PixelFormat::Grayscale => Some(width * height),
            PixelFormat::Jpeg => None,
            PixelFormat::Rgb888 => Some(3 * width * height),
            PixelFormat::Raw => Some(width * height),
            PixelFormat::Rgb444 => Some(2 * width * height),
            PixelFormat::Rgb555 => Some(2 * width * height),
        }
    }
}

/// Memory region frame buffers are allocated from. `Autodetect` is a request
/// property only: it is resolved at initialization time and never crosses
/// the driver boundary, so only the two concrete regions carry a code.
#[derive(Clone, Copy, Debug, PartialEq, Eq, Structural)]
pub enum FrameBufferLocation {
    /// Pick `Psram` when the external region reports capacity, else `Dram`.
    Autodetect,
    /// External ("PSRAM"-class) memory.
    Psram,
    /// Internal ("DRAM"-class) memory.
    Dram,
}

impl FrameBufferLocation {
    /// A placement that may be sent to the driver: anything but `Autodetect`.
    pub open spec fn is_resolved(self) -> bool {
        self !is Autodetect
    }

    /// The driver's numeric code for a concrete region, fixed by the driver
    /// ABI. `Autodetect` has no code: it must be resolved first.
    pub open spec fn spec_code(self) -> u32
        recommends
            self.is_resolved(),
    {
        match self {
            FrameBufferLocation::Autodetect => arbitrary(),
            FrameBufferLocation::Psram => 0,
            FrameBufferLocation::Dram => 1,
        }
    }

    /// Numeric code sent across the driver boundary.
    pub fn code(self) -> (c: u32)
        requires
            self.is_resolved(),
        ensures
            c == self.spec_code(),
    {
        match self {
            FrameBufferLocation::Autodetect => vstd::pervasive::unreached(),
            FrameBufferLocation::Psram => 0,
            FrameBufferLocation::Dram => 1,
        }
    }
}

/// Behavior when no frame buffer is free at capture time: block the capture
/// until one is returned, or overwrite so the pool always holds the newest
/// captured frame.
#[derive(Clone, Copy, Debug, PartialEq, Eq, Structural)]
pub enum GrabMode {
    WhenEmpty,
    Latest,
}

impl GrabMode {
    /// The driver's numeric code for this mode, fixed by the driver ABI.
    pub open spec fn spec_code(self) -> u32 {
        match self {
            GrabMode::WhenEmpty => 0,
            GrabMode::Latest => 1,
        }
    }

    /// Numeric code sent across the driver boundary.
    pub fn code(self) -> (c: u32)
        ensures
            c == self.spec_code(),
    {
        match self {
            GrabMode::WhenEmpty => 0,
            GrabMode::Latest => 1,
        }
    }
}

/// Capture resolution. `Invalid` is the driver's sentinel: it exists in the
/// driver ABI but a configuration carrying it is rejected before the driver
/// is ever called.
#[derive(Clone, Copy, Debug, PartialEq, Eq, Structural)]
pub enum FrameSize {
    Size96x96,
    Qqvga,
    Qcif,
    Hqvga,
    Size240x240,
    Qvga,
    Cif,
    Hvga,
    Vga,
    Svga,
    Xga,
    Hd,
    Sxga,
    Uxga,
    Fhd,
    Phd,
    P3mp,
    Qxga,
    Qhd,
    Wqxga,
    Pfhd,
    Qsxga,
    Invalid,
}

impl FrameSize {
    /// The driver's numeric code for this resolution, fixed by the driver ABI.
    pub open spec fn spec_code(self) -> u32 {
        match self {
            FrameSize::Size96x96 => 0,
            FrameSize::Qqvga => 1,
            FrameSize::Qcif => 2,
            FrameSize::Hqvga => 3,
            FrameSize::Size240x240 => 4,
            FrameSize::Qvga => 5,
            FrameSize::Cif => 6,
            FrameSize::Hvga => 7,
            FrameSize::Vga => 8,
            FrameSize::Svga => 9,
            FrameSize::Xga => 10,
            FrameSize::Hd => 11,
            FrameSize::Sxga => 12,
            FrameSize::Uxga => 13,
            FrameSize::Fhd => 14,
            FrameSize::Phd => 15,
            FrameSize::P3mp => 16,
            FrameSize::Qxga => 17,
            FrameSize::Qhd => 18,
            FrameSize::Wqxga => 19,
            FrameSize::Pfhd => 20,
            FrameSize::Qsxga => 21,
            FrameSize::Invalid => 22,
        }
    }

    /// Numeric code sent across the driver boundary.
    pub fn code(self) -> (c: u32)
        ensures
            c == self.spec_code(),
    {
        match self {
            FrameSize::Size96x96 => 0,
            FrameSize::Qqvga => 1,
            FrameSize::Qcif => 2,
            FrameSize::Hqvga => 3,
            FrameSize::Size240x240 => 4,
            FrameSize::Qvga => 5,
            FrameSize::Cif => 6,
            FrameSize::Hvga => 7,
            FrameSize::Vga => 8,
            FrameSize::Svga => 9,
            FrameSize::Xga => 10,
            FrameSize::Hd => 11,
            FrameSize::Sxga => 12,
            FrameSize::Uxga => 13,
            FrameSize::Fhd => 14,
            FrameSize::Phd => 15,
            FrameSize::P3mp => 16,
            FrameSize::Qxga => 17,
            FrameSize::Qhd => 18,
            FrameSize::Wqxga => 19,
            FrameSize::Pfhd => 20,
            FrameSize::Qsxga => 21,
            FrameSize::Invalid => 22,
        }
    }
}

} // verus!
