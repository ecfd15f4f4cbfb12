//! The validated peripheral configuration and its translation into the flat
//! numeric record the driver's single initialization call expects.

use vstd::prelude::*;
use crate::caps::{FrameBufferLocation, FrameSize, GrabMode, PixelFormat};

verus! {

/// Sentinel the driver ABI uses for an absent optional pin.
pub const PIN_UNSET: i32 = -1;

/// Largest clock frequency the driver record can carry: its frequency field
/// is a signed 32-bit integer.
pub const MAX_XCLK_HZ: u32 = 0x7fff_ffff;

/// Stands for the exclusively-owned clock timer the driver's signal
/// generator is configured on. The platform bootstrap layer hands the real
/// resource out once; a configuration holds this token in its place, so a
/// description is assembled from owned resources rather than bare numbers.
pub struct LedcTimer0;

/// Stands for the exclusively-owned clock channel paired with
/// [`LedcTimer0`], with the same ownership role.
pub struct LedcChannel0;

/// Structured failure of the driver's initialization call: the raw nonzero
/// result code, propagated verbatim. Not retryable by this crate; the
/// peripheral is left unready.
#[derive(Clone, Copy, Debug, PartialEq, Eq, Structural)]
pub struct InitError {
    /// The driver's raw result code (never zero).
    pub code: i32,
}

/// The flat record the driver's initialization call takes, every field
/// already in the driver's own numeric encoding. Field set and codes are
/// fixed by the driver ABI.
#[derive(Clone, Copy, Debug, PartialEq, Eq, Structural)]
pub struct CameraConfig {
    pub pin_pwdn: i32,
    pub pin_reset: i32,
    pub pin_xclk: i32,
    pub pin_sccb_sda: i32,
    pub pin_sccb_scl: i32,
    pub pin_d7: i32,
    pub pin_d6: i32,
    pub pin_d5: i32,
    pub pin_d4: i32,
    pub pin_d3: i32,
    pub pin_d2: i32,
    pub pin_d1: i32,
    pub pin_d0: i32,
    pub pin_vsync: i32,
    pub pin_href: i32,
    pub pin_pclk: i32,
    pub xclk_freq_hz: i32,
    pub ledc_timer: u32,
    pub ledc_channel: u32,
    pub pixel_format: u32,
    pub frame_size: u32,
    pub jpeg_quality: i32,
    pub fb_count: usize,
    pub fb_location: u32,
    pub grab_mode: u32,
    pub sccb_i2c_port: i32,
}

/// Resolution of a requested placement against the capability probe. The
/// probe value is the total capacity the external ("PSRAM"-class) region
/// reports; it is consulted only for `Autodetect`.
pub open spec fn spec_resolve_placement(requested: FrameBufferLocation, probe: usize) -> FrameBufferLocation {
    match requested {
        FrameBufferLocation::Autodetect => if probe > 0 {
            FrameBufferLocation::Psram
        } else {
            FrameBufferLocation::Dram
        },
        explicit => explicit,
    }
}

/// Resolves the requested buffer placement. `Autodetect` becomes `Psram`
/// exactly when the probed external capacity is nonzero and `Dram`
/// otherwise; an explicit placement is returned unchanged, whatever the
/// probe says. The result is always a concrete region.
pub fn resolve_placement(requested: FrameBufferLocation, probe: usize) -> (r: FrameBufferLocation)
    ensures
        r == spec_resolve_placement(requested, probe),
        requested is Autodetect ==> ((r is Psram) <==> probe > 0),
        requested is Autodetect ==> ((r is Dram) <==> probe == 0),
        !(requested is Autodetect) ==> r == requested,
        r.is_resolved(),
{
    match requested {
        FrameBufferLocation::Autodetect => {
            if probe > 0 {
                FrameBufferLocation::Psram
            } else {
                FrameBufferLocation::Dram
            }
        },
        explicit => explicit,
    }
}

/// Law: once a placement is resolved it is one of the two concrete regions,
/// so the value translated into the driver record is the code of `Psram` or
/// of `Dram` — `Autodetect` itself never crosses the driver boundary.
pub proof fn lemma_autodetect_never_sent(requested: FrameBufferLocation, probe: usize)
    ensures
        spec_resolve_placement(requested, probe).is_resolved(),
        spec_resolve_placement(requested, probe).spec_code() == FrameBufferLocation::Psram.spec_code()
            || spec_resolve_placement(requested, probe).spec_code() == FrameBufferLocation::Dram.spec_code(),
{
}

/// Translation of the driver's initialization result code. Zero is the
/// driver's success code; any other value is a rejection, surfaced verbatim.
pub fn init_result(code: i32) -> (r: Result<(), InitError>)
    ensures
        (r is Ok) <==> code == 0,
        r matches Err(e) ==> e.code == code,
{
    if code == 0 {
        Ok(())
    } else {
        Err(InitError { code })
    }
}

/// A validated, immutable description of the peripheral: every pin role,
/// the clock, the timer and channel resources, the capture parameters, and
/// the buffer policies. Pin fields hold the numeric identities of
/// already-validated, exclusively-owned pins handed over by the platform
/// bootstrap layer; this crate never multiplexes pins itself.
pub struct InitConfig {
    pub pin_pwdn: u8,
    pub pin_reset: Option<u8>,
    pub pin_xclk: u8,
    pub pin_sccb_sda: u8,
    pub pin_sccb_scl: u8,
    pub pin_d7: u8,
    pub pin_d6: u8,
    pub pin_d5: u8,
    pub pin_d4: u8,
    pub pin_d3: u8,
    pub pin_d2: u8,
    pub pin_d1: u8,
    pub pin_d0: u8,
    pub pin_vsync: u8,
    pub pin_href: u8,
    pub pin_pclk: u8,

    pub xclk_freq_hz: u32,

    pub ledc_timer: LedcTimer0,
    pub ledc_channel: LedcChannel0,

    pub pixel_format: PixelFormat,
    pub frame_size: FrameSize,
    /// Compression quality; meaningful only when `pixel_format` is `Jpeg`.
    /// Its accepted range is driver-dependent and left to the driver.
    pub jpeg_quality: u8,

    pub fb_count: usize,
    pub fb_location: FrameBufferLocation,
    pub grab_mode: GrabMode,
    pub sccb_i2c_port: u8,
}

impl InitConfig {
    /// The fifteen required pin roles, in a fixed order.
    pub open spec fn spec_required_pins(self) -> Seq<u8> {
        seq![
            self.pin_pwdn,
            self.pin_xclk,
            self.pin_sccb_sda,
            self.pin_sccb_scl,
            self.pin_d7,
            self.pin_d6,
            self.pin_d5,
            self.pin_d4,
            self.pin_d3,
            self.pin_d2,
            self.pin_d1,
            self.pin_d0,
            self.pin_vsync,
            self.pin_href,
            self.pin_pclk,
        ]
    }

    /// A configuration the driver may be initialized with: the required pin
    /// roles are pairwise distinct, at least one frame buffer is requested,
    /// the resolution is not the driver's `Invalid` sentinel, and the clock
    /// frequency fits the record's signed field.
    pub open spec fn wf(self) -> bool {
        &&& self.spec_required_pins().no_duplicates()
        &&& self.fb_count >= 1
        &&& self.frame_size !is Invalid
        &&& self.xclk_freq_hz <= MAX_XCLK_HZ
    }

    /// The required pins as a vector, in the order of
    /// [`Self::spec_required_pins`].
    fn required_pins(&self) -> (v: Vec<u8>)
        ensures
            v@ == self.spec_required_pins(),
    {
        let mut v: Vec<u8> = Vec::new();
        v.push(self.pin_pwdn);
        v.push(self.pin_xclk);
        v.push(self.pin_sccb_sda);
        v.push(self.pin_sccb_scl);
        v.push(self.pin_d7);
        v.push(self.pin_d6);
        v.push(self.pin_d5);
        v.push(self.pin_d4);
        v.push(self.pin_d3);
        v.push(self.pin_d2);
        v.push(self.pin_d1);
        v.push(self.pin_d0);
        v.push(self.pin_vsync);
        v.push(self.pin_href);
        v.push(self.pin_pclk);
        proof {
            assert(v@ =~= self.spec_required_pins());
        }
        v
    }

    /// Whether this description may be handed to the driver; decides
    /// exactly [`Self::wf`].
    pub fn valid(&self) -> (r: bool)
        ensures
            r == self.wf(),
    {
        if self.fb_count < 1 {
            return false;
        }
        if self.frame_size == FrameSize::Invalid {
            return false;
        }
        if self.xclk_freq_hz > MAX_XCLK_HZ {
            return false;
        }
        let pins = self.required_pins();
        let n = pins.len();
        let mut i: usize = 0;
        while i < n
            invariant
                n == pins@.len(),
                pins@ == self.spec_required_pins(),
                i <= n,
                forall|a: int, b: int| 0 <= a < b < n && a < i ==> pins@[a] != pins@[b],
            decreases n - i,
        {
            let mut j: usize = i + 1;
            while j < n
                invariant
                    n == pins@.len(),
                    pins@ == self.spec_required_pins(),
                    i < n,
                    i < j <= n,
                    forall|a: int, b: int| 0 <= a < b < n && a < i ==> pins@[a] != pins@[b],
                    forall|b: int| i < b < j ==> pins@[i as int] != pins@[b],
                decreases n - j,
            {
                if pins[i] == pins[j] {
                    proof {
                        assert(pins@[i as int] == pins@[j as int]);
                        assert(!pins@.no_duplicates());
                    }
                    return false;
                }
                j += 1;
            }
            i += 1;
        }
        proof {
            assert forall|p: int, q: int|
                0 <= p < pins@.len() && 0 <= q < pins@.len() && p != q implies pins@[p]
                != pins@[q] by {
                if p < q {
                    assert(pins@[p] != pins@[q]);
                } else {
                    assert(pins@[q] != pins@[p]);
                }
            }
            assert(pins@.no_duplicates());
        }
        true
    }

    /// Builds the flat record the driver expects. Placement is resolved
    /// first — an `Autodetect` request consults the probed external
    /// capacity and only the resolved region's code is written into the
    /// record — and every symbolic field is translated to its numeric
    /// encoding, with the absent reset pin becoming the driver's sentinel.
    pub fn driver_config(&self, probe: usize) -> (r: CameraConfig)
        requires
            self.wf(),
        ensures
            r.pin_pwdn == self.pin_pwdn as i32,
            r.pin_reset == (match self.pin_reset {
                Some(p) => p as i32,
                None => PIN_UNSET,
            }),
            r.pin_xclk == self.pin_xclk as i32,
            r.pin_sccb_sda == self.pin_sccb_sda as i32,
            r.pin_sccb_scl == self.pin_sccb_scl as i32,
            r.pin_d7 == self.pin_d7 as i32,
            r.pin_d6 == self.pin_d6 as i32,
            r.pin_d5 == self.pin_d5 as i32,
            r.pin_d4 == self.pin_d4 as i32,
            r.pin_d3 == self.pin_d3 as i32,
            r.pin_d2 == self.pin_d2 as i32,
            r.pin_d1 == self.pin_d1 as i32,
            r.pin_d0 == self.pin_d0 as i32,
            r.pin_vsync == self.pin_vsync as i32,
            r.pin_href == self.pin_href as i32,
            r.pin_pclk == self.pin_pclk as i32,
            r.xclk_freq_hz == self.xclk_freq_hz as i32,
            r.ledc_timer == 0,
            r.ledc_channel == 0,
            r.pixel_format == self.pixel_format.spec_code(),
            r.frame_size == self.frame_size.spec_code(),
            r.jpeg_quality == self.jpeg_quality as i32,
            r.fb_count == self.fb_count,
            r.fb_location == spec_resolve_placement(self.fb_location, probe).spec_code(),
            spec_resolve_placement(self.fb_location, probe).is_resolved(),
            r.grab_mode == self.grab_mode.spec_code(),
            r.sccb_i2c_port == self.sccb_i2c_port as i32,
    {
        let fb_location = resolve_placement(self.fb_location, probe);
        CameraConfig {
            pin_pwdn: self.pin_pwdn as i32,
            pin_reset: match &self.pin_reset {
                Some(p) => *p as i32,
                None => PIN_UNSET,
            },
            pin_xclk: self.pin_xclk as i32,
            pin_sccb_sda: self.pin_sccb_sda as i32,
            pin_sccb_scl: self.pin_sccb_scl as i32,
            pin_d7: self.pin_d7 as i32,
            pin_d6: self.pin_d6 as i32,
            pin_d5: self.pin_d5 as i32,
            pin_d4: self.pin_d4 as i32,
            pin_d3: self.pin_d3 as i32,
            pin_d2: self.pin_d2 as i32,
            pin_d1: self.pin_d1 as i32,
            pin_d0: self.pin_d0 as i32,
            pin_vsync: self.pin_vsync as i32,
            pin_href: self.pin_href as i32,
            pin_pclk: self.pin_pclk as i32,
            xclk_freq_hz: self.xclk_freq_hz as i32,
            ledc_timer: 0,
            ledc_channel: 0,
            pixel_format: self.pixel_format.code(),
            frame_size: self.frame_size.code(),
            jpeg_quality: self.jpeg_quality as i32,
            fb_count: self.fb_count,
            fb_location: fb_location.code(),
            grab_mode: self.grab_mode.code(),
            sccb_i2c_port: self.sccb_i2c_port as i32,
        }
    }
}

} // verus!
