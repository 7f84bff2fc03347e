//! Video timing and the audio/video parameters reported to the frontend.
//!
//! Frame rates are kept in thousandths of a frame per second and aspect ratios
//! as a fraction, so that every value here is exact.
use vstd::prelude::*;

verus! {

/// The region a disc, an executable or a BIOS was made for.
#[derive(Clone, Copy, Debug, PartialEq, Eq, Structural)]
pub enum Region {
    Japan,
    NorthAmerica,
    Europe,
}

/// The video timing standard of the emulated console.
#[derive(Clone, Copy, Debug, PartialEq, Eq, Structural)]
pub enum VideoClock {
    Ntsc,
    Pal,
}

/// Width of the largest picture the console's video output produces.
pub const PSX_MAX_WIDTH: u32 = 640;

/// Height of the largest picture the console's video output produces.
pub const PSX_MAX_HEIGHT: u32 = 480;

/// Audio sample rate handed to the frontend, in Hz.
pub const SAMPLE_RATE: u32 = 44100;

/// Size and shape of the picture handed to the frontend.
#[derive(Clone, Copy, Debug, PartialEq, Eq, Structural)]
pub struct GameGeometry {
    pub base_width: u32,
    pub base_height: u32,
    pub max_width: u32,
    pub max_height: u32,
    /// Display aspect ratio, as `aspect_num / aspect_den`.
    pub aspect_num: u32,
    pub aspect_den: u32,
}

/// Frame rate and audio sample rate.
#[derive(Clone, Copy, Debug, PartialEq, Eq, Structural)]
pub struct SystemTiming {
    /// Frames per second, in thousandths.
    pub fps_milli: u32,
    /// Audio samples per second.
    pub sample_rate: u32,
}

/// What the frontend asks for when it sets up its output.
#[derive(Clone, Copy, Debug, PartialEq, Eq, Structural)]
pub struct SystemAvInfo {
    pub geometry: GameGeometry,
    pub timing: SystemTiming,
}

pub open spec fn clock_of_region(region: Region) -> VideoClock {
    match region {
        Region::Europe => VideoClock::Pal,
        Region::NorthAmerica => VideoClock::Ntsc,
        Region::Japan => VideoClock::Ntsc,
    }
}

pub open spec fn framerate_of(clock: VideoClock) -> u32 {
    match clock {
        VideoClock::Ntsc => 59810,
        VideoClock::Pal => 49760,
    }
}

pub open spec fn av_info_of(clock: VideoClock, upscaling: u32) -> SystemAvInfo {
    let w = (PSX_MAX_WIDTH * upscaling) as u32;
    let h = (PSX_MAX_HEIGHT * upscaling) as u32;
    SystemAvInfo {
        geometry: GameGeometry {
            base_width: w,
            base_height: h,
            max_width: w,
            max_height: h,
            aspect_num: 4,
            aspect_den: 3,
        },
        timing: SystemTiming { fps_milli: framerate_of(clock), sample_rate: SAMPLE_RATE },
    }
}

/// Europe runs on PAL timings, North America and Japan on NTSC.
pub fn video_clock_for_region(region: Region) -> (r: VideoClock)
    ensures
        r == clock_of_region(region),
{
    match region {
        Region::Europe => VideoClock::Pal,
        Region::NorthAmerica => VideoClock::Ntsc,
        Region::Japan => VideoClock::Ntsc,
    }
}

/// The frame rate of the video output for a clock, in thousandths of a frame
/// per second: 59.81 for NTSC (53.690 MHz, 263 lines of 3413 cycles) and 49.76
/// for PAL (53.222 MHz, 314 lines of 3406 cycles).
pub fn video_output_framerate(clock: VideoClock) -> (r: u32)
    ensures
        r == framerate_of(clock),
{
    match clock {
        VideoClock::Ntsc => 59810,
        VideoClock::Pal => 49760,
    }
}

/// The parameters of the console's output at an internal upscaling factor:
/// a 640x480 frame scaled by the factor, shown at 4:3.
pub fn get_av_info(clock: VideoClock, upscaling: u32) -> (r: SystemAvInfo)
    requires
        PSX_MAX_WIDTH * upscaling <= u32::MAX,
    ensures
        r == av_info_of(clock, upscaling),
{
    let w = PSX_MAX_WIDTH * upscaling;
    let h = PSX_MAX_HEIGHT * upscaling;
    SystemAvInfo {
        geometry: GameGeometry {
            base_width: w,
            base_height: h,
            max_width: w,
            max_height: h,
            aspect_num: 4,
            aspect_den: 3,
        },
        timing: SystemTiming { fps_milli: video_output_framerate(clock), sample_rate: SAMPLE_RATE },
    }
}

} // verus!
