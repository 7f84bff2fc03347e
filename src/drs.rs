//! The game engine core's screen and timing decisions: the output size from
//! the upscaling factor and screen ratio options, and what the frontend is
//! told of it.
use vstd::prelude::*;
use crate::video::{GameGeometry, SAMPLE_RATE, SystemAvInfo, SystemTiming};

verus! {

/// Native width of the game's picture.
pub const WIDTH: u32 = 640;

/// Native height of the game's picture.
pub const HEIGHT: u32 = 240;

/// Gamepads the core connects on start.
pub const GAMEPAD_COUNT: u16 = 2;

/// The frame rate the game runs at, in thousandths of a frame per second.
pub const GAME_FPS_MILLI: u32 = 50000;

/// The widest picture the core may ask for: 21:9 at the largest factor (3x).
pub const MAX_SCREEN_WIDTH: u32 = 1680;

/// The tallest picture the core may ask for, at the largest factor (3x).
pub const MAX_SCREEN_HEIGHT: u32 = 720;

/// Upscaling factor and ratio whose screen size fits in 32 bits.
pub open spec fn screen_options_ok(scale: u32, ratio: (u32, u32)) -> bool {
    &&& ratio.1 > 0
    &&& HEIGHT * scale <= u32::MAX
    &&& HEIGHT * scale * ratio.0 <= u32::MAX
}

/// The screen size for an upscaling factor and a ratio: the native height
/// scaled, and the width that gives the ratio (rounded down).
pub open spec fn screen_size_spec(scale: u32, ratio: (u32, u32)) -> (u32, u32) {
    let h: int = HEIGHT * scale;
    ((h * ratio.0 / (ratio.1 as int)) as u32, h as u32)
}

pub fn screen_size(scale: u32, ratio: (u32, u32)) -> (r: (u32, u32))
    requires
        screen_options_ok(scale, ratio),
    ensures
        r == screen_size_spec(scale, ratio),
{
    let h = HEIGHT * scale;
    (h * ratio.0 / ratio.1, h)
}

/// What the core keeps of the screen and of audio between frames.
pub struct Core {
    pub screen_width: u32,
    pub screen_height: u32,
    /// The frontend calls back for audio; otherwise audio is produced after
    /// each frame.
    pub async_audio_enabled: bool,
    /// Microseconds since the previous frame, as the frontend last told.
    pub delta_time: i64,
}

pub open spec fn core_av_info_spec(width: u32, height: u32) -> SystemAvInfo {
    SystemAvInfo {
        geometry: GameGeometry {
            base_width: width,
            base_height: height,
            max_width: MAX_SCREEN_WIDTH,
            max_height: MAX_SCREEN_HEIGHT,
            aspect_num: width,
            aspect_den: height,
        },
        timing: SystemTiming { fps_milli: GAME_FPS_MILLI, sample_rate: SAMPLE_RATE },
    }
}

impl Core {
    /// The core at the screen size of the options it starts with.
    pub fn new(scale: u32, ratio: (u32, u32), async_audio_enabled: bool) -> (r: Core)
        requires
            screen_options_ok(scale, ratio),
        ensures
            (r.screen_width, r.screen_height) == screen_size_spec(scale, ratio),
            r.async_audio_enabled == async_audio_enabled,
            r.delta_time == 0,
    {
        let (w, h) = screen_size(scale, ratio);
        Core { screen_width: w, screen_height: h, async_audio_enabled, delta_time: 0 }
    }

    /// The output parameters: the current screen size, shown at its own
    /// ratio, within the largest size the options allow.
    pub fn core_av_info(&self) -> (r: SystemAvInfo)
        ensures
            r == core_av_info_spec(self.screen_width, self.screen_height),
    {
        SystemAvInfo {
            geometry: GameGeometry {
                base_width: self.screen_width,
                base_height: self.screen_height,
                max_width: MAX_SCREEN_WIDTH,
                max_height: MAX_SCREEN_HEIGHT,
                aspect_num: self.screen_width,
                aspect_den: self.screen_height,
            },
            timing: SystemTiming { fps_milli: GAME_FPS_MILLI, sample_rate: SAMPLE_RATE },
        }
    }

    pub fn get_system_av_info(&self) -> (r: SystemAvInfo)
        ensures
            r == core_av_info_spec(self.screen_width, self.screen_height),
    {
        self.core_av_info()
    }

    /// Takes the screen size of new options. The new geometry is returned
    /// when the size changed, for the frontend and the game to be told.
    pub fn set_resolution(&mut self, scale: u32, ratio: (u32, u32)) -> (r: Option<GameGeometry>)
        requires
            screen_options_ok(scale, ratio),
        ensures
            (final(self).screen_width, final(self).screen_height) == screen_size_spec(scale, ratio),
            final(self).async_audio_enabled == old(self).async_audio_enabled,
            final(self).delta_time == old(self).delta_time,
            r == (if screen_size_spec(scale, ratio) == (old(self).screen_width, old(self).screen_height) {
                None
            } else {
                Some(core_av_info_spec(final(self).screen_width, final(self).screen_height).geometry)
            }),
    {
        let (w, h) = screen_size(scale, ratio);
        let changed = w != self.screen_width || h != self.screen_height;
        self.screen_width = w;
        self.screen_height = h;
        if changed {
            Some(self.core_av_info().geometry)
        } else {
            None
        }
    }

    /// Whether audio is to be produced right after this frame: only when the
    /// frontend does not call back for it.
    pub fn render_frame(&self) -> (r: bool)
        ensures
            r == !self.async_audio_enabled,
    {
        !self.async_audio_enabled
    }

    pub fn elapse_time(&mut self, delta_time: i64)
        ensures
            final(self).delta_time == delta_time,
            final(self).screen_width == old(self).screen_width,
            final(self).screen_height == old(self).screen_height,
            final(self).async_audio_enabled == old(self).async_audio_enabled,
    {
        self.delta_time = delta_time;
    }

    /// The game keeps no savestates.
    pub fn serialize_size(&self) -> (r: usize)
        ensures
            r == 0,
    {
        0
    }
}

} // verus!
