//! The emulator context: what a running session keeps between the frontend's
//! calls, and how each call (frame, reset, savestate, settings, GL context)
//! changes it.
//!
//! The emulated machine itself is driven by the embedder; the context receives
//! what it needs of it as plain values: the BIOS it booted on, its encoded
//! state for savestates, and the cycles each frame ran.
use vstd::prelude::*;
use crate::bios::{Bios, BiosQuery};
use crate::boot::BootedSystem;
use crate::savestate::{
    DecodeError,
    SAVESTATE_MARGIN,
    SAVESTATE_OVERHEAD,
    SharedState,
    compute_savestate_max_length,
    decode_savestate,
    max_len_spec,
    parse_savestate,
    save_state,
    savestate_bytes,
    savestate_len_spec,
};
use crate::text::{
    parse_bool,
    parse_bool_spec,
    parse_color_depth,
    parse_unsigned_spec,
    parse_upscale,
    str_eq,
    trim_non_numeric_spec,
};
use crate::video::{GameGeometry, SystemAvInfo, VideoClock, av_info_of, get_av_info};

verus! {

/// The largest upscaling factor whose frame width still fits in 32 bits.
pub const MAX_UPSCALE: u32 = 6710886;

/// Breakpoint state, kept across resets and savestate loads.
pub struct Debugger {
    /// A break was asked for and has not been served yet.
    pub break_pending: bool,
    /// BIOS calls are logged.
    pub log_bios_calls: bool,
}

impl Debugger {
    pub fn new() -> (r: Debugger)
        ensures
            !r.break_pending,
            !r.log_bios_calls,
    {
        Debugger { break_pending: false, log_bios_calls: false }
    }

    /// Asks the debugger to stop the machine at the next opportunity.
    pub fn trigger_break(&mut self)
        ensures
            final(self).break_pending,
            final(self).log_bios_calls == old(self).log_bios_calls,
    {
        self.break_pending = true;
    }
}

/// The options the frontend shows for this core.
#[derive(Clone, Copy, Debug, PartialEq, Eq, Structural)]
pub struct CoreVariables {
    pub internal_upscale_factor: u32,
    pub internal_color_depth: u8,
    pub scale_dither: bool,
    pub wireframe: bool,
    pub bios_menu: bool,
    pub skip_bios_animation: bool,
    pub display_internal_fps: bool,
    pub log_frame_counters: bool,
    pub enable_debug_uart: bool,
    pub debug_on_break: bool,
    pub debug_on_key: bool,
    pub debug_on_reset: bool,
    pub log_bios_calls: bool,
}

/// Why an option could not be taken.
#[derive(Clone, Copy, Debug, PartialEq, Eq, Structural)]
pub enum VariableError {
    /// No option of this core has that key.
    UnknownKey,
    /// The value is not one the option takes.
    BadValue,
}

pub open spec fn upscale_ok(v: u32) -> bool {
    1 <= v <= MAX_UPSCALE
}

/// The keys of the options, in the order they are registered.
pub open spec fn variable_keys() -> Seq<Seq<char>> {
    seq![
        "rustation_internal_upscale_factor"@,
        "rustation_internal_color_depth"@,
        "rustation_scale_dither"@,
        "rustation_wireframe"@,
        "rustation_bios_menu"@,
        "rustation_skip_bios_animation"@,
        "rustation_display_internal_fps"@,
        "rustation_log_frame_counters"@,
        "rustation_enable_debug_uart"@,
        "rustation_debug_on_break"@,
        "rustation_debug_on_key"@,
        "rustation_debug_on_reset"@,
        "rustation_log_bios_calls"@,
    ]
}

/// `vars` with the boolean option at position `i` of `variable_keys` set to `b`.
pub open spec fn with_flag(vars: CoreVariables, i: int, b: bool) -> CoreVariables {
    CoreVariables {
        internal_upscale_factor: vars.internal_upscale_factor,
        internal_color_depth: vars.internal_color_depth,
        scale_dither: if i == 2 { b } else { vars.scale_dither },
        wireframe: if i == 3 { b } else { vars.wireframe },
        bios_menu: if i == 4 { b } else { vars.bios_menu },
        skip_bios_animation: if i == 5 { b } else { vars.skip_bios_animation },
        display_internal_fps: if i == 6 { b } else { vars.display_internal_fps },
        log_frame_counters: if i == 7 { b } else { vars.log_frame_counters },
        enable_debug_uart: if i == 8 { b } else { vars.enable_debug_uart },
        debug_on_break: if i == 9 { b } else { vars.debug_on_break },
        debug_on_key: if i == 10 { b } else { vars.debug_on_key },
        debug_on_reset: if i == 11 { b } else { vars.debug_on_reset },
        log_bios_calls: if i == 12 { b } else { vars.log_bios_calls },
    }
}

/// The position in `variable_keys` of the first key at or after `i` equal to
/// `key`, or 13 when there is none.
pub open spec fn key_index_from(key: Seq<char>, i: int) -> int
    decreases 13 - i,
{
    if i < 0 || i >= 13 {
        13
    } else if key == variable_keys()[i] {
        i
    } else {
        key_index_from(key, i + 1)
    }
}

/// The options after the frontend sets `key` to `value`, or why it cannot.
pub open spec fn set_variable_spec(vars: CoreVariables, key: Seq<char>, value: Seq<char>) -> Result<
    CoreVariables,
    VariableError,
> {
    let k = key_index_from(key, 0);
    if k == 0 {
        match parse_unsigned_spec(trim_non_numeric_spec(value), u32::MAX) {
            Ok(v) => if upscale_ok(v) {
                Ok(CoreVariables { internal_upscale_factor: v, ..vars })
            } else {
                Err(VariableError::BadValue)
            },
            Err(_) => Err(VariableError::BadValue),
        }
    } else if k == 1 {
        match parse_unsigned_spec(trim_non_numeric_spec(value), 255) {
            Ok(v) => Ok(CoreVariables { internal_color_depth: v as u8, ..vars }),
            Err(_) => Err(VariableError::BadValue),
        }
    } else if k < 13 {
        match parse_bool_spec(value) {
            Ok(b) => Ok(with_flag(vars, k, b)),
            Err(_) => Err(VariableError::BadValue),
        }
    } else {
        Err(VariableError::UnknownKey)
    }
}

impl CoreVariables {
    pub open spec fn wf(&self) -> bool {
        upscale_ok(self.internal_upscale_factor)
    }

    /// The first choice of every option: native resolution and color depth,
    /// dithering scaled, every other switch off.
    pub fn new() -> (r: CoreVariables)
        ensures
            r.wf(),
            r.internal_upscale_factor == 1,
            r.internal_color_depth == 16,
            r.scale_dither,
            !r.wireframe && !r.bios_menu && !r.skip_bios_animation && !r.display_internal_fps,
            !r.log_frame_counters && !r.enable_debug_uart && !r.debug_on_break,
            !r.debug_on_key && !r.debug_on_reset && !r.log_bios_calls,
    {
        CoreVariables {
            internal_upscale_factor: 1,
            internal_color_depth: 16,
            scale_dither: true,
            wireframe: false,
            bios_menu: false,
            skip_bios_animation: false,
            display_internal_fps: false,
            log_frame_counters: false,
            enable_debug_uart: false,
            debug_on_break: false,
            debug_on_key: false,
            debug_on_reset: false,
            log_bios_calls: false,
        }
    }

    /// Sets the boolean option at position `i` of `variable_keys`.
    fn set_flag(&mut self, i: usize, b: bool)
        requires
            2 <= i < 13,
        ensures
            *final(self) == with_flag(*old(self), i as int, b),
    {
        let v = *self;
        *self = CoreVariables {
            internal_upscale_factor: v.internal_upscale_factor,
            internal_color_depth: v.internal_color_depth,
            scale_dither: if i == 2 { b } else { v.scale_dither },
            wireframe: if i == 3 { b } else { v.wireframe },
            bios_menu: if i == 4 { b } else { v.bios_menu },
            skip_bios_animation: if i == 5 { b } else { v.skip_bios_animation },
            display_internal_fps: if i == 6 { b } else { v.display_internal_fps },
            log_frame_counters: if i == 7 { b } else { v.log_frame_counters },
            enable_debug_uart: if i == 8 { b } else { v.enable_debug_uart },
            debug_on_break: if i == 9 { b } else { v.debug_on_break },
            debug_on_key: if i == 10 { b } else { v.debug_on_key },
            debug_on_reset: if i == 11 { b } else { v.debug_on_reset },
            log_bios_calls: if i == 12 { b } else { v.log_bios_calls },
        };
    }

    /// Takes the value the frontend holds for `key`. An unknown key or a value
    /// the option does not take leaves the options as they were.
    pub fn set_variable(&mut self, key: &str, value: &str) -> (r: Result<(), VariableError>)
        ensures
            r is Ok ==> set_variable_spec(*old(self), key@, value@) == Ok::<
                CoreVariables,
                VariableError,
            >(*final(self)),
            r matches Err(e) ==> set_variable_spec(*old(self), key@, value@) == Err::<
                CoreVariables,
                VariableError,
            >(e) && *final(self) == *old(self),
            old(self).wf() ==> final(self).wf(),
    {
        let keys: [&str; 13] = [
            "rustation_internal_upscale_factor",
            "rustation_internal_color_depth",
            "rustation_scale_dither",
            "rustation_wireframe",
            "rustation_bios_menu",
            "rustation_skip_bios_animation",
            "rustation_display_internal_fps",
            "rustation_log_frame_counters",
            "rustation_enable_debug_uart",
            "rustation_debug_on_break",
            "rustation_debug_on_key",
            "rustation_debug_on_reset",
            "rustation_log_bios_calls",
        ];
        assert(forall|j: int| 0 <= j < 13 ==> keys@[j]@ == #[trigger] variable_keys()[j]);
        let mut i: usize = 0;
        while i < 13
            invariant
                i <= 13,
                *self == *old(self),
                forall|j: int| 0 <= j < 13 ==> keys@[j]@ == #[trigger] variable_keys()[j],
                key_index_from(key@, 0) == key_index_from(key@, i as int),
            decreases 13 - i,
        {
            if str_eq(key, keys[i]) {
                if i == 0 {
                    return match parse_upscale(value) {
                        Ok(v) => if 1 <= v && v <= MAX_UPSCALE {
                            self.internal_upscale_factor = v;
                            Ok(())
                        } else {
                            Err(VariableError::BadValue)
                        },
                        Err(_) => Err(VariableError::BadValue),
                    };
                } else if i == 1 {
                    return match parse_color_depth(value) {
                        Ok(v) => {
                            self.internal_color_depth = v;
                            Ok(())
                        },
                        Err(_) => Err(VariableError::BadValue),
                    };
                } else {
                    return match parse_bool(value) {
                        Ok(b) => {
                            self.set_flag(i, b);
                            Ok(())
                        },
                        Err(_) => Err(VariableError::BadValue),
                    };
                }
            }
            i = i + 1;
        }
        Err(VariableError::UnknownKey)
    }
}

/// Why a savestate could not be loaded.
#[derive(Clone, Copy, Debug, PartialEq, Eq, Structural)]
pub enum LoadStateError {
    /// The savestate itself could not be read.
    Decode(DecodeError),
    /// The BIOS the session runs on was not found again on this host.
    NoBios,
}

/// The machine state to put back after a savestate load, with the BIOS
/// found again for it.
pub struct LoadedState {
    pub cpu: Vec<u8>,
    pub bios: Bios,
}

/// A running session.
pub struct Context {
    shared_state: SharedState,
    debugger: Debugger,
    disc_path: String,
    video_clock: VideoClock,
    bios_sha256: [u8; 32],
    variables: CoreVariables,
    savestate_max_len: usize,
    has_init: bool,
    gl_ready: bool,
}

/// What a session holds, as seen by contracts.
pub struct ContextView {
    pub shared_state: SharedState,
    pub break_pending: bool,
    pub log_bios_calls: bool,
    pub disc_path: Seq<char>,
    pub video_clock: VideoClock,
    pub bios_sha256: Seq<u8>,
    pub variables: CoreVariables,
    pub savestate_max_len: nat,
    pub has_init: bool,
    pub gl_ready: bool,
}

/// What the embedder does for one frame.
#[derive(Clone, Copy, Debug, PartialEq, Eq, Structural)]
pub struct FrameActions {
    /// Geometry to announce to the frontend before drawing, on the first frame.
    pub geometry: Option<GameGeometry>,
    /// Whether a GL context is there to draw into.
    pub present: bool,
}

/// The shared state of a console that was just switched on.
pub open spec fn fresh_shared_state() -> SharedState {
    SharedState { frames: 0, ticks: 0 }
}

/// The counters after one more frame of `cycles` CPU cycles; they wrap around.
pub open spec fn advanced(s: SharedState, cycles: u64) -> SharedState {
    SharedState {
        frames: if s.frames == u64::MAX {
            0
        } else {
            (s.frames + 1) as u64
        },
        ticks: if s.ticks + cycles > u64::MAX {
            (s.ticks + cycles - 0x1_0000_0000_0000_0000) as u64
        } else {
            (s.ticks + cycles) as u64
        },
    }
}

impl View for Context {
    type V = ContextView;

    closed spec fn view(&self) -> ContextView {
        ContextView {
            shared_state: self.shared_state,
            break_pending: self.debugger.break_pending,
            log_bios_calls: self.debugger.log_bios_calls,
            disc_path: self.disc_path@,
            video_clock: self.video_clock,
            bios_sha256: self.bios_sha256@,
            variables: self.variables,
            savestate_max_len: self.savestate_max_len as nat,
            has_init: self.has_init,
            gl_ready: self.gl_ready,
        }
    }
}

impl Context {
    pub open spec fn wf(&self) -> bool {
        self@.variables.wf()
    }

    /// Builds the session of a freshly booted console. `cpu` is the machine's
    /// encoded state, from which the savestate size is measured once. The
    /// debugger breaks at once when asked to on reset.
    pub fn new(disc_path: String, booted: &BootedSystem, cpu: &[u8], variables: CoreVariables) -> (r:
        Context)
        requires
            variables.wf(),
            cpu@.len() <= u32::MAX,
            max_len_spec(cpu@.len()) <= usize::MAX,
        ensures
            r.wf(),
            r@ == (ContextView {
                shared_state: fresh_shared_state(),
                break_pending: variables.debug_on_reset,
                log_bios_calls: variables.log_bios_calls,
                disc_path: disc_path@,
                video_clock: booted.video_clock,
                bios_sha256: booted.bios.meta().sha256@,
                variables,
                savestate_max_len: max_len_spec(cpu@.len()),
                has_init: false,
                gl_ready: false,
            }),
    {
        let shared_state = SharedState::new();
        let max_len = compute_savestate_max_length(cpu, booted.video_clock, &shared_state);
        let mut debugger = Debugger::new();
        debugger.log_bios_calls = variables.log_bios_calls;
        if variables.debug_on_reset {
            debugger.trigger_break();
        }
        Context {
            shared_state,
            debugger,
            disc_path,
            video_clock: booted.video_clock,
            bios_sha256: booted.bios.metadata().sha256,
            variables,
            savestate_max_len: max_len,
            has_init: false,
            gl_ready: false,
        }
    }

    pub fn shared_state(&self) -> (r: SharedState)
        ensures
            r == self@.shared_state,
    {
        self.shared_state
    }

    pub fn debugger(&self) -> (r: &Debugger)
        ensures
            r.break_pending == self@.break_pending,
            r.log_bios_calls == self@.log_bios_calls,
    {
        &self.debugger
    }

    /// The content the session was started from, which a reset boots again.
    pub fn disc_path(&self) -> (r: &String)
        ensures
            r@ == self@.disc_path,
    {
        &self.disc_path
    }

    pub fn video_clock(&self) -> (r: VideoClock)
        ensures
            r == self@.video_clock,
    {
        self.video_clock
    }

    pub fn variables(&self) -> (r: CoreVariables)
        ensures
            r == self@.variables,
    {
        self.variables
    }

    /// Asks the debugger to stop the machine.
    pub fn trigger_break(&mut self)
        ensures
            final(self)@ == (ContextView { break_pending: true, ..old(self)@ }),
    {
        self.debugger.trigger_break();
    }

    /// Accounts for one emulated frame of `cycles` CPU cycles. The first frame
    /// also announces the output geometry, which cannot be done before the
    /// frontend runs a frame.
    pub fn render_frame(&mut self, cycles: u64) -> (r: FrameActions)
        requires
            old(self).wf(),
        ensures
            final(self).wf(),
            final(self)@ == (ContextView {
                shared_state: advanced(old(self)@.shared_state, cycles),
                has_init: true,
                ..old(self)@
            }),
            r.geometry == (if old(self)@.has_init {
                None
            } else {
                Some(av_info_of(old(self)@.video_clock, old(self)@.variables.internal_upscale_factor).geometry)
            }),
            r.present == old(self)@.gl_ready,
    {
        let geometry = if self.has_init {
            None
        } else {
            self.has_init = true;
            Some(get_av_info(self.video_clock, self.variables.internal_upscale_factor).geometry)
        };
        self.shared_state = SharedState {
            frames: self.shared_state.frames.wrapping_add(1),
            ticks: self.shared_state.ticks.wrapping_add(cycles),
        };
        FrameActions { geometry, present: self.gl_ready }
    }

    /// The output parameters at the session's video clock and upscaling factor.
    pub fn get_system_av_info(&self) -> (r: SystemAvInfo)
        requires
            self.wf(),
        ensures
            r == av_info_of(self@.video_clock, self@.variables.internal_upscale_factor),
    {
        get_av_info(self.video_clock, self.variables.internal_upscale_factor)
    }

    /// Takes the options the frontend now holds. Calling it again with the
    /// same options changes nothing more.
    pub fn refresh_variables(&mut self, variables: CoreVariables)
        requires
            variables.wf(),
        ensures
            final(self).wf(),
            final(self)@ == (ContextView {
                variables,
                log_bios_calls: variables.log_bios_calls,
                ..old(self)@
            }),
    {
        self.variables = variables;
        self.debugger.log_bios_calls = variables.log_bios_calls;
    }

    /// Restarts the console with the system booted again from the session's
    /// content. The shared state starts afresh; the debugger and the content
    /// path stay. A failed boot leaves the session as it was.
    pub fn reset<E>(&mut self, booted: Result<BootedSystem, E>) -> (r: bool)
        ensures
            r == booted is Ok,
            booted matches Ok(b) ==> final(self)@ == (ContextView {
                shared_state: fresh_shared_state(),
                video_clock: b.video_clock,
                bios_sha256: b.bios.meta().sha256@,
                break_pending: old(self)@.break_pending || old(self)@.variables.debug_on_reset,
                ..old(self)@
            }),
            booted is Err ==> final(self)@ == old(self)@,
    {
        match booted {
            Ok(b) => {
                self.video_clock = b.video_clock;
                self.bios_sha256 = b.bios.metadata().sha256;
                self.shared_state = SharedState::new();
                if self.variables.debug_on_reset {
                    self.debugger.trigger_break();
                }
                true
            },
            Err(_) => false,
        }
    }

    /// The frontend made a new GL context: resources are to be built anew.
    pub fn gl_context_reset(&mut self)
        ensures
            final(self)@ == (ContextView { gl_ready: true, ..old(self)@ }),
    {
        self.gl_ready = true;
    }

    /// The frontend is about to destroy the GL context: nothing built in it
    /// may be used after this.
    pub fn gl_context_destroy(&mut self)
        ensures
            final(self)@ == (ContextView { gl_ready: false, ..old(self)@ }),
    {
        self.gl_ready = false;
    }

    /// The savestate size advertised to the frontend, measured once when the
    /// session was built.
    pub fn serialize_size(&self) -> (r: usize)
        ensures
            r == self@.savestate_max_len,
    {
        self.savestate_max_len
    }

    /// Writes the savestate of the session, with `cpu` the machine's encoded
    /// state, at the start of `buf`. Fails, writing nothing, when it does not fit.
    pub fn serialize(&self, buf: &mut [u8], cpu: &[u8]) -> (r: Result<(), ()>)
        requires
            cpu@.len() <= u32::MAX,
        ensures
            r is Ok <==> savestate_len_spec(cpu@.len()) <= old(buf)@.len(),
            r is Ok ==> final(buf)@ == savestate_bytes(
                cpu@,
                self@.video_clock,
                self@.shared_state,
            ) + old(buf)@.subrange(savestate_len_spec(cpu@.len()) as int, old(buf)@.len() as int),
            r is Err ==> final(buf)@ == old(buf)@,
    {
        save_state(buf, cpu, self.video_clock, &self.shared_state)
    }

    /// The BIOS to look for before loading a savestate: the one the session
    /// runs on, which savestates leave out.
    pub fn savestate_bios_query(&self) -> (r: BiosQuery)
        ensures
            r matches BiosQuery::Checksum(c) && c@ == self@.bios_sha256,
    {
        BiosQuery::Checksum(self.bios_sha256)
    }

    /// Loads a savestate, given the BIOS found on this host for
    /// `savestate_bios_query`. On success the video clock and shared state come
    /// from the savestate, and the machine state and BIOS are handed back to be
    /// put in place; the debugger, the content path and the rest stay. On
    /// failure the session is left as it was.
    pub fn unserialize(&mut self, buf: &[u8], bios: Option<Bios>) -> (r: Result<
        LoadedState,
        LoadStateError,
    >)
        ensures
            parse_savestate(buf@) matches Err(e) ==> r == Err::<LoadedState, LoadStateError>(
                LoadStateError::Decode(e),
            ),
            parse_savestate(buf@) is Ok && !(bios matches Some(b) && b.meta().sha256@
                == old(self)@.bios_sha256) ==> r == Err::<LoadedState, LoadStateError>(
                LoadStateError::NoBios,
            ),
            parse_savestate(buf@) is Ok ==> (bios matches Some(b) && b.meta().sha256@ == old(
                self,
            )@.bios_sha256 ==> r is Ok),
            r is Err ==> final(self)@ == old(self)@,
            r matches Ok(l) ==> (parse_savestate(buf@) matches Ok((cpu, clock, shared)) && l.cpu@
                == cpu && bios == Some(l.bios) && l.bios.meta().sha256@ == old(self)@.bios_sha256
                && final(self)@ == (ContextView {
                video_clock: clock,
                shared_state: shared,
                ..old(self)@
            })),
    {
        let st = match decode_savestate(buf) {
            Ok(st) => st,
            Err(e) => return Err(LoadStateError::Decode(e)),
        };
        let bios = match bios {
            Some(b) => b,
            None => return Err(LoadStateError::NoBios),
        };
        if !crate::bios::digest_eq(&bios.metadata().sha256, &self.bios_sha256) {
            return Err(LoadStateError::NoBios);
        }
        self.video_clock = st.video_clock;
        self.shared_state = st.shared_state;
        Ok(LoadedState { cpu: st.cpu, bios })
    }
}

/// An option as it is registered with the frontend: its key, and its label
/// followed by its choices ("Label; first|second").
pub struct VariableDef {
    pub key: &'static str,
    pub description: &'static str,
}

/// The options of this core, first choice first, in `variable_keys` order.
pub fn init_variables() -> (r: Vec<VariableDef>)
    ensures
        r@.len() == 13,
        forall|i: int| 0 <= i < 13 ==> (#[trigger] r@[i]).key@ == variable_keys()[i],
{
    let mut defs: Vec<VariableDef> = Vec::new();
    defs.push(VariableDef {
        key: "rustation_internal_upscale_factor",
        description: "Internal upscaling factor; 1x (native)|2x|3x|4x|5x|6x|7x|8x|9x|10x",
    });
    defs.push(VariableDef {
        key: "rustation_internal_color_depth",
        description: "Internal color depth; dithered 16bpp (native)|32bpp",
    });
    defs.push(VariableDef {
        key: "rustation_scale_dither",
        description: "Scale dithering pattern with internal resolution; enabled|disabled",
    });
    defs.push(VariableDef { key: "rustation_wireframe", description: "Wireframe mode; disabled|enabled" });
    defs.push(VariableDef {
        key: "rustation_bios_menu",
        description: "Boot to BIOS menu; disabled|enabled",
    });
    defs.push(VariableDef {
        key: "rustation_skip_bios_animation",
        description: "Skip BIOS boot animations; disabled|enabled",
    });
    defs.push(VariableDef {
        key: "rustation_display_internal_fps",
        description: "Display internal FPS; disabled|enabled",
    });
    defs.push(VariableDef {
        key: "rustation_log_frame_counters",
        description: "Log frame counters; disabled|enabled",
    });
    defs.push(VariableDef {
        key: "rustation_enable_debug_uart",
        description: "Enable debug UART in the BIOS; disabled|enabled",
    });
    defs.push(VariableDef {
        key: "rustation_debug_on_break",
        description: "Trigger debugger on BREAK instructions; disabled|enabled",
    });
    defs.push(VariableDef {
        key: "rustation_debug_on_key",
        description: "Trigger debugger when Pause/Break is pressed; disabled|enabled",
    });
    defs.push(VariableDef {
        key: "rustation_debug_on_reset",
        description: "Trigger debugger when starting or resetting the emulator; disabled|enabled",
    });
    defs.push(VariableDef { key: "rustation_log_bios_calls", description: "Log BIOS calls; disabled|enabled" });
    defs
}

/// Called once when the core is loaded. The library keeps no global state, so
/// there is nothing to set up here.
pub fn init() {
}

/// Whether a savestate of a machine state of `cpu_len` bytes can be written,
/// and its advertised size counted, on this machine.
pub open spec fn measurable(cpu_len: nat) -> bool {
    cpu_len <= u32::MAX && max_len_spec(cpu_len) <= usize::MAX
}

/// Builds the session of a console booted from the content at `disc_path`,
/// with `cpu` its machine's encoded state. Fails when that state is too large
/// for a savestate.
pub fn load_game(disc_path: String, booted: &BootedSystem, cpu: &[u8], variables: CoreVariables) -> (r:
    Option<Context>)
    requires
        variables.wf(),
    ensures
        r is Some <==> measurable(cpu@.len()),
        r matches Some(c) ==> c.wf() && c@ == (ContextView {
            shared_state: fresh_shared_state(),
            break_pending: variables.debug_on_reset,
            log_bios_calls: variables.log_bios_calls,
            disc_path: disc_path@,
            video_clock: booted.video_clock,
            bios_sha256: booted.bios.meta().sha256@,
            variables,
            savestate_max_len: max_len_spec(cpu@.len()),
            has_init: false,
            gl_ready: false,
        }),
{
    let n = cpu.len();
    if n > u32::MAX as usize || usize::MAX - n < SAVESTATE_OVERHEAD + SAVESTATE_MARGIN {
        return None;
    }
    Some(Context::new(disc_path, booted, cpu, variables))
}

} // verus!
