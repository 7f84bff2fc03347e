//! The pieces of the game engine's libretro backend that hold no GL state: the
//! backend handle, the software texture and renderer, the frontend's gamepads,
//! and the sound settings.
use vstd::prelude::*;

verus! {

/// The libretro backend. Its event loop is built by the core itself, since it
/// needs the frontend's framebuffer and GL entry points.
pub struct LibretroBackend;

impl LibretroBackend {
    pub fn new() -> LibretroBackend {
        LibretroBackend
    }

    /// The backend, boxed for the core that owns it.
    pub fn new_nd() -> Box<LibretroBackend> {
        Box::new(LibretroBackend)
    }
}

/// A texture of the software renderer: only its size is kept.
#[derive(Clone, Copy, Debug, PartialEq, Eq, Structural)]
pub struct LibretroTexture(pub u16, pub u16);

impl LibretroTexture {
    /// Width and height.
    pub fn dimensions(&self) -> (r: (u16, u16))
        ensures
            r == (self.0, self.1),
    {
        (self.0, self.1)
    }
}

/// The software renderer, which draws nothing: textures keep their size only.
pub struct LibretroRenderer;

impl LibretroRenderer {
    pub fn renderer_name(&self) -> (r: &'static str)
        ensures
            r@ == "Retroarch"@,
    {
        "Retroarch"
    }

    pub fn create_texture_mutable(&mut self, width: u16, height: u16) -> (r: LibretroTexture)
        ensures
            r == LibretroTexture(width, height),
    {
        LibretroTexture(width, height)
    }

    /// The pixel data is not kept.
    pub fn create_texture(&mut self, width: u16, height: u16, _data: &[u8]) -> (r: LibretroTexture)
        ensures
            r == LibretroTexture(width, height),
    {
        LibretroTexture(width, height)
    }
}

/// A rumble motor of a frontend gamepad.
#[derive(Clone, Copy, Debug, PartialEq, Eq, Structural)]
pub enum RumbleEffect {
    Strong,
    Weak,
}

/// One call of the frontend's rumble interface.
#[derive(Clone, Copy, Debug, PartialEq, Eq, Structural)]
pub struct RumbleCommand {
    pub port: u32,
    pub effect: RumbleEffect,
    pub strength: u16,
}

/// A gamepad of the frontend, on port `id`.
#[derive(Clone, Copy, Debug, PartialEq, Eq, Structural)]
pub struct LibretroGamepad {
    pub id: u16,
    /// The frontend offers a rumble interface.
    pub rumble: bool,
}

impl LibretroGamepad {
    pub fn new(id: u16, rumble: bool) -> (r: LibretroGamepad)
        ensures
            r == (LibretroGamepad { id, rumble }),
    {
        LibretroGamepad { id, rumble }
    }

    pub fn instance_id(&self) -> (r: u32)
        ensures
            r == self.id as u32,
    {
        self.id as u32
    }

    /// The rumble calls for a request: the strong motor at the low-frequency
    /// strength and the weak one at the high-frequency strength, or nothing
    /// when the frontend cannot rumble. The duration is not passed on: the
    /// frontend's interface has no such parameter.
    pub fn set_rumble(&self, low_freq: u16, high_freq: u16, _duration_ms: u32) -> (r: Vec<
        RumbleCommand,
    >)
        ensures
            self.rumble ==> r@ == seq![
                RumbleCommand { port: self.id as u32, effect: RumbleEffect::Strong, strength: low_freq },
                RumbleCommand { port: self.id as u32, effect: RumbleEffect::Weak, strength: high_freq },
            ],
            !self.rumble ==> r@.len() == 0,
    {
        let mut cmds: Vec<RumbleCommand> = Vec::new();
        if self.rumble {
            cmds.push(
                RumbleCommand { port: self.id as u32, effect: RumbleEffect::Strong, strength: low_freq },
            );
            cmds.push(
                RumbleCommand { port: self.id as u32, effect: RumbleEffect::Weak, strength: high_freq },
            );
            assert(cmds@ =~= seq![
                RumbleCommand { port: self.id as u32, effect: RumbleEffect::Strong, strength: low_freq },
                RumbleCommand { port: self.id as u32, effect: RumbleEffect::Weak, strength: high_freq },
            ]);
        }
        cmds
    }
}

/// The music formats the sound engine plays.
#[derive(Clone, Copy, Debug, PartialEq, Eq, Structural)]
pub enum SongFormat {
    Organya,
    OggSinglePart,
    OggMultiPart,
}

/// How the music synthesiser interpolates between samples.
#[derive(Clone, Copy, Debug, PartialEq, Eq, Structural)]
pub enum InterpolationMode {
    Nearest,
    Linear,
    Cosine,
    Cubic,
    Polyphase,
}

/// An object built on request by `SubFuncObj::make_obj`.
#[derive(Clone, Copy, Debug, PartialEq, Eq, Structural)]
pub struct ObjectToPass {
    pub var1: i32,
    pub var2: i32,
}

/// Builds `ObjectToPass` values into a slot owned by the caller.
pub struct SubFuncObj;

impl SubFuncObj {
    /// Puts a zeroed object into `passer`, replacing what it held.
    pub fn make_obj(&self, passer: &mut Option<ObjectToPass>) -> (r: bool)
        ensures
            r,
            *final(passer) == Some(ObjectToPass { var1: 0, var2: 0 }),
    {
        *passer = Some(ObjectToPass { var1: 0, var2: 0 });
        true
    }
}

} // verus!
