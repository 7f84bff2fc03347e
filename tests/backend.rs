use rustation_libretro::backend::{
    InterpolationMode, LibretroBackend, LibretroGamepad, LibretroRenderer, LibretroTexture,
    ObjectToPass, RumbleCommand, RumbleEffect, SongFormat, SubFuncObj,
};
use rustation_libretro::drs::{screen_size, Core, MAX_SCREEN_HEIGHT, MAX_SCREEN_WIDTH};

#[test]
fn backend_constructors() {
    let _b = LibretroBackend::new();
    let _boxed: Box<LibretroBackend> = LibretroBackend::new_nd();
}

#[test]
fn texture_dimensions() {
    assert_eq!(LibretroTexture(320, 240).dimensions(), (320, 240));
    let mut r = LibretroRenderer;
    assert_eq!(r.create_texture(16, 8, &[0u8; 512]).dimensions(), (16, 8));
    assert_eq!(r.create_texture_mutable(3, 4), LibretroTexture(3, 4));
    assert_eq!(r.renderer_name(), "Retroarch");
}

#[test]
fn gamepad_rumble_commands() {
    let pad = LibretroGamepad::new(1, true);
    assert_eq!(pad.instance_id(), 1);
    assert_eq!(
        pad.set_rumble(100, 200, 50),
        vec![
            RumbleCommand { port: 1, effect: RumbleEffect::Strong, strength: 100 },
            RumbleCommand { port: 1, effect: RumbleEffect::Weak, strength: 200 },
        ]
    );
    assert!(LibretroGamepad::new(0, false).set_rumble(1, 2, 3).is_empty());
}

#[test]
fn sound_enums() {
    assert_ne!(InterpolationMode::Linear, InterpolationMode::Cubic);
    assert_ne!(SongFormat::Organya, SongFormat::OggSinglePart);
}

#[test]
fn make_obj_fills_slot() {
    let mut slot = None;
    assert!(SubFuncObj.make_obj(&mut slot));
    assert_eq!(slot, Some(ObjectToPass { var1: 0, var2: 0 }));
}

#[test]
fn screen_size_from_options() {
    assert_eq!(screen_size(1, (4, 3)), (320, 240));
    assert_eq!(screen_size(2, (16, 9)), (853, 480));
    assert_eq!(screen_size(3, (21, 9)), (1680, 720));
}

#[test]
fn drs_core_resolution_changes() {
    let mut core = Core::new(1, (4, 3), false);
    assert_eq!((core.screen_width, core.screen_height), (320, 240));
    let info = core.core_av_info();
    assert_eq!((info.geometry.max_width, info.geometry.max_height), (MAX_SCREEN_WIDTH, MAX_SCREEN_HEIGHT));
    assert_eq!(info.timing.fps_milli, 50000);
    assert_eq!(core.set_resolution(1, (4, 3)), None);
    let g = core.set_resolution(2, (16, 9)).unwrap();
    assert_eq!((g.base_width, g.base_height), (853, 480));
    assert_eq!(core.get_system_av_info().geometry, g);
    assert!(core.render_frame());
    assert!(!Core::new(1, (4, 3), true).render_frame());
    core.elapse_time(16_000);
    assert_eq!(core.delta_time, 16_000);
    assert_eq!(core.serialize_size(), 0);
}
