use rustation_libretro::bios::{Bios, BiosDb, BiosQuery, Metadata, BIOS_SIZE};
use rustation_libretro::boot::{boot_disc, BootError, BootSettings, BootedSystem};
use rustation_libretro::savestate::{DecodeError, SharedState, SAVESTATE_MARGIN};
use rustation_libretro::session::{load_game, init, Context, CoreVariables, LoadStateError};
use rustation_libretro::video::{Region, VideoClock};
use sha2::Digest;

fn bios_of(seed: u8) -> (Vec<u8>, Metadata) {
    let data: Vec<u8> = (0..BIOS_SIZE).map(|i| (i as u8) ^ seed).collect();
    let md = Metadata {
        region: Region::Europe,
        sha256: sha2::Sha256::digest(&data).into(),
        known_bad: false,
        animation_jump_hook: Some(0x80),
    };
    (data, md)
}

fn booted(seed: u8, region: Region) -> BootedSystem {
    let (data, md) = bios_of(seed);
    let md = Metadata { region, ..md };
    let bios = Bios::new(data, &BiosDb::new(vec![md])).unwrap();
    let settings = BootSettings { bios_menu: false, skip_bios_animation: false };
    boot_disc(region, Some(bios), settings).ok().unwrap()
}

fn session() -> Context {
    init();
    let cpu = vec![1u8; 64];
    load_game("/games/demo.cue".to_string(), &booted(1, Region::Europe), &cpu, CoreVariables::new())
        .unwrap()
}

#[test]
fn new_session_state() {
    let c = session();
    assert_eq!(c.video_clock(), VideoClock::Pal);
    assert_eq!(c.shared_state(), SharedState::new());
    assert_eq!(c.disc_path(), "/games/demo.cue");
    assert_eq!(c.serialize_size(), 64 + 70 + SAVESTATE_MARGIN);
    assert!(!c.debugger().break_pending);
    let info = c.get_system_av_info();
    assert_eq!(info.timing.fps_milli, 49760);
}

#[test]
fn debug_on_reset_breaks_at_start() {
    let mut vars = CoreVariables::new();
    vars.debug_on_reset = true;
    let c = load_game("x".to_string(), &booted(1, Region::Japan), &[0u8; 4], vars).unwrap();
    assert!(c.debugger().break_pending);
}

#[test]
fn first_frame_announces_geometry_once() {
    let mut c = session();
    let a = c.render_frame(1000);
    assert_eq!(a.geometry.map(|g| (g.base_width, g.base_height)), Some((640, 480)));
    assert!(!a.present);
    c.gl_context_reset();
    let b = c.render_frame(500);
    assert_eq!(b.geometry, None);
    assert!(b.present);
    assert_eq!(c.shared_state(), SharedState { frames: 2, ticks: 1500 });
    c.gl_context_destroy();
    assert!(!c.render_frame(0).present);
}

#[test]
fn reset_gives_fresh_shared_state_and_keeps_debugger_and_path() {
    let mut c = session();
    c.render_frame(100);
    c.render_frame(100);
    c.trigger_break();
    let path_before = c.disc_path().clone();
    assert!(c.reset::<BootError>(Ok(booted(2, Region::Europe))));
    assert_eq!(c.shared_state(), SharedState::new());
    assert_eq!(c.disc_path(), &path_before);
    assert!(c.debugger().break_pending);
}

#[test]
fn failed_reset_changes_nothing() {
    let mut c = session();
    c.render_frame(100);
    assert!(!c.reset::<BootError>(Err(BootError::NoBios)));
    assert_eq!(c.shared_state(), SharedState { frames: 1, ticks: 100 });
}

#[test]
fn serialize_then_unserialize_restores_state() {
    let mut c = session();
    c.render_frame(12345);
    let cpu = vec![7u8; 200];
    let mut buf = vec![0u8; c.serialize_size()];
    assert_eq!(c.serialize(&mut buf, &cpu), Ok(()));
    let saved = c.shared_state();
    c.render_frame(1);
    let (data, md) = bios_of(1);
    assert!(matches!(c.savestate_bios_query(), BiosQuery::Checksum(s) if s == md.sha256));
    let bios = Bios::new(data, &BiosDb::new(vec![md])).unwrap();
    let loaded = c.unserialize(&buf, Some(bios)).ok().unwrap();
    assert_eq!(loaded.cpu, cpu);
    assert_eq!(c.shared_state(), saved);
    assert_eq!(c.video_clock(), VideoClock::Pal);
    let mut again = vec![0u8; c.serialize_size()];
    assert_eq!(c.serialize(&mut again, &loaded.cpu), Ok(()));
    assert_eq!(buf, again);
}

#[test]
fn unserialize_without_bios_changes_nothing() {
    let mut c = session();
    let mut buf = vec![0u8; c.serialize_size()];
    assert_eq!(c.serialize(&mut buf, &[1, 2]), Ok(()));
    c.render_frame(9);
    let (data, md) = bios_of(3);
    let other = Bios::new(data, &BiosDb::new(vec![md])).unwrap();
    assert!(matches!(c.unserialize(&buf, Some(other)), Err(LoadStateError::NoBios)));
    assert!(matches!(c.unserialize(&buf, None), Err(LoadStateError::NoBios)));
    assert!(matches!(
        c.unserialize(&buf[..3], None),
        Err(LoadStateError::Decode(DecodeError::Truncated))
    ));
    assert_eq!(c.shared_state(), SharedState { frames: 1, ticks: 9 });
}

#[test]
fn refresh_variables_is_idempotent() {
    let mut c = session();
    let mut vars = CoreVariables::new();
    vars.internal_upscale_factor = 2;
    vars.log_bios_calls = true;
    c.refresh_variables(vars);
    assert_eq!(c.variables(), vars);
    assert!(c.debugger().log_bios_calls);
    let info = c.get_system_av_info();
    c.refresh_variables(vars);
    assert_eq!(c.variables(), vars);
    assert_eq!(c.get_system_av_info(), info);
    assert_eq!(info.geometry.base_width, 1280);
}
