use rustation_libretro::savestate::{
    compute_savestate_max_length, decode_savestate, encode_savestate, save_state, DecodeError,
    SharedState, SAVESTATE_MARGIN, SAVESTATE_OVERHEAD,
};
use rustation_libretro::video::VideoClock;

fn cpu_state(n: usize) -> Vec<u8> {
    (0..n).map(|i| (i * 7 + 3) as u8).collect()
}

#[test]
fn encode_layout() {
    let shared = SharedState { frames: 0x0102, ticks: 5 };
    let bytes = encode_savestate(&[9, 8], VideoClock::Pal, &shared);
    assert_eq!(bytes.len(), SAVESTATE_OVERHEAD + 2);
    assert_eq!(&bytes[0..4], b"PSXS");
    assert_eq!(&bytes[4..8], &[1, 0, 0, 0]);
    assert_eq!(&bytes[8..12], &[3, 0, 0, 0]);
    assert_eq!(bytes[12], 3);
    assert_eq!(&bytes[13..16], b"cpu");
    assert_eq!(&bytes[16..20], &[2, 0, 0, 0]);
    assert_eq!(&bytes[20..22], &[9, 8]);
    assert_eq!(bytes[22], 11);
    assert_eq!(&bytes[23..34], b"video_clock");
    assert_eq!(&bytes[34..38], &[1, 0, 0, 0]);
    assert_eq!(bytes[38], 1);
    assert_eq!(bytes[39], 12);
    assert_eq!(&bytes[40..52], b"shared_state");
    assert_eq!(&bytes[52..56], &[16, 0, 0, 0]);
    assert_eq!(&bytes[56..64], &[2, 1, 0, 0, 0, 0, 0, 0]);
    assert_eq!(&bytes[64..72], &[5, 0, 0, 0, 0, 0, 0, 0]);
}

#[test]
fn savestate_round_trip_is_byte_identical() {
    let cpu = cpu_state(3000);
    let shared = SharedState { frames: u64::MAX, ticks: 123456789 };
    let first = encode_savestate(&cpu, VideoClock::Ntsc, &shared);
    let mut padded = first.clone();
    padded.extend_from_slice(&[0xaa; 100]);
    let st = decode_savestate(&padded).ok().unwrap();
    assert_eq!(st.cpu, cpu);
    assert_eq!(st.video_clock, VideoClock::Ntsc);
    assert_eq!(st.shared_state, shared);
    let second = encode_savestate(&st.cpu, st.video_clock, &st.shared_state);
    assert_eq!(first, second);
}

#[test]
fn decode_reports_faults() {
    let shared = SharedState::new();
    let good = encode_savestate(&[1, 2, 3], VideoClock::Pal, &shared);
    assert_eq!(decode_savestate(&good[..5]).err(), Some(DecodeError::Truncated));
    assert_eq!(decode_savestate(&good[..30]).err(), Some(DecodeError::Truncated));
    let mut bad = good.clone();
    bad[0] = b'X';
    assert_eq!(decode_savestate(&bad).err(), Some(DecodeError::BadMagic));
    let mut bad = good.clone();
    bad[4] = 2;
    assert_eq!(decode_savestate(&bad).err(), Some(DecodeError::UnsupportedVersion));
    let mut bad = good.clone();
    bad[13] = b'x';
    assert_eq!(decode_savestate(&bad).err(), Some(DecodeError::UnexpectedField));
    let mut bad = good.clone();
    bad[39] = 7;
    assert_eq!(decode_savestate(&bad).err(), Some(DecodeError::BadValue));
    assert!(decode_savestate(&good).is_ok());
}

#[test]
fn max_length_is_dry_run_plus_margin() {
    let cpu = cpu_state(1000);
    let shared = SharedState::new();
    let max = compute_savestate_max_length(&cpu, VideoClock::Ntsc, &shared);
    assert_eq!(max, encode_savestate(&cpu, VideoClock::Ntsc, &shared).len() + SAVESTATE_MARGIN);
    assert_eq!(max, 1000 + 70 + 524288);
}

#[test]
fn grown_state_still_fits_advertised_size() {
    let shared = SharedState::new();
    let max = compute_savestate_max_length(&cpu_state(1000), VideoClock::Pal, &shared);
    let later = SharedState { frames: 600, ticks: 20_000_000 };
    let grown = cpu_state(1000 + 300_000);
    let bytes = encode_savestate(&grown, VideoClock::Pal, &later);
    assert!(bytes.len() <= max);
    let mut buf = vec![0u8; max];
    assert_eq!(save_state(&mut buf, &grown, VideoClock::Pal, &later), Ok(()));
    assert_eq!(&buf[..bytes.len()], &bytes[..]);
    assert!(buf[bytes.len()..].iter().all(|b| *b == 0));
}

#[test]
fn save_state_refuses_small_buffer() {
    let shared = SharedState::new();
    let mut buf = vec![0x55u8; 10];
    assert_eq!(save_state(&mut buf, &[1, 2, 3], VideoClock::Pal, &shared), Err(()));
    assert_eq!(buf, vec![0x55u8; 10]);
}
