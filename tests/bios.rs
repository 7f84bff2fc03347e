use rustation_libretro::bios::{
    next_candidate, try_bios, Bios, BiosDb, BiosQuery, DirEntryInfo, Metadata, BIOS_SIZE,
};
use rustation_libretro::video::Region;
use sha2::Digest;

fn image(seed: u8) -> Vec<u8> {
    (0..BIOS_SIZE).map(|i| (i as u8).wrapping_mul(31).wrapping_add(seed)).collect()
}

fn digest(data: &[u8]) -> [u8; 32] {
    sha2::Sha256::digest(data).into()
}

fn entry(data: &[u8], region: Region, hook: Option<u32>, known_bad: bool) -> Metadata {
    Metadata { region, sha256: digest(data), known_bad, animation_jump_hook: hook }
}

#[test]
fn bios_new_matches_database_checksum() {
    let a = image(1);
    let b = image(2);
    let db = BiosDb::new(vec![
        entry(&b, Region::Japan, None, false),
        entry(&a, Region::Europe, Some(0x100), false),
    ]);
    let bios = Bios::new(a.clone(), &db).expect("known image");
    assert_eq!(bios.metadata().sha256, digest(&a));
    assert_eq!(bios.metadata().region, Region::Europe);
    assert_eq!(bios.data(), &a);
}

#[test]
fn bios_new_rejects_unknown_image() {
    let db = BiosDb::new(vec![entry(&image(1), Region::Japan, None, false)]);
    assert!(Bios::new(image(3), &db).is_none());
}

#[test]
fn lookup_takes_first_entry() {
    let a = image(1);
    let db = BiosDb::new(vec![
        entry(&a, Region::Japan, None, false),
        entry(&a, Region::Europe, None, false),
    ]);
    assert_eq!(db.lookup(&digest(&a)).unwrap().region, Region::Japan);
    assert!(db.lookup(&[0u8; 32]).is_none());
}

#[test]
fn next_candidate_never_offers_wrong_size() {
    let entries = vec![
        DirEntryInfo { is_file: true, len: 1024 },
        DirEntryInfo { is_file: false, len: BIOS_SIZE as u64 },
        DirEntryInfo { is_file: true, len: BIOS_SIZE as u64 + 1 },
        DirEntryInfo { is_file: true, len: BIOS_SIZE as u64 },
        DirEntryInfo { is_file: true, len: 0 },
        DirEntryInfo { is_file: true, len: BIOS_SIZE as u64 },
    ];
    let mut offered = Vec::new();
    let mut from = 0;
    while let Some(i) = next_candidate(&entries, from) {
        offered.push(i);
        from = i + 1;
    }
    assert_eq!(offered, vec![3, 5]);
    assert_eq!(next_candidate(&entries, 6), None);
    assert_eq!(next_candidate(&Vec::new(), 0), None);
}

#[test]
fn try_bios_skips_known_bad_and_rejected() {
    let good = image(1);
    let bad = image(2);
    let db = BiosDb::new(vec![
        entry(&good, Region::NorthAmerica, Some(0x40), false),
        entry(&bad, Region::NorthAmerica, Some(0x40), true),
    ]);
    let na = BiosQuery::Region(Region::NorthAmerica);
    assert!(try_bios(good.clone(), &db, &na).is_some());
    assert!(try_bios(bad, &db, &na).is_none());
    assert!(try_bios(good.clone(), &db, &BiosQuery::Region(Region::Japan)).is_none());
    assert!(try_bios(good[..1000].to_vec(), &db, &na).is_none());
    assert!(try_bios(good.clone(), &db, &BiosQuery::Checksum(digest(&good))).is_some());
    assert!(try_bios(good, &db, &BiosQuery::Checksum([7u8; 32])).is_none());
}

#[test]
fn query_with_hook_needs_a_hook() {
    let a = image(1);
    let with = entry(&a, Region::Europe, Some(8), false);
    let without = entry(&a, Region::Europe, None, false);
    let q = BiosQuery::RegionWithHook(Region::Europe);
    assert!(q.accepts(&with));
    assert!(!q.accepts(&without));
}

#[test]
fn boot_animation_patch_writes_nop_at_hook() {
    let a = image(5);
    let db = BiosDb::new(vec![entry(&a, Region::Japan, Some(0x100), false)]);
    let mut bios = Bios::new(a.clone(), &db).unwrap();
    assert_eq!(bios.patch_boot_animation(), Ok(()));
    let mut expected = a.clone();
    expected[0x100..0x104].copy_from_slice(&[0, 0, 0, 0]);
    assert_eq!(bios.data(), &expected);
    assert_ne!(bios.data(), &a);
    assert_eq!(bios.patch_animation_jump_hook(0x0c00_1234), Ok(()));
    assert_eq!(&bios.data()[0x100..0x104], &[0x34, 0x12, 0x00, 0x0c]);
}

#[test]
fn patch_without_hook_fails_and_keeps_image() {
    let a = image(6);
    let db = BiosDb::new(vec![
        entry(&a, Region::Japan, None, false),
    ]);
    let mut bios = Bios::new(a.clone(), &db).unwrap();
    assert_eq!(bios.patch_boot_animation(), Err(()));
    assert_eq!(bios.data(), &a);
    let db = BiosDb::new(vec![entry(&a, Region::Japan, Some(BIOS_SIZE as u32 - 2), false)]);
    let mut bios = Bios::new(a.clone(), &db).unwrap();
    assert_eq!(bios.patch_boot_animation(), Err(()));
    assert_eq!(bios.data(), &a);
}
