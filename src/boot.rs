//! The two ways to start the console: from a disc image, or from a bare
//! executable that a patched BIOS jumps into instead of its boot animation.
use vstd::prelude::*;
use crate::bios::{Bios, BiosQuery, Metadata, put_word, query_accepts, hook_in_image, NOP};
use crate::video::{Region, VideoClock, clock_of_region, video_clock_for_region};

verus! {

/// The user's settings that shape a boot.
#[derive(Clone, Copy, Debug, PartialEq, Eq, Structural)]
pub struct BootSettings {
    /// Start in the BIOS menu, as if no disc were inserted.
    pub bios_menu: bool,
    /// Patch the BIOS so that it skips its boot animation.
    pub skip_bios_animation: bool,
}

/// Why the console could not be started.
#[derive(Clone, Copy, Debug, PartialEq, Eq, Structural)]
pub enum BootError {
    /// No BIOS in the system directory suits the content.
    NoBios,
    /// The BIOS could not be patched to run the executable.
    PatchFailed,
}

/// A console ready to run: its BIOS, its video timing, and whether the disc
/// is in the drive.
pub struct BootedSystem {
    pub bios: Bios,
    pub video_clock: VideoClock,
    pub disc_inserted: bool,
}

/// The region of an executable: the detected one, or North America when the
/// executable does not tell.
pub open spec fn exe_region_of(detected: Option<Region>) -> Region {
    match detected {
        Some(r) => r,
        None => Region::NorthAmerica,
    }
}

/// What an executable needs of its BIOS: its region, and a jump hook to
/// redirect the boot into the executable.
pub open spec fn exe_query_of(detected: Option<Region>) -> BiosQuery {
    BiosQuery::RegionWithHook(exe_region_of(detected))
}

/// The skip-animation patch is applied only when asked for and the BIOS menu
/// is not, since the menu is reached through the unpatched animation.
pub open spec fn wants_skip_patch(settings: BootSettings) -> bool {
    settings.skip_bios_animation && !settings.bios_menu
}

/// The image after the optional skip-animation patch.
pub open spec fn prepared_image(bios: Bios, settings: BootSettings) -> Seq<u8> {
    if wants_skip_patch(settings) && hook_in_image(bios.meta(), bios.image().len()) {
        put_word(bios.image(), bios.meta().animation_jump_hook->Some_0 as int, NOP)
    } else {
        bios.image()
    }
}

pub fn exe_region(detected: Option<Region>) -> (r: Region)
    ensures
        r == exe_region_of(detected),
{
    match detected {
        Some(r) => r,
        None => Region::NorthAmerica,
    }
}

/// The BIOS search for an executable of the detected region.
pub fn exe_bios_query(detected: Option<Region>) -> (r: BiosQuery)
    ensures
        r == exe_query_of(detected),
{
    BiosQuery::RegionWithHook(exe_region(detected))
}

/// The BIOS search for a disc of `region`.
pub fn disc_bios_query(region: Region) -> (r: BiosQuery)
    ensures
        r == BiosQuery::Region(region),
{
    BiosQuery::Region(region)
}

/// Applies the skip-animation patch when the settings ask for it and do not
/// ask for the BIOS menu. A failed patch leaves the image as it was and the
/// boot goes on.
pub fn prepare_disc_bios(bios: Bios, settings: BootSettings) -> (r: Bios)
    ensures
        r.meta() == bios.meta(),
        r.image() == prepared_image(bios, settings),
        settings.bios_menu ==> r.image() == bios.image(),
{
    let mut bios = bios;
    if settings.skip_bios_animation && !settings.bios_menu {
        let _ = bios.patch_boot_animation();
    }
    bios
}

/// Starts the console from a disc of `region` with the BIOS found for it (if
/// any). The disc is left out of the drive when the BIOS menu is asked for.
pub fn boot_disc(region: Region, found: Option<Bios>, settings: BootSettings) -> (r: Result<
    BootedSystem,
    BootError,
>)
    ensures
        found is None ==> r == Err::<BootedSystem, BootError>(BootError::NoBios),
        found matches Some(b) ==> (r matches Ok(s) && s.video_clock == clock_of_region(region)
            && s.disc_inserted == !settings.bios_menu && s.bios.meta() == b.meta()
            && s.bios.image() == prepared_image(b, settings)),
{
    match found {
        None => Err(BootError::NoBios),
        Some(bios) => {
            let bios = prepare_disc_bios(bios, settings);
            Ok(BootedSystem {
                bios,
                video_clock: video_clock_for_region(region),
                disc_inserted: !settings.bios_menu,
            })
        },
    }
}

/// Starts the console from an executable: the BIOS found for it (if any) gets
/// the loader's `jump` instruction at its animation jump hook. Without a BIOS,
/// or without a hook to patch, the boot fails.
pub fn boot_exe(detected: Option<Region>, found: Option<Bios>, jump: u32) -> (r: Result<
    BootedSystem,
    BootError,
>)
    ensures
        found is None ==> r == Err::<BootedSystem, BootError>(BootError::NoBios),
        found matches Some(b) ==> (if hook_in_image(b.meta(), b.image().len()) {
            r matches Ok(s) && s.video_clock == clock_of_region(exe_region_of(detected))
                && !s.disc_inserted && s.bios.meta() == b.meta() && s.bios.image() == put_word(
                b.image(),
                b.meta().animation_jump_hook->Some_0 as int,
                jump,
            )
        } else {
            r == Err::<BootedSystem, BootError>(BootError::PatchFailed)
        }),
{
    match found {
        None => Err(BootError::NoBios),
        Some(bios) => {
            let mut bios = bios;
            match bios.patch_animation_jump_hook(jump) {
                Ok(()) => Ok(
                    BootedSystem {
                        bios,
                        video_clock: video_clock_for_region(exe_region(detected)),
                        disc_inserted: false,
                    },
                ),
                Err(()) => Err(BootError::PatchFailed),
            }
        },
    }
}

/// What the content file turned out to be.
#[derive(Clone, Copy, Debug, PartialEq, Eq, Structural)]
pub enum Content {
    /// A bare executable, with the region it declares (if any) and the jump
    /// instruction its loader needs at the BIOS's animation jump hook.
    Exe { declared_region: Option<Region>, jump: u32 },
    /// A disc image of the given region.
    Disc { region: Region },
}

/// The BIOS search a content needs.
pub fn content_bios_query(content: Content) -> (r: BiosQuery)
    ensures
        r == (match content {
            Content::Exe { declared_region, .. } => exe_query_of(declared_region),
            Content::Disc { region } => BiosQuery::Region(region),
        }),
{
    match content {
        Content::Exe { declared_region, .. } => exe_bios_query(declared_region),
        Content::Disc { region } => disc_bios_query(region),
    }
}

/// Starts the console from either kind of content, with the BIOS found for
/// `content_bios_query(content)`.
pub fn boot_content(content: Content, found: Option<Bios>, settings: BootSettings) -> (r: Result<
    BootedSystem,
    BootError,
>)
    ensures
        found is None ==> r == Err::<BootedSystem, BootError>(BootError::NoBios),
        content matches Content::Disc { region } ==> (found matches Some(b) ==> (r matches Ok(s)
            && s.video_clock == clock_of_region(region) && s.disc_inserted == !settings.bios_menu
            && s.bios.meta() == b.meta() && s.bios.image() == prepared_image(b, settings))),
        content matches Content::Exe { declared_region, jump } ==> (found matches Some(b) ==> (if hook_in_image(
            b.meta(),
            b.image().len(),
        ) {
            r matches Ok(s) && s.video_clock == clock_of_region(exe_region_of(declared_region))
                && !s.disc_inserted && s.bios.meta() == b.meta() && s.bios.image() == put_word(
                b.image(),
                b.meta().animation_jump_hook->Some_0 as int,
                jump,
            )
        } else {
            r == Err::<BootedSystem, BootError>(BootError::PatchFailed)
        })),
{
    match content {
        Content::Exe { declared_region, jump } => boot_exe(declared_region, found, jump),
        Content::Disc { region } => boot_disc(region, found, settings),
    }
}

/// An executable boot only ever takes a BIOS with an animation jump hook, and
/// one of North America when the executable's region is unknown.
pub proof fn lemma_exe_boot_bios(detected: Option<Region>, md: Metadata)
    requires
        query_accepts(exe_query_of(detected), md),
    ensures
        md.animation_jump_hook is Some,
        detected is None ==> md.region == Region::NorthAmerica,
        detected matches Some(r) ==> md.region == r,
{
}

/// Asking for the BIOS menu keeps the BIOS image exactly as it was found,
/// whether or not skipping the boot animation is asked for too, and leaves
/// the disc out of the drive.
pub proof fn lemma_bios_menu_boots_unpatched(found: Bios, settings: BootSettings)
    requires
        settings.bios_menu,
    ensures
        prepared_image(found, settings) == found.image(),
        !wants_skip_patch(settings),
{
}

} // verus!
