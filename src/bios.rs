//! BIOS images: identification by checksum against a database of known dumps,
//! the choice of a suitable image among the files of a directory, and the
//! patches applied to an image before boot.
use vstd::prelude::*;
use crate::video::Region;

verus! {

/// Size in bytes of every BIOS image (512 KiB).
pub const BIOS_SIZE: usize = 524288;

/// The SHA-256 digest of a byte string.
pub uninterp spec fn sha256_of(data: Seq<u8>) -> Seq<u8>;

/// Relies on `sha2::Sha256::digest` (through sha2's `Digest` trait): the SHA-256
/// digest of the bytes, which depends on the bytes alone.
#[verifier::external_body]
fn sha256(data: &[u8]) -> (r: [u8; 32])
    ensures
        r@ == sha256_of(data@),
{
    <sha2::Sha256 as sha2::Digest>::digest(data).into()
}

/// What is known of one BIOS dump.
#[derive(Clone, Copy, Debug)]
pub struct Metadata {
    pub region: Region,
    /// SHA-256 digest of the whole image.
    pub sha256: [u8; 32],
    /// The dump is known to be corrupt and must not be used.
    pub known_bad: bool,
    /// Byte offset of the call into the boot animation, when known. Booting an
    /// executable without a disc needs it, and so does skipping the animation.
    pub animation_jump_hook: Option<u32>,
}

/// The first entry of `entries` whose digest is `digest`.
pub open spec fn find_entry(entries: Seq<Metadata>, digest: Seq<u8>) -> Option<Metadata>
    decreases entries.len(),
{
    if entries.len() == 0 {
        None
    } else if entries[0].sha256@ == digest {
        Some(entries[0])
    } else {
        find_entry(entries.drop_first(), digest)
    }
}

/// A found entry carries the digest it was found by.
pub proof fn lemma_find_entry_digest(entries: Seq<Metadata>, digest: Seq<u8>)
    ensures
        find_entry(entries, digest) matches Some(md) ==> md.sha256@ == digest,
    decreases entries.len(),
{
    if entries.len() > 0 && entries[0].sha256@ != digest {
        lemma_find_entry_digest(entries.drop_first(), digest);
    }
}

/// The known BIOS dumps, looked up by checksum.
pub struct BiosDb {
    pub entries: Vec<Metadata>,
}

/// True when two digests are equal.
pub fn digest_eq(a: &[u8; 32], b: &[u8; 32]) -> (r: bool)
    ensures
        r == (a@ == b@),
{
    let mut i: usize = 0;
    while i < 32
        invariant
            i <= 32,
            a@.len() == 32,
            b@.len() == 32,
            forall|j: int| 0 <= j < i ==> a@[j] == b@[j],
        decreases 32 - i,
    {
        if a[i] != b[i] {
            return false;
        }
        i = i + 1;
    }
    assert(a@ =~= b@);
    true
}

impl BiosDb {
    pub fn new(entries: Vec<Metadata>) -> (r: BiosDb)
        ensures
            r.entries@ == entries@,
    {
        BiosDb { entries }
    }

    /// The first entry recorded with checksum `digest`.
    pub fn lookup(&self, digest: &[u8; 32]) -> (r: Option<Metadata>)
        ensures
            r == find_entry(self.entries@, digest@),
    {
        let n = self.entries.len();
        let mut i: usize = 0;
        assert(self.entries@.subrange(0, n as int) =~= self.entries@);
        while i < n
            invariant
                n == self.entries@.len(),
                i <= n,
                find_entry(self.entries@, digest@) == find_entry(
                    self.entries@.subrange(i as int, n as int),
                    digest@,
                ),
            decreases n - i,
        {
            let md = self.entries[i];
            assert(self.entries@.subrange(i as int, n as int).drop_first() =~= self.entries@.subrange(
                i + 1,
                n as int,
            ));
            if digest_eq(&md.sha256, digest) {
                return Some(md);
            }
            i = i + 1;
        }
        None
    }
}

/// The four bytes of a 32-bit word, least significant first.
pub open spec fn word_bytes(w: u32) -> Seq<u8> {
    seq![
        (w % 256) as u8,
        ((w / 256) % 256) as u8,
        ((w / 65536) % 256) as u8,
        (w / 16777216) as u8,
    ]
}

/// `image` with the word at byte offset `at` replaced by `w`.
pub open spec fn put_word(image: Seq<u8>, at: int, w: u32) -> Seq<u8> {
    image.subrange(0, at) + word_bytes(w) + image.subrange(at + 4, image.len() as int)
}

/// The offset of the animation jump hook, when there is one inside the image.
pub open spec fn hook_in_image(md: Metadata, len: nat) -> bool {
    md.animation_jump_hook matches Some(h) && h + 4 <= len
}

/// The MIPS encoding of a no-op instruction.
pub const NOP: u32 = 0;

/// A BIOS image identified in the database.
pub struct Bios {
    data: Vec<u8>,
    metadata: Metadata,
}

impl Bios {
    /// The bytes of the image.
    pub closed spec fn image(&self) -> Seq<u8> {
        self.data@
    }

    /// The database entry of the image.
    pub closed spec fn meta(&self) -> Metadata {
        self.metadata
    }

    /// Identifies a full-size image by its checksum. The result, when there is
    /// one, carries the first database entry recorded with the image's digest,
    /// so its checksum is the image's own.
    pub fn new(data: Vec<u8>, db: &BiosDb) -> (r: Option<Bios>)
        requires
            data@.len() == BIOS_SIZE,
        ensures
            find_entry(db.entries@, sha256_of(data@)) is None ==> r is None,
            find_entry(db.entries@, sha256_of(data@)) matches Some(md) ==> (r matches Some(b)
                && b.image() == data@ && b.meta() == md),
            r matches Some(b) ==> b.meta().sha256@ == sha256_of(data@),
    {
        let digest = sha256(data.as_slice());
        proof {
            lemma_find_entry_digest(db.entries@, digest@);
        }
        match db.lookup(&digest) {
            Some(md) => Some(Bios { data, metadata: md }),
            None => None,
        }
    }

    pub fn metadata(&self) -> (r: &Metadata)
        ensures
            *r == self.meta(),
    {
        &self.metadata
    }

    pub fn data(&self) -> (r: &Vec<u8>)
        ensures
            r@ == self.image(),
    {
        &self.data
    }

    /// Replaces the call at the animation jump hook by `instruction`. Fails,
    /// leaving the image as it was, when the image has no such hook.
    pub fn patch_animation_jump_hook(&mut self, instruction: u32) -> (r: Result<(), ()>)
        ensures
            final(self).meta() == old(self).meta(),
            hook_in_image(old(self).meta(), old(self).image().len()) ==> r is Ok
                && final(self).image() == put_word(
                old(self).image(),
                old(self).meta().animation_jump_hook->Some_0 as int,
                instruction,
            ),
            !hook_in_image(old(self).meta(), old(self).image().len()) ==> r is Err
                && final(self).image() == old(self).image(),
    {
        match self.metadata.animation_jump_hook {
            Some(h) => {
                let at = h as usize;
                if at > self.data.len() || self.data.len() - at < 4 {
                    return Err(());
                }
                let ghost before = self.data@;
                self.data.set(at, (instruction % 256) as u8);
                self.data.set(at + 1, ((instruction / 256) % 256) as u8);
                self.data.set(at + 2, ((instruction / 65536) % 256) as u8);
                self.data.set(at + 3, (instruction / 16777216) as u8);
                assert(self.data@ =~= put_word(before, at as int, instruction));
                Ok(())
            },
            None => Err(()),
        }
    }

    /// Skips the boot animation by turning the call at the animation jump hook
    /// into a no-op. Fails, leaving the image as it was, without such a hook.
    pub fn patch_boot_animation(&mut self) -> (r: Result<(), ()>)
        ensures
            final(self).meta() == old(self).meta(),
            hook_in_image(old(self).meta(), old(self).image().len()) ==> r is Ok
                && final(self).image() == put_word(
                old(self).image(),
                old(self).meta().animation_jump_hook->Some_0 as int,
                NOP,
            ),
            !hook_in_image(old(self).meta(), old(self).image().len()) ==> r is Err
                && final(self).image() == old(self).image(),
    {
        self.patch_animation_jump_hook(NOP)
    }
}

/// What the directory listing tells of a file, before anything is read.
#[derive(Clone, Copy, Debug, PartialEq, Eq, Structural)]
pub struct DirEntryInfo {
    pub is_file: bool,
    pub len: u64,
}

/// Only regular files of exactly the BIOS size are worth opening.
pub open spec fn worth_reading(e: DirEntryInfo) -> bool {
    e.is_file && e.len == BIOS_SIZE as u64
}

/// The first entry at or after `from` that may hold a BIOS image. Entries that
/// are not files, or whose size is not the BIOS size, are passed over without
/// being opened.
pub fn next_candidate(entries: &Vec<DirEntryInfo>, from: usize) -> (r: Option<usize>)
    ensures
        r matches Some(i) ==> from <= i < entries@.len() && worth_reading(entries@[i as int])
            && forall|j: int| from <= j < i ==> !worth_reading(#[trigger] entries@[j]),
        r is None ==> forall|j: int|
            from <= j < entries@.len() ==> !worth_reading(#[trigger] entries@[j]),
{
    let mut i: usize = from;
    while i < entries.len()
        invariant
            from <= i,
            forall|j: int| from <= j < i ==> !worth_reading(#[trigger] entries@[j]),
        decreases entries@.len() - i,
    {
        let e = entries[i];
        if e.is_file && e.len == BIOS_SIZE as u64 {
            return Some(i);
        }
        i = i + 1;
    }
    None
}

/// What the caller needs of a BIOS.
#[derive(Clone, Copy, Debug)]
pub enum BiosQuery {
    /// Any image of the region.
    Region(Region),
    /// An image of the region with an animation jump hook, as booting an
    /// executable requires.
    RegionWithHook(Region),
    /// The image with this checksum.
    Checksum([u8; 32]),
}

pub open spec fn query_accepts(q: BiosQuery, md: Metadata) -> bool {
    match q {
        BiosQuery::Region(r) => md.region == r,
        BiosQuery::RegionWithHook(r) => md.region == r && md.animation_jump_hook is Some,
        BiosQuery::Checksum(c) => md.sha256@ == c@,
    }
}

impl BiosQuery {
    pub fn accepts(&self, md: &Metadata) -> (r: bool)
        ensures
            r == query_accepts(*self, *md),
    {
        match self {
            BiosQuery::Region(r) => md.region == *r,
            BiosQuery::RegionWithHook(r) => md.region == *r && md.animation_jump_hook.is_some(),
            BiosQuery::Checksum(c) => digest_eq(&md.sha256, c),
        }
    }
}

/// The image is in the database, is no known bad dump, and suits the query.
pub open spec fn usable(data: Seq<u8>, entries: Seq<Metadata>, q: BiosQuery) -> bool {
    &&& data.len() == BIOS_SIZE
    &&& find_entry(entries, sha256_of(data)) matches Some(md)
    &&& !md.known_bad
    &&& query_accepts(q, md)
}

/// Judges the contents of one candidate file: the image is used only when it
/// is of full size (a short read gives less), recognised by its checksum, not
/// a known bad dump, and accepted by the query.
pub fn try_bios(data: Vec<u8>, db: &BiosDb, query: &BiosQuery) -> (r: Option<Bios>)
    ensures
        r is Some <==> usable(data@, db.entries@, *query),
        r matches Some(b) ==> b.image() == data@ && Some(b.meta()) == find_entry(
            db.entries@,
            sha256_of(data@),
        ),
{
    if data.len() != BIOS_SIZE {
        return None;
    }
    match Bios::new(data, db) {
        Some(bios) => {
            let md = *bios.metadata();
            if md.known_bad {
                None
            } else if !query.accepts(&md) {
                None
            } else {
                Some(bios)
            }
        },
        None => None,
    }
}

} // verus!
