//! The savestate format.
//!
//! A savestate is a header followed by three named fields, each a length-prefixed
//! payload, in this order: `cpu` (the emulated machine, as the emulator encodes
//! it), `video_clock` and `shared_state`. Integers are little-endian:
//!
//! ```text
//! "PSXS"  version: u32  field count: u32
//! name length: u8  name  payload length: u32  payload      (three times)
//! ```
//!
//! The format delimits itself, so a decoder ignores whatever follows the last
//! field: the frontend hands back a buffer of the advertised maximum size.
//! The BIOS is not part of a savestate.
use vstd::prelude::*;
use crate::video::VideoClock;

verus! {

/// Version written into every savestate; others are refused.
pub const SAVESTATE_VERSION: u32 = 1;

/// Room left above a measured savestate size for the parts of the machine
/// state that grow while it runs (the GPU's load buffer can reach 1 MiB).
pub const SAVESTATE_MARGIN: usize = 524288;

/// Bytes of a savestate besides the `cpu` payload.
pub const SAVESTATE_OVERHEAD: usize = 70;

/// The timing state shared by the emulated components.
#[derive(Clone, Copy, Debug, PartialEq, Eq, Structural)]
pub struct SharedState {
    /// Video frames emulated so far.
    pub frames: u64,
    /// CPU cycles emulated so far.
    pub ticks: u64,
}

impl SharedState {
    /// The state of a console that was just switched on.
    pub fn new() -> (r: SharedState)
        ensures
            r == (SharedState { frames: 0, ticks: 0 }),
    {
        SharedState { frames: 0, ticks: 0 }
    }
}

/// Why a savestate could not be read.
#[derive(Clone, Copy, Debug, PartialEq, Eq, Structural)]
pub enum DecodeError {
    /// The data ends inside the savestate.
    Truncated,
    /// The data does not start with the savestate signature.
    BadMagic,
    /// The savestate was written by another version of the format.
    UnsupportedVersion,
    /// A field is missing, out of order or unknown.
    UnexpectedField,
    /// A field holds a value its type does not have.
    BadValue,
}

/// The parts of the emulator state that a savestate holds.
pub struct Savestate {
    pub cpu: Vec<u8>,
    pub video_clock: VideoClock,
    pub shared_state: SharedState,
}

pub open spec fn pow256(n: nat) -> nat
    decreases n,
{
    if n == 0 {
        1
    } else {
        256 * pow256((n - 1) as nat)
    }
}

/// The `n` low bytes of `v`, least significant first.
pub open spec fn le_bytes(v: nat, n: nat) -> Seq<u8>
    decreases n,
{
    if n == 0 {
        Seq::empty()
    } else {
        seq![(v % 256) as u8] + le_bytes(v / 256, (n - 1) as nat)
    }
}

/// The number that little-endian bytes `s` stand for.
pub open spec fn le_value(s: Seq<u8>) -> nat
    decreases s.len(),
{
    if s.len() == 0 {
        0
    } else {
        s[0] as nat + 256 * le_value(s.drop_first())
    }
}

pub open spec fn magic() -> Seq<u8> {
    seq![0x50u8, 0x53, 0x58, 0x53]
}

pub open spec fn cpu_name() -> Seq<u8> {
    seq![0x63u8, 0x70, 0x75]
}

pub open spec fn clock_name() -> Seq<u8> {
    seq![0x76u8, 0x69, 0x64, 0x65, 0x6f, 0x5f, 0x63, 0x6c, 0x6f, 0x63, 0x6b]
}

pub open spec fn shared_name() -> Seq<u8> {
    seq![0x73u8, 0x68, 0x61, 0x72, 0x65, 0x64, 0x5f, 0x73, 0x74, 0x61, 0x74, 0x65]
}

pub open spec fn clock_byte(c: VideoClock) -> u8 {
    match c {
        VideoClock::Ntsc => 0,
        VideoClock::Pal => 1,
    }
}

pub open spec fn clock_of_byte(b: u8) -> VideoClock {
    if b == 0 {
        VideoClock::Ntsc
    } else {
        VideoClock::Pal
    }
}

pub open spec fn shared_bytes(s: SharedState) -> Seq<u8> {
    le_bytes(s.frames as nat, 8) + le_bytes(s.ticks as nat, 8)
}

pub open spec fn field_bytes(name: Seq<u8>, payload: Seq<u8>) -> Seq<u8> {
    seq![name.len() as u8] + name + le_bytes(payload.len(), 4) + payload
}

pub open spec fn header_bytes() -> Seq<u8> {
    magic() + le_bytes(SAVESTATE_VERSION as nat, 4) + le_bytes(3, 4)
}

/// The savestate of a machine state `cpu`, a video clock and a shared state.
pub open spec fn savestate_bytes(cpu: Seq<u8>, clock: VideoClock, shared: SharedState) -> Seq<u8> {
    header_bytes() + field_bytes(cpu_name(), cpu) + field_bytes(clock_name(), seq![clock_byte(clock)])
        + field_bytes(shared_name(), shared_bytes(shared))
}

/// Reads the field called `name` at `pos`: its payload, and where the next
/// field starts.
pub open spec fn parse_field(s: Seq<u8>, pos: int, name: Seq<u8>) -> Result<
    (Seq<u8>, int),
    DecodeError,
> {
    if pos + 1 > s.len() {
        Err(DecodeError::Truncated)
    } else {
        let nl = s[pos] as int;
        if pos + 5 + nl > s.len() {
            Err(DecodeError::Truncated)
        } else if s.subrange(pos + 1, pos + 1 + nl) != name {
            Err(DecodeError::UnexpectedField)
        } else {
            let start = pos + 5 + nl;
            let pl = le_value(s.subrange(pos + 1 + nl, start)) as int;
            if start + pl > s.len() {
                Err(DecodeError::Truncated)
            } else {
                Ok((s.subrange(start, start + pl), start + pl))
            }
        }
    }
}

pub open spec fn parse_shared(sb: Seq<u8>) -> SharedState {
    SharedState {
        frames: le_value(sb.subrange(0, 8)) as u64,
        ticks: le_value(sb.subrange(8, 16)) as u64,
    }
}

/// What a decoder reads from `s`: the three fields, or the first fault met.
pub open spec fn parse_savestate(s: Seq<u8>) -> Result<
    (Seq<u8>, VideoClock, SharedState),
    DecodeError,
> {
    if s.len() < 12 {
        Err(DecodeError::Truncated)
    } else if s.subrange(0, 4) != magic() {
        Err(DecodeError::BadMagic)
    } else if le_value(s.subrange(4, 8)) != SAVESTATE_VERSION {
        Err(DecodeError::UnsupportedVersion)
    } else if le_value(s.subrange(8, 12)) != 3 {
        Err(DecodeError::UnexpectedField)
    } else {
        match parse_field(s, 12, cpu_name()) {
            Err(e) => Err(e),
            Ok((cpu, pos1)) => match parse_field(s, pos1, clock_name()) {
                Err(e) => Err(e),
                Ok((cb, pos2)) => {
                    if cb.len() != 1 || cb[0] > 1 {
                        Err(DecodeError::BadValue)
                    } else {
                        match parse_field(s, pos2, shared_name()) {
                            Err(e) => Err(e),
                            Ok((sb, _)) => {
                                if sb.len() != 16 {
                                    Err(DecodeError::BadValue)
                                } else {
                                    Ok((cpu, clock_of_byte(cb[0]), parse_shared(sb)))
                                }
                            },
                        }
                    }
                },
            },
        }
    }
}

/// The size of a savestate whose `cpu` payload has `cpu_len` bytes.
pub open spec fn savestate_len_spec(cpu_len: nat) -> nat {
    SAVESTATE_OVERHEAD as nat + cpu_len
}

/// The savestate size advertised for a state whose `cpu` payload has
/// `cpu_len` bytes: its measured size plus the margin.
pub open spec fn max_len_spec(cpu_len: nat) -> nat {
    savestate_len_spec(cpu_len) + SAVESTATE_MARGIN as nat
}

proof fn lemma_pow256_mono(a: nat, b: nat)
    requires
        a <= b,
    ensures
        pow256(a) <= pow256(b),
    decreases b,
{
    if a < b {
        lemma_pow256_mono(a, (b - 1) as nat);
    }
}

proof fn lemma_pow256_8()
    ensures
        pow256(4) == 0x1_0000_0000,
        pow256(8) == 0x1_0000_0000_0000_0000,
{
    reveal_with_fuel(pow256, 9);
}

proof fn lemma_le_bytes_len(v: nat, n: nat)
    ensures
        le_bytes(v, n).len() == n,
    decreases n,
{
    if n > 0 {
        lemma_le_bytes_len(v / 256, (n - 1) as nat);
    }
}

/// Reading back `n` bytes written from a value that fits in them gives the value.
pub proof fn lemma_le_round_trip(v: nat, n: nat)
    requires
        v < pow256(n),
    ensures
        le_bytes(v, n).len() == n,
        le_value(le_bytes(v, n)) == v,
    decreases n,
{
    lemma_le_bytes_len(v, n);
    if n > 0 {
        let p = pow256((n - 1) as nat);
        assert(v / 256 < p) by (nonlinear_arith)
            requires
                v < 256 * p,
        ;
        lemma_le_round_trip(v / 256, (n - 1) as nat);
        let s = le_bytes(v, n);
        assert(s.drop_first() =~= le_bytes(v / 256, (n - 1) as nat));
        assert(v == v % 256 + 256 * (v / 256)) by (nonlinear_arith);
    }
}

proof fn lemma_le_value_bound(s: Seq<u8>)
    ensures
        le_value(s) < pow256(s.len()),
    decreases s.len(),
{
    if s.len() > 0 {
        lemma_le_value_bound(s.drop_first());
        let p = pow256((s.len() - 1) as nat);
        let r = le_value(s.drop_first());
        assert(s[0] as nat + 256 * r < 256 * p) by (nonlinear_arith)
            requires
                r < p,
                s[0] < 256,
        ;
    }
}

/// Appends the `n` low bytes of `v`, least significant first.
fn push_le(out: &mut Vec<u8>, v: u64, n: usize)
    ensures
        final(out)@ == old(out)@ + le_bytes(v as nat, n as nat),
{
    let ghost start = out@;
    let mut x: u64 = v;
    let mut i: usize = 0;
    while i < n
        invariant
            i <= n,
            start + le_bytes(v as nat, n as nat) == out@ + le_bytes(x as nat, (n - i) as nat),
        decreases n - i,
    {
        let ghost before = out@;
        let b = (x % 256) as u8;
        out.push(b);
        assert(le_bytes(x as nat, (n - i) as nat) == seq![b] + le_bytes(
            (x / 256) as nat,
            (n - i - 1) as nat,
        ));
        assert(before + (seq![b] + le_bytes((x / 256) as nat, (n - i - 1) as nat)) =~= out@
            + le_bytes((x / 256) as nat, (n - i - 1) as nat));
        x = x / 256;
        i = i + 1;
    }
    assert(out@ + le_bytes(x as nat, 0) =~= out@);
}

/// The number that the `n` little-endian bytes of `s` at `at` stand for.
fn read_le(s: &[u8], at: usize, n: usize) -> (r: u64)
    requires
        n <= 8,
        at + n <= s@.len(),
    ensures
        r as nat == le_value(s@.subrange(at as int, at + n)),
{
    let len = s.len();
    let mut acc: u64 = 0;
    let mut k: usize = n;
    assert(s@.subrange(at + n, at + n) =~= Seq::<u8>::empty());
    while k > 0
        invariant
            len == s@.len(),
            n <= 8,
            k <= n,
            at + n <= s@.len(),
            acc as nat == le_value(s@.subrange(at + k, at + n)),
        decreases k,
    {
        let b = s[at + k - 1];
        let ghost sub = s@.subrange(at + k - 1, at + n);
        assert(sub.drop_first() =~= s@.subrange(at + k, at + n));
        assert(sub[0] == b);
        proof {
            lemma_le_value_bound(sub);
            lemma_pow256_mono(sub.len(), 8);
            lemma_pow256_8();
        }
        acc = b as u64 + 256 * acc;
        k = k - 1;
    }
    acc
}

/// Appends the bytes of `src`.
fn push_bytes(out: &mut Vec<u8>, src: &[u8])
    ensures
        final(out)@ == old(out)@ + src@,
{
    let ghost start = out@;
    let mut i: usize = 0;
    while i < src.len()
        invariant
            i <= src@.len(),
            out@ == start + src@.subrange(0, i as int),
        decreases src@.len() - i,
    {
        out.push(src[i]);
        assert(start + src@.subrange(0, i + 1) =~= out@);
        i = i + 1;
    }
    assert(src@.subrange(0, src@.len() as int) =~= src@);
}

/// Appends a field: name length, name, payload length, payload.
fn push_field(out: &mut Vec<u8>, name: &[u8], payload: &[u8])
    requires
        name@.len() < 256,
        payload@.len() <= u32::MAX,
    ensures
        final(out)@ == old(out)@ + field_bytes(name@, payload@),
{
    let ghost start = out@;
    out.push(name.len() as u8);
    push_bytes(out, name);
    push_le(out, payload.len() as u64, 4);
    push_bytes(out, payload);
    assert(out@ =~= start + field_bytes(name@, payload@));
}

/// True when the bytes of `s` at `at` are those of `name`.
fn bytes_at(s: &[u8], at: usize, name: &[u8]) -> (r: bool)
    requires
        at + name@.len() <= s@.len(),
    ensures
        r == (s@.subrange(at as int, at + name@.len()) == name@),
{
    let len = s.len();
    let mut i: usize = 0;
    while i < name.len()
        invariant
            len == s@.len(),
            i <= name@.len(),
            at + name@.len() <= s@.len(),
            forall|j: int| 0 <= j < i ==> s@[at + j] == name@[j],
        decreases name@.len() - i,
    {
        if s[at + i] != name[i] {
            assert(s@.subrange(at as int, at + name@.len())[i as int] != name@[i as int]);
            return false;
        }
        i = i + 1;
    }
    assert(s@.subrange(at as int, at + name@.len()) =~= name@);
    true
}

/// Reads the field called `name` at `pos`: where its payload starts and ends.
fn read_field(s: &[u8], pos: usize, name: &[u8]) -> (r: Result<(usize, usize), DecodeError>)
    ensures
        r matches Ok((a, b)) ==> a <= b <= s@.len() && parse_field(s@, pos as int, name@) == Ok::<
            (Seq<u8>, int),
            DecodeError,
        >((s@.subrange(a as int, b as int), b as int)),
        r matches Err(e) ==> parse_field(s@, pos as int, name@) == Err::<
            (Seq<u8>, int),
            DecodeError,
        >(e),
{
    if pos >= s.len() {
        return Err(DecodeError::Truncated);
    }
    let nl = s[pos] as usize;
    if s.len() - pos < 5 + nl {
        return Err(DecodeError::Truncated);
    }
    if nl != name.len() || !bytes_at(s, pos + 1, name) {
        assert(s@.subrange(pos + 1, pos + 1 + nl).len() == nl);
        return Err(DecodeError::UnexpectedField);
    }
    let start = pos + 5 + nl;
    let pl = read_le(s, pos + 1 + nl, 4);
    proof {
        lemma_le_value_bound(s@.subrange(pos + 1 + nl, start as int));
        lemma_pow256_8();
    }
    if (s.len() - start) < pl as usize {
        return Err(DecodeError::Truncated);
    }
    Ok((start, start + pl as usize))
}

/// Copies the bytes of `s` from `a` to `b`.
fn copy_range(s: &[u8], a: usize, b: usize) -> (r: Vec<u8>)
    requires
        a <= b <= s@.len(),
    ensures
        r@ == s@.subrange(a as int, b as int),
{
    let mut out: Vec<u8> = Vec::new();
    push_bytes(&mut out, vstd::slice::slice_subrange(s, a, b));
    assert(out@ =~= s@.subrange(a as int, b as int));
    out
}

/// Encodes a savestate.
pub fn encode_savestate(cpu: &[u8], video_clock: VideoClock, shared_state: &SharedState) -> (r:
    Vec<u8>)
    requires
        cpu@.len() <= u32::MAX,
    ensures
        r@ == savestate_bytes(cpu@, video_clock, *shared_state),
        r@.len() == savestate_len_spec(cpu@.len()),
{
    let mut out: Vec<u8> = Vec::new();
    out.push(0x50);
    out.push(0x53);
    out.push(0x58);
    out.push(0x53);
    push_le(&mut out, SAVESTATE_VERSION as u64, 4);
    push_le(&mut out, 3, 4);
    assert(out@ =~= header_bytes());
    let cpu_tag: [u8; 3] = [0x63, 0x70, 0x75];
    let clock_tag: [u8; 11] = [0x76, 0x69, 0x64, 0x65, 0x6f, 0x5f, 0x63, 0x6c, 0x6f, 0x63, 0x6b];
    let shared_tag: [u8; 12] = [
        0x73,
        0x68,
        0x61,
        0x72,
        0x65,
        0x64,
        0x5f,
        0x73,
        0x74,
        0x61,
        0x74,
        0x65,
    ];
    assert(cpu_tag@ =~= cpu_name());
    assert(clock_tag@ =~= clock_name());
    assert(shared_tag@ =~= shared_name());
    push_field(&mut out, cpu_tag.as_slice(), cpu);
    let clock: [u8; 1] = [
        match video_clock {
            VideoClock::Ntsc => 0,
            VideoClock::Pal => 1,
        },
    ];
    assert(clock@ =~= seq![clock_byte(video_clock)]);
    push_field(&mut out, clock_tag.as_slice(), clock.as_slice());
    let mut shared: Vec<u8> = Vec::new();
    push_le(&mut shared, shared_state.frames, 8);
    push_le(&mut shared, shared_state.ticks, 8);
    assert(shared@ =~= shared_bytes(*shared_state));
    proof {
        lemma_le_bytes_len(shared_state.frames as nat, 8);
        lemma_le_bytes_len(shared_state.ticks as nat, 8);
        lemma_le_bytes_len(3, 4);
        lemma_le_bytes_len(SAVESTATE_VERSION as nat, 4);
        lemma_le_bytes_len(cpu@.len(), 4);
        lemma_le_bytes_len(1, 4);
        lemma_le_bytes_len(16, 4);
    }
    push_field(&mut out, shared_tag.as_slice(), shared.as_slice());
    assert(out@ =~= savestate_bytes(cpu@, video_clock, *shared_state));
    out
}

/// Decodes a savestate, ignoring whatever follows it.
pub fn decode_savestate(bytes: &[u8]) -> (r: Result<Savestate, DecodeError>)
    ensures
        r matches Ok(st) ==> parse_savestate(bytes@) == Ok::<
            (Seq<u8>, VideoClock, SharedState),
            DecodeError,
        >((st.cpu@, st.video_clock, st.shared_state)),
        r matches Err(e) ==> parse_savestate(bytes@) == Err::<
            (Seq<u8>, VideoClock, SharedState),
            DecodeError,
        >(e),
{
    if bytes.len() < 12 {
        return Err(DecodeError::Truncated);
    }
    let sig: [u8; 4] = [0x50, 0x53, 0x58, 0x53];
    assert(sig@ =~= magic());
    if !bytes_at(bytes, 0, sig.as_slice()) {
        return Err(DecodeError::BadMagic);
    }
    if read_le(bytes, 4, 4) != SAVESTATE_VERSION as u64 {
        return Err(DecodeError::UnsupportedVersion);
    }
    if read_le(bytes, 8, 4) != 3 {
        return Err(DecodeError::UnexpectedField);
    }
    let cpu_tag: [u8; 3] = [0x63, 0x70, 0x75];
    let clock_tag: [u8; 11] = [0x76, 0x69, 0x64, 0x65, 0x6f, 0x5f, 0x63, 0x6c, 0x6f, 0x63, 0x6b];
    let shared_tag: [u8; 12] = [
        0x73,
        0x68,
        0x61,
        0x72,
        0x65,
        0x64,
        0x5f,
        0x73,
        0x74,
        0x61,
        0x74,
        0x65,
    ];
    assert(cpu_tag@ =~= cpu_name());
    assert(clock_tag@ =~= clock_name());
    assert(shared_tag@ =~= shared_name());
    let (c0, c1) = match read_field(bytes, 12, cpu_tag.as_slice()) {
        Ok(p) => p,
        Err(e) => return Err(e),
    };
    let (k0, k1) = match read_field(bytes, c1, clock_tag.as_slice()) {
        Ok(p) => p,
        Err(e) => return Err(e),
    };
    if k1 - k0 != 1 || bytes[k0] > 1 {
        return Err(DecodeError::BadValue);
    }
    let video_clock = if bytes[k0] == 0 {
        VideoClock::Ntsc
    } else {
        VideoClock::Pal
    };
    let (s0, s1) = match read_field(bytes, k1, shared_tag.as_slice()) {
        Ok(p) => p,
        Err(e) => return Err(e),
    };
    if s1 - s0 != 16 {
        return Err(DecodeError::BadValue);
    }
    let frames = read_le(bytes, s0, 8);
    let ticks = read_le(bytes, s0 + 8, 8);
    let ghost sb = bytes@.subrange(s0 as int, s1 as int);
    assert(sb.subrange(0, 8) =~= bytes@.subrange(s0 as int, s0 + 8));
    assert(sb.subrange(8, 16) =~= bytes@.subrange(s0 + 8, s0 + 16));
    let cpu = copy_range(bytes, c0, c1);
    Ok(Savestate { cpu, video_clock, shared_state: SharedState { frames, ticks } })
}


proof fn lemma_parse_field_of(s: Seq<u8>, pos: int, name: Seq<u8>, payload: Seq<u8>)
    requires
        0 <= pos,
        name.len() < 256,
        payload.len() < pow256(4),
        pos + field_bytes(name, payload).len() <= s.len(),
        s.subrange(pos, pos + field_bytes(name, payload).len()) == field_bytes(name, payload),
    ensures
        field_bytes(name, payload).len() == 5 + name.len() + payload.len(),
        parse_field(s, pos, name) == Ok::<(Seq<u8>, int), DecodeError>(
            (payload, pos + field_bytes(name, payload).len()),
        ),
{
    let f = field_bytes(name, payload);
    let nl = name.len() as int;
    let pl = payload.len() as int;
    lemma_le_round_trip(payload.len(), 4);
    let w = s.subrange(pos, pos + f.len());
    assert(f.len() == 5 + nl + pl);
    assert(s[pos] == w[0]);
    assert(s.subrange(pos + 1, pos + 1 + nl) =~= w.subrange(1, 1 + nl));
    assert(f.subrange(1, 1 + nl) =~= name);
    assert(s.subrange(pos + 1 + nl, pos + 5 + nl) =~= w.subrange(1 + nl, 5 + nl));
    assert(f.subrange(1 + nl, 5 + nl) =~= le_bytes(payload.len(), 4));
    assert(s.subrange(pos + 5 + nl, pos + 5 + nl + pl) =~= w.subrange(5 + nl, 5 + nl + pl));
    assert(f.subrange(5 + nl, 5 + nl + pl) =~= payload);
}

/// Decoding an encoded savestate, whatever bytes follow it, gives back what
/// was encoded; so encoding the decoded state again gives the same bytes.
pub proof fn lemma_savestate_round_trip(
    cpu: Seq<u8>,
    clock: VideoClock,
    shared: SharedState,
    trailing: Seq<u8>,
)
    requires
        cpu.len() <= u32::MAX,
    ensures
        parse_savestate(savestate_bytes(cpu, clock, shared) + trailing) == Ok::<
            (Seq<u8>, VideoClock, SharedState),
            DecodeError,
        >((cpu, clock, shared)),
        parse_savestate(savestate_bytes(cpu, clock, shared) + trailing) matches Ok((c, k, st))
            && savestate_bytes(c, k, st) == savestate_bytes(cpu, clock, shared),
{
    let s = savestate_bytes(cpu, clock, shared) + trailing;
    let sb = shared_bytes(shared);
    let cb = seq![clock_byte(clock)];
    lemma_pow256_8();
    lemma_le_round_trip(SAVESTATE_VERSION as nat, 4);
    lemma_le_round_trip(3, 4);
    lemma_le_round_trip(shared.frames as nat, 8);
    lemma_le_round_trip(shared.ticks as nat, 8);
    let h = header_bytes();
    let f1 = field_bytes(cpu_name(), cpu);
    let f2 = field_bytes(clock_name(), cb);
    let f3 = field_bytes(shared_name(), sb);
    assert(h.len() == 12);
    assert(s.subrange(0, 4) =~= magic());
    assert(s.subrange(4, 8) =~= le_bytes(SAVESTATE_VERSION as nat, 4));
    assert(s.subrange(8, 12) =~= le_bytes(3, 4));
    assert(s.subrange(12, 12 + f1.len() as int) =~= f1);
    lemma_parse_field_of(s, 12, cpu_name(), cpu);
    let pos1: int = 12 + f1.len() as int;
    assert(s.subrange(pos1, pos1 + f2.len() as int) =~= f2);
    lemma_parse_field_of(s, pos1, clock_name(), cb);
    let pos2: int = pos1 + f2.len() as int;
    assert(s.subrange(pos2, pos2 + f3.len() as int) =~= f3);
    lemma_parse_field_of(s, pos2, shared_name(), sb);
    assert(sb.subrange(0, 8) =~= le_bytes(shared.frames as nat, 8));
    assert(sb.subrange(8, 16) =~= le_bytes(shared.ticks as nat, 8));
    assert(parse_shared(sb) == shared);
    assert(clock_of_byte(clock_byte(clock)) == clock);
}

/// A savestate fits in the size advertised for an earlier state whenever the
/// machine state has grown by no more than the margin since; in particular it
/// always fits in the size advertised for itself.
pub proof fn lemma_savestate_fits(measured_cpu_len: nat, cpu_len: nat)
    requires
        cpu_len <= measured_cpu_len + SAVESTATE_MARGIN,
    ensures
        savestate_len_spec(cpu_len) <= max_len_spec(measured_cpu_len),
        savestate_len_spec(measured_cpu_len) <= max_len_spec(measured_cpu_len),
{
}

/// The size to advertise for savestates: a dry run of the encoder on the
/// current state, plus the margin for state that grows as the machine runs.
pub fn compute_savestate_max_length(
    cpu: &[u8],
    video_clock: VideoClock,
    shared_state: &SharedState,
) -> (r: usize)
    requires
        cpu@.len() <= u32::MAX,
        max_len_spec(cpu@.len()) <= usize::MAX,
    ensures
        r == max_len_spec(cpu@.len()),
{
    let dry_run = encode_savestate(cpu, video_clock, shared_state);
    dry_run.len() + SAVESTATE_MARGIN
}

/// Writes the savestate of the given state at the start of `buf`, leaving the
/// rest of `buf` as it was. Fails, writing nothing, when it does not fit.
pub fn save_state(
    buf: &mut [u8],
    cpu: &[u8],
    video_clock: VideoClock,
    shared_state: &SharedState,
) -> (r: Result<(), ()>)
    requires
        cpu@.len() <= u32::MAX,
    ensures
        r is Ok <==> savestate_len_spec(cpu@.len()) <= old(buf)@.len(),
        r is Ok ==> final(buf)@ == savestate_bytes(cpu@, video_clock, *shared_state)
            + old(buf)@.subrange(savestate_len_spec(cpu@.len()) as int, old(buf)@.len() as int),
        r is Err ==> final(buf)@ == old(buf)@,
{
    let bytes = encode_savestate(cpu, video_clock, shared_state);
    let n = bytes.len();
    if n > buf.len() {
        return Err(());
    }
    let ghost start = buf@;
    let mut i: usize = 0;
    while i < n
        invariant
            n == bytes@.len(),
            n <= buf@.len(),
            buf@.len() == start.len(),
            i <= n,
            buf@ == bytes@.subrange(0, i as int) + start.subrange(i as int, start.len() as int),
        decreases n - i,
    {
        buf[i] = bytes[i];
        assert(buf@ =~= bytes@.subrange(0, i + 1) + start.subrange(i + 1, start.len() as int));
        i = i + 1;
    }
    assert(bytes@.subrange(0, n as int) =~= bytes@);
    Ok(())
}

} // verus!
