//! Protocol compatibility token: a name hash plus a semantic version,
//! packed into a single `u64` that host and guest exchange at load time.

use vstd::prelude::*;
use vstd::string::StringSliceAdditionalSpecFns;

verus! {

/// The version of the protocol spoken between host and guest.
///
/// `name_hash` identifies the protocol by name so that a guest built against a
/// different protocol is rejected even when the numeric versions coincide.
#[derive(Clone, Copy, Debug, PartialEq, Eq, Structural, Hash)]
pub struct Version {
    /// Hash of the protocol name.
    pub name_hash: u16,
    /// Major version of the protocol.
    pub major: u16,
    /// Minor version of the protocol.
    pub minor: u16,
    /// Patch version of the protocol.
    pub patch: u16,
}

/// The packed form: `name_hash | major << 16 | minor << 32 | patch << 48`.
pub open spec fn spec_version_to_u64(v: Version) -> u64 {
    (v.name_hash as u64) | ((v.major as u64) << 16) | ((v.minor as u64) << 32) | ((v.patch as u64)
        << 48)
}

/// The unpacked form: each 16-bit lane of the `u64` is one component.
pub open spec fn spec_version_from_u64(x: u64) -> Version {
    Version {
        name_hash: (x & 0xFFFF) as u16,
        major: ((x >> 16) & 0xFFFF) as u16,
        minor: ((x >> 32) & 0xFFFF) as u16,
        patch: ((x >> 48) & 0xFFFF) as u16,
    }
}

impl Version {
    /// Pack the version into a `u64`.
    pub fn to_u64(&self) -> (r: u64)
        ensures
            r == spec_version_to_u64(*self),
    {
        (self.name_hash as u64) | ((self.major as u64) << 16) | ((self.minor as u64) << 32) | ((
        self.patch as u64) << 48)
    }

    /// Unpack a `u64` into a version.
    pub fn from_u64(version: u64) -> (r: Self)
        ensures
            r == spec_version_from_u64(version),
    {
        Self {
            name_hash: (version & 0xFFFF) as u16,
            major: ((version >> 16) & 0xFFFF) as u16,
            minor: ((version >> 32) & 0xFFFF) as u16,
            patch: ((version >> 48) & 0xFFFF) as u16,
        }
    }

    /// The compatibility policy of the version handshake: the protocol names
    /// must hash equal and the major versions must match; minor and patch may
    /// differ.
    pub fn compatible_with(&self, other: &Version) -> (r: bool)
        ensures
            r == (self.name_hash == other.name_hash && self.major == other.major),
    {
        self.name_hash == other.name_hash && self.major == other.major
    }
}

/// 10 to the `n`th power.
pub open spec fn pow10(n: nat) -> int
    decreases n,
{
    if n == 0 {
        1
    } else {
        10 * pow10((n - 1) as nat)
    }
}

proof fn lemma_pow10_pos(n: nat)
    ensures
        pow10(n) >= 1,
    decreases n,
{
    if n > 0 {
        lemma_pow10_pos((n - 1) as nat);
    }
}

proof fn lemma_pow10_mono(a: nat, b: nat)
    requires
        a <= b,
    ensures
        pow10(a) <= pow10(b),
    decreases b,
{
    lemma_pow10_pos(a);
    if a < b {
        lemma_pow10_mono(a, (b - 1) as nat);
        lemma_pow10_pos((b - 1) as nat);
    }
}

/// The number the first `i` digit bytes of `s` denote, each weighted with
/// `10 ^ (s.len() - position)`.
pub open spec fn str_number_prefix(s: Seq<u8>, i: int) -> int
    decreases i,
{
    if i <= 0 {
        0
    } else {
        str_number_prefix(s, i - 1) + (s[i - 1] - 48) * pow10((s.len() - (i - 1)) as nat)
    }
}

proof fn lemma_str_number_prefix_nondecreasing(s: Seq<u8>, i: int)
    requires
        0 <= i <= s.len(),
        forall|j: int| 0 <= j < s.len() ==> 48 <= #[trigger] s[j] <= 57,
    ensures
        forall|j: int| 0 <= j <= i ==> #[trigger] str_number_prefix(s, j) >= 0,
        i > 0 ==> str_number_prefix(s, i - 1) <= str_number_prefix(s, i),
    decreases i,
{
    if i > 0 {
        lemma_str_number_prefix_nondecreasing(s, i - 1);
        lemma_pow10_pos((s.len() - (i - 1)) as nat);
    }
}

fn pow10_u16(n: usize) -> (r: u16)
    requires
        pow10(n as nat) <= 0xFFFF,
    ensures
        r == pow10(n as nat),
{
    let mut r: u16 = 1;
    let mut i: usize = 0;
    while i < n
        invariant
            0 <= i <= n,
            r == pow10(i as nat),
            pow10(n as nat) <= 0xFFFF,
        decreases n - i,
    {
        proof {
            lemma_pow10_mono((i + 1) as nat, n as nat);
        }
        r = r * 10;
        i = i + 1;
    }
    r
}

/// Read a small decimal number out of a version-component string, each digit
/// weighted with `10 ^ (length - position)`, exactly as the packed version
/// constants are built at compile time.
///
/// The inputs are version components of at most a few digits; the
/// preconditions state exactly when every intermediate value fits `u16`.
pub fn __str_to_u16(s: &str) -> (r: u16)
    requires
        forall|j: int| 0 <= j < s.spec_bytes().len() ==> 48 <= #[trigger] s.spec_bytes()[j] <= 57,
        pow10(s.spec_bytes().len() as nat) <= 0xFFFF,
        forall|j: int|
            0 <= j <= s.spec_bytes().len() ==> #[trigger] str_number_prefix(s.spec_bytes(), j)
                <= 0xFFFF,
    ensures
        r == str_number_prefix(s.spec_bytes(), s.spec_bytes().len() as int),
{
    let bytes = s.as_bytes();
    let mut result: u16 = 0;
    let mut i: usize = 0;
    while i < bytes.len()
        invariant
            bytes@ == s.spec_bytes(),
            0 <= i <= bytes@.len(),
            result == str_number_prefix(bytes@, i as int),
            forall|j: int| 0 <= j < bytes@.len() ==> 48 <= #[trigger] bytes@[j] <= 57,
            pow10(bytes@.len() as nat) <= 0xFFFF,
            forall|j: int|
                0 <= j <= bytes@.len() ==> #[trigger] str_number_prefix(bytes@, j) <= 0xFFFF,
        decreases bytes@.len() - i,
    {
        let digit: usize = bytes.len() - i;
        proof {
            lemma_pow10_mono(digit as nat, bytes@.len() as nat);
            lemma_str_number_prefix_nondecreasing(bytes@, i + 1);
        }
        let p = pow10_u16(digit);
        let d: u16 = bytes[i] as u16 - 48;
        result = result + d * p;
        i = i + 1;
    }
    result
}

/// One mixing round of the name hash.
pub open spec fn hash_mix(h0: u16, b: u8) -> u16 {
    let h1 = vstd::wrapping::u16_specs::wrapping_add(h0, b as u16);
    let h2 = vstd::wrapping::u16_specs::wrapping_add(h1, h1 << 10);
    h2 ^ (h2 >> 6)
}

/// The hash state after mixing in the first `i` bytes of `s`.
pub open spec fn hash_rounds(s: Seq<u8>, i: int) -> u16
    decreases i,
{
    if i <= 0 {
        0
    } else {
        hash_mix(hash_rounds(s, i - 1), s[i - 1])
    }
}

/// The protocol-name hash: one-at-a-time mixing of every byte, then a final
/// avalanche.
pub open spec fn spec_str_hash(s: Seq<u8>) -> u16 {
    let h = hash_rounds(s, s.len() as int);
    let h1 = vstd::wrapping::u16_specs::wrapping_add(h, h << 3);
    let h2 = h1 ^ (h1 >> 11);
    vstd::wrapping::u16_specs::wrapping_add(h2, h2 << 15)
}

/// Hash a protocol name to its 16-bit identity, the `name_hash` component of
/// a [`Version`]. Not collision-free, but enough to keep a guest from being
/// linked against the wrong protocol.
pub fn __str_hash(s: &str) -> (r: u16)
    ensures
        r == spec_str_hash(s.spec_bytes()),
{
    let bytes = s.as_bytes();
    let mut result: u16 = 0;
    let mut i: usize = 0;
    while i < bytes.len()
        invariant
            bytes@ == s.spec_bytes(),
            0 <= i <= bytes@.len(),
            result == hash_rounds(bytes@, i as int),
        decreases bytes@.len() - i,
    {
        result = result.wrapping_add(bytes[i] as u16);
        result = result.wrapping_add(result << 10);
        result = result ^ (result >> 6);
        i = i + 1;
    }
    result = result.wrapping_add(result << 3);
    result = result ^ (result >> 11);
    result = result.wrapping_add(result << 15);
    result
}

/// Packing and unpacking are mutual inverses: no component is lost in the
/// packed form, and every `u64` is the packed form of exactly one version.
pub proof fn lemma_version_round_trip(v: Version, x: u64)
    ensures
        spec_version_from_u64(spec_version_to_u64(v)) == v,
        spec_version_to_u64(spec_version_from_u64(x)) == x,
{
    let h = v.name_hash;
    let mj = v.major;
    let mn = v.minor;
    let p = v.patch;
    let packed = spec_version_to_u64(v);
    assert(((packed & 0xFFFF) as u16) == h && (((packed >> 16) & 0xFFFF) as u16) == mj && (((packed
        >> 32) & 0xFFFF) as u16) == mn && (((packed >> 48) & 0xFFFF) as u16) == p) by (bit_vector)
        requires
            packed == (h as u64) | ((mj as u64) << 16) | ((mn as u64) << 32) | ((p as u64) << 48),
    ;
    let unpacked = spec_version_from_u64(x);
    assert((((x & 0xFFFF) as u16) as u64) | (((((x >> 16) & 0xFFFF) as u16) as u64) << 16) | (((((x
        >> 32) & 0xFFFF) as u16) as u64) << 32) | (((((x >> 48) & 0xFFFF) as u16) as u64) << 48)
        == x) by (bit_vector);
}

} // verus!
