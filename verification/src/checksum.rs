//! BLAKE3 checksums of file contents.
//!
//! The program reads a file in chunks and feeds each chunk to a
//! [`ChecksumState`]; the digest is computed by the `blake3` crate.

use vstd::prelude::*;
use vstd::string::*;

verus! {

#[verifier::external_type_specification]
#[verifier::external_body]
pub struct ExBlake3Hasher(blake3::Hasher);

/// The bytes fed to a `blake3::Hasher` since it was created.
pub uninterp spec fn hasher_input(h: blake3::Hasher) -> Seq<u8>;

/// The 32-byte BLAKE3 digest of `input`, as `blake3::Hasher::finalize`
/// returns it after `input` was fed.
pub uninterp spec fn blake3_digest(input: Seq<u8>) -> Seq<u8>;

/// `blake3::Hasher::new`: a fresh hash state that has been fed nothing.
#[verifier::external_body]
fn hasher_new() -> (h: blake3::Hasher)
    ensures
        hasher_input(h) == Seq::<u8>::empty(),
{
    blake3::Hasher::new()
}

/// `blake3::Hasher::update`: appends `data` to the input fed so far.
#[verifier::external_body]
fn hasher_update(h: &mut blake3::Hasher, data: &[u8])
    ensures
        hasher_input(*final(h)) == hasher_input(*old(h)) + data@,
{
    h.update(data);
}

/// `blake3::Hasher::finalize`: the digest of everything fed so far (the
/// crate documents it as equal to hashing the concatenated input at once).
#[verifier::external_body]
fn hasher_finalize(h: &blake3::Hasher) -> (r: [u8; 32])
    ensures
        r@ == blake3_digest(hasher_input(*h)),
{
    *h.finalize().as_bytes()
}

/// A BLAKE3 digest.
#[derive(Debug, Clone, Copy)]
pub struct Checksum {
    pub bytes: [u8; 32],
}

impl Checksum {
    /// Whether both digests hold the same bytes.
    pub fn matches(&self, other: &Checksum) -> (r: bool)
        ensures
            r == (self.bytes@ == other.bytes@),
    {
        let mut i: usize = 0;
        while i < 32
            invariant
                i <= 32,
                self.bytes@.len() == 32,
                other.bytes@.len() == 32,
                forall|j: int| 0 <= j < i ==> self.bytes@[j] == other.bytes@[j],
            decreases 32 - i,
        {
            if self.bytes[i] != other.bytes[i] {
                return false;
            }
            i = i + 1;
        }
        assert(self.bytes@ =~= other.bytes@);
        true
    }
}

/// Incremental checksum of a byte stream.
pub struct ChecksumState {
    hasher: blake3::Hasher,
}

impl ChecksumState {
    /// Everything fed to this state so far.
    pub closed spec fn input(&self) -> Seq<u8> {
        hasher_input(self.hasher)
    }

    /// A state that has been fed nothing.
    pub fn new() -> (s: ChecksumState)
        ensures
            s.input() == Seq::<u8>::empty(),
    {
        ChecksumState { hasher: hasher_new() }
    }

    /// Feed the next chunk of the stream.
    pub fn update(&mut self, chunk: &[u8])
        ensures
            final(self).input() == old(self).input() + chunk@,
    {
        hasher_update(&mut self.hasher, chunk);
    }

    /// The checksum of everything fed so far.
    pub fn finalize(&self) -> (c: Checksum)
        ensures
            c.bytes@ == blake3_digest(self.input()),
    {
        Checksum { bytes: hasher_finalize(&self.hasher) }
    }
}

/// The lowercase hexadecimal digit for `n < 16`.
pub open spec fn hex_char(n: int) -> char {
    if n < 10 {
        (48 + n) as char
    } else {
        (87 + n) as char
    }
}

/// Lowercase hexadecimal encoding: two digits per byte, high nibble first.
pub open spec fn hex_encoding(bytes: Seq<u8>) -> Seq<char>
    decreases bytes.len(),
{
    if bytes.len() == 0 {
        Seq::empty()
    } else {
        hex_encoding(bytes.drop_last()) + seq![
            hex_char(bytes.last() as int / 16),
            hex_char(bytes.last() as int % 16),
        ]
    }
}

fn hex_digit(n: u8) -> (s: &'static str)
    requires
        n < 16,
    ensures
        s@ == seq![hex_char(n as int)],
{
    match n {
        0 => { proof { reveal_strlit("0"); } "0" },
        1 => { proof { reveal_strlit("1"); } "1" },
        2 => { proof { reveal_strlit("2"); } "2" },
        3 => { proof { reveal_strlit("3"); } "3" },
        4 => { proof { reveal_strlit("4"); } "4" },
        5 => { proof { reveal_strlit("5"); } "5" },
        6 => { proof { reveal_strlit("6"); } "6" },
        7 => { proof { reveal_strlit("7"); } "7" },
        8 => { proof { reveal_strlit("8"); } "8" },
        9 => { proof { reveal_strlit("9"); } "9" },
        10 => { proof { reveal_strlit("a"); } "a" },
        11 => { proof { reveal_strlit("b"); } "b" },
        12 => { proof { reveal_strlit("c"); } "c" },
        13 => { proof { reveal_strlit("d"); } "d" },
        14 => { proof { reveal_strlit("e"); } "e" },
        _ => { proof { reveal_strlit("f"); } "f" },
    }
}

/// Return a lowercase hexadecimal representation suitable for logging.
pub fn checksum_hex(hash: &Checksum) -> (s: String)
    ensures
        s@ == hex_encoding(hash.bytes@),
        s@.len() == 64,
{
    let mut s = String::new();
    let mut i: usize = 0;
    while i < 32
        invariant
            i <= 32,
            hash.bytes@.len() == 32,
            s@ == hex_encoding(hash.bytes@.take(i as int)),
            s@.len() == 2 * i,
        decreases 32 - i,
    {
        let b = hash.bytes[i];
        let high = b / 16;
        let low = b % 16;
        s.append(hex_digit(high));
        s.append(hex_digit(low));
        assert(hash.bytes@.take(i + 1).drop_last() =~= hash.bytes@.take(i as int));
        i = i + 1;
    }
    assert(hash.bytes@.take(32) =~= hash.bytes@);
    s
}

} // verus!
