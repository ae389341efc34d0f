//! SHA-256 values: streaming computation over chunks, and their lowercase-hex
//! and `sha256:<hex>` renderings.
use crate::text::{push_str_chars, string_from_chars};
use sha2::Digest;
use vstd::prelude::*;

verus! {

/// The SHA-256 digest of a byte sequence, as the sha2 crate computes it.
pub uninterp spec fn sha256_of(data: Seq<u8>) -> Seq<u8>;

/// The bytes fed so far into a running hasher.
pub uninterp spec fn hasher_input(h: &Sha256Hasher) -> Seq<u8>;

/// A running SHA-256 computation over a stream of chunks. `sha2::Sha256` is an
/// alias of a generic wrapper type that cannot be declared to the verifier, so
/// the hasher is held here and its contents are named by `hasher_input`.
#[verifier::external_body]
pub struct Sha256Hasher {
    inner: sha2::Sha256,
}

/// Relies on sha2::Sha256::new: a hasher that has been fed nothing.
#[verifier::external_body]
fn hasher_new() -> (r: Sha256Hasher)
    ensures
        hasher_input(&r) == Seq::<u8>::empty(),
{
    Sha256Hasher { inner: sha2::Sha256::new() }
}

/// Relies on sha2::Digest::update: the chunk is appended to what was fed.
#[verifier::external_body]
fn hasher_update(h: &mut Sha256Hasher, data: &[u8])
    ensures
        hasher_input(final(h)) == hasher_input(old(h)) + data@,
{
    h.inner.update(data)
}

/// Relies on sha2::Digest::finalize: the 32-byte digest of everything fed.
#[verifier::external_body]
fn hasher_finalize(h: Sha256Hasher) -> (r: [u8; 32])
    ensures
        r@ == sha256_of(hasher_input(&h)),
{
    h.inner.finalize().into()
}

/// A length in bytes.
#[derive(Clone, Copy, Debug, PartialEq, Eq, Structural)]
pub struct DataLen(pub u64);

/// A SHA-256 digest value.
#[derive(Clone, Copy, Debug)]
pub struct Sha256Value {
    pub bytes: [u8; 32],
}

/// The lowercase hexadecimal digit of a nibble.
pub open spec fn hex_digit(n: u8) -> char {
    if n == 0 { '0' } else if n == 1 { '1' } else if n == 2 { '2' } else if n == 3 { '3' }
    else if n == 4 { '4' } else if n == 5 { '5' } else if n == 6 { '6' } else if n == 7 { '7' }
    else if n == 8 { '8' } else if n == 9 { '9' } else if n == 10 { 'a' } else if n == 11 { 'b' }
    else if n == 12 { 'c' } else if n == 13 { 'd' } else if n == 14 { 'e' } else { 'f' }
}

/// Two lowercase hex digits per byte, high nibble first.
pub open spec fn hex_of(bytes: Seq<u8>) -> Seq<char>
    decreases bytes.len(),
{
    if bytes.len() == 0 {
        Seq::empty()
    } else {
        let b = bytes.last();
        hex_of(bytes.drop_last()) + seq![hex_digit(b / 16), hex_digit(b % 16)]
    }
}

/// The prefix that marks a SHA-256 digest reference.
pub open spec fn digest_prefix() -> Seq<char> {
    seq!['s', 'h', 'a', '2', '5', '6', ':']
}

/// The `sha256:<hex>` form under which a blob is referenced.
pub open spec fn digest_ref(bytes: Seq<u8>) -> Seq<char> {
    digest_prefix() + hex_of(bytes)
}

fn hex_char(n: u8) -> (c: char)
    requires
        n < 16,
    ensures
        c == hex_digit(n),
{
    if n == 0 { '0' } else if n == 1 { '1' } else if n == 2 { '2' } else if n == 3 { '3' }
    else if n == 4 { '4' } else if n == 5 { '5' } else if n == 6 { '6' } else if n == 7 { '7' }
    else if n == 8 { '8' } else if n == 9 { '9' } else if n == 10 { 'a' } else if n == 11 { 'b' }
    else if n == 12 { 'c' } else if n == 13 { 'd' } else if n == 14 { 'e' } else { 'f' }
}

impl Sha256Hasher {
    /// A hasher that has been fed nothing.
    pub fn new() -> (r: Sha256Hasher)
        ensures
            hasher_input(&r) == Seq::<u8>::empty(),
    {
        hasher_new()
    }

    /// Feeds one more chunk.
    pub fn update(&mut self, data: &[u8])
        ensures
            hasher_input(final(self)) == hasher_input(old(self)) + data@,
    {
        hasher_update(self, data)
    }

    /// The digest of every chunk fed, in order.
    pub fn finish(self) -> (r: Sha256Value)
        ensures
            r.bytes@ == sha256_of(hasher_input(&self)),
    {
        Sha256Value { bytes: hasher_finalize(self) }
    }
}

impl Sha256Value {
    /// The digest of a whole byte sequence.
    pub fn of_bytes(data: &[u8]) -> (r: Sha256Value)
        ensures
            r.bytes@ == sha256_of(data@),
    {
        let mut h = Sha256Hasher::new();
        h.update(data);
        assert(Seq::<u8>::empty() + data@ =~= data@);
        h.finish()
    }

    fn push_hex(&self, out: &mut Vec<char>)
        ensures
            final(out)@ == old(out)@ + hex_of(self.bytes@),
    {
        let mut i: usize = 0;
        while i < 32
            invariant
                0 <= i <= 32,
                self.bytes@.len() == 32,
                out@ == old(out)@ + hex_of(self.bytes@.subrange(0, i as int)),
            decreases 32 - i,
        {
            let b = self.bytes[i];
            out.push(hex_char(b / 16));
            out.push(hex_char(b % 16));
            proof {
                let s = self.bytes@.subrange(0, i as int + 1);
                assert(s.drop_last() =~= self.bytes@.subrange(0, i as int));
                assert(s.last() == b);
            }
            i += 1;
            assert(out@ =~= old(out)@ + hex_of(self.bytes@.subrange(0, i as int)));
        }
        assert(self.bytes@.subrange(0, 32) =~= self.bytes@);
    }

    /// Lowercase hexadecimal, two digits per byte.
    pub fn to_hex(&self) -> (r: String)
        ensures
            r@ == hex_of(self.bytes@),
    {
        let mut out: Vec<char> = Vec::new();
        self.push_hex(&mut out);
        assert(out@ =~= hex_of(self.bytes@));
        string_from_chars(&out)
    }

    /// The `sha256:<hex>` reference form.
    pub fn digest_string(&self) -> (r: String)
        ensures
            r@ == digest_ref(self.bytes@),
    {
        let mut out: Vec<char> = Vec::new();
        push_str_chars(&mut out, "sha256:");
        proof {
            reveal_strlit("sha256:");
        }
        assert(out@ =~= digest_prefix());
        self.push_hex(&mut out);
        string_from_chars(&out)
    }
}

/// How a layer file is compressed, as its first bytes show.
#[derive(Clone, Copy, Debug, PartialEq, Eq, Structural)]
pub enum Compression {
    Gzip,
    Zstd,
    Unknown,
}

/// The compression that a file's leading bytes announce: gzip starts with
/// `1f 8b`, zstd with `28 b5 2f fd`.
pub open spec fn compression_spec(prefix: Seq<u8>) -> Compression {
    if prefix.len() >= 2 && prefix[0] == 0x1f && prefix[1] == 0x8b {
        Compression::Gzip
    } else if prefix.len() >= 4 && prefix[0] == 0x28 && prefix[1] == 0xb5 && prefix[2] == 0x2f && prefix[3] == 0xfd {
        Compression::Zstd
    } else {
        Compression::Unknown
    }
}

/// Tells gzip from zstd by the leading bytes of a file.
pub fn compression_of(prefix: &[u8]) -> (r: Compression)
    ensures
        r == compression_spec(prefix@),
{
    if prefix.len() >= 2 && prefix[0] == 0x1f && prefix[1] == 0x8b {
        Compression::Gzip
    } else if prefix.len() >= 4 && prefix[0] == 0x28 && prefix[1] == 0xb5 && prefix[2] == 0x2f && prefix[3] == 0xfd {
        Compression::Zstd
    } else {
        Compression::Unknown
    }
}

} // verus!
