//! SHA-256 of files and ranges of files, fed piece by piece.

use sha2::Digest;
use vstd::prelude::*;

use crate::chunk::{least, smaller, HASH_READ_BUFFER_SIZE};

verus! {

/// The hasher of the `sha2` crate.
#[verifier::external_type_specification]
#[verifier::external_body]
pub struct ExSha256(sha2::Sha256);

/// The bytes that a hasher has been fed so far.
pub uninterp spec fn absorbed(hasher: sha2::Sha256) -> Seq<u8>;

/// The SHA-256 digest of a sequence of bytes.
pub uninterp spec fn sha256(data: Seq<u8>) -> Seq<u8>;

/// The digest's bit counter holds 64 bits, so data must stay below this size.
pub const HASH_LIMIT: u64 = 0x2000_0000_0000_0000;

/// `Sha256::new`: a hasher that has been fed nothing.
#[verifier::external_body]
fn new_hasher() -> (r: sha2::Sha256)
    ensures
        absorbed(r) == Seq::<u8>::empty(),
{
    sha2::Sha256::new()
}

/// `Sha256::update`: feeds bytes to the hasher, behind those fed before.
#[verifier::external_body]
fn update_hasher(hasher: &mut sha2::Sha256, data: &[u8])
    ensures
        absorbed(*final(hasher)) == absorbed(*old(hasher)) + data@,
{
    hasher.update(data)
}

/// `Sha256::finalize`: the 32 bytes of the digest of all that was fed. The
/// bit length of the data is kept in 64 bits and must not exceed them.
#[verifier::external_body]
fn finish_hasher(hasher: sha2::Sha256) -> (r: [u8; 32])
    requires
        absorbed(hasher).len() < HASH_LIMIT,
    ensures
        r@ == sha256(absorbed(hasher)),
{
    hasher.finalize().into()
}

/// The digest of a byte range, computed while its bytes come in.
pub struct RangeHash {
    hasher: sha2::Sha256,
    remaining: u64,
}

impl RangeHash {
    /// The bytes fed so far.
    pub closed spec fn fed(self) -> Seq<u8> {
        absorbed(self.hasher)
    }

    /// How many bytes of the range are still to come.
    pub closed spec fn missing(self) -> u64 {
        self.remaining
    }

    /// The whole range fits the digest's counter.
    pub open spec fn wf(self) -> bool {
        self.fed().len() + self.missing() < HASH_LIMIT
    }

    /// Starts the digest of a range of `len` bytes.
    pub fn new(len: u64) -> (r: Self)
        requires
            len < HASH_LIMIT,
        ensures
            r.wf(),
            r.fed() == Seq::<u8>::empty(),
            r.missing() == len,
    {
        RangeHash { hasher: new_hasher(), remaining: len }
    }

    /// Starts the digest of a file that is read to its end.
    pub fn to_end() -> (r: Self)
        ensures
            r.wf(),
            r.fed() == Seq::<u8>::empty(),
            r.missing() == HASH_LIMIT - 1,
    {
        RangeHash::new(HASH_LIMIT - 1)
    }

    /// How many bytes to read next; none once the range is complete.
    pub fn next_read_len(&self) -> (r: u64)
        ensures
            r == least(HASH_READ_BUFFER_SIZE as int, self.missing() as int),
    {
        smaller(HASH_READ_BUFFER_SIZE, self.remaining)
    }

    /// Feeds the bytes that a read has brought. A read that brings nothing, or
    /// more than is missing, changes nothing and gives `false`.
    pub fn feed(&mut self, data: &[u8]) -> (r: bool)
        requires
            old(self).wf(),
        ensures
            final(self).wf(),
            r == (0 < data@.len() <= old(self).missing()),
            r ==> final(self).fed() == old(self).fed() + data@,
            r ==> final(self).missing() == old(self).missing() - data@.len(),
            !r ==> *final(self) == *old(self),
    {
        let n: usize = data.len();
        if n == 0 || n as u64 > self.remaining {
            return false;
        }
        update_hasher(&mut self.hasher, data);
        self.remaining = self.remaining - n as u64;
        true
    }

    /// The digest of the bytes fed.
    pub fn finish(self) -> (r: [u8; 32])
        requires
            self.wf(),
        ensures
            r@ == sha256(self.fed()),
    {
        finish_hasher(self.hasher)
    }
}

/// The SHA-256 digest of bytes in memory.
pub fn digest_of(data: &[u8]) -> (r: [u8; 32])
    requires
        data@.len() < HASH_LIMIT,
    ensures
        r@ == sha256(data@),
{
    let mut h = new_hasher();
    update_hasher(&mut h, data);
    proof {
        assert(Seq::<u8>::empty() + data@ == data@);
    }
    finish_hasher(h)
}

/// Whether two digests are equal.
pub fn same_digest(a: &[u8; 32], b: &[u8; 32]) -> (r: bool)
    ensures
        r == (a@ == b@),
{
    let mut i: usize = 0;
    while i < 32
        invariant
            i <= 32,
            forall|k: int| 0 <= k < i ==> a@[k] == b@[k],
        decreases 32 - i,
    {
        if a[i] != b[i] {
            return false;
        }
        i = i + 1;
    }
    proof {
        assert(a@ =~= b@);
    }
    true
}

/// The character of a hexadecimal digit.
pub open spec fn hex_digit(d: int) -> char {
    if d < 10 {
        (48 + d) as char
    } else {
        (87 + d) as char
    }
}

/// Bytes as text, two small hexadecimal digits for each.
pub open spec fn hex_of(bytes: Seq<u8>) -> Seq<char> {
    Seq::new(
        2 * bytes.len(),
        |i: int| hex_digit(if i % 2 == 0 { bytes[i / 2] as int / 16 } else { bytes[i / 2] as int % 16 }),
    )
}

fn hex_char(d: u8) -> (r: char)
    requires
        d < 16,
    ensures
        r == hex_digit(d as int),
{
    if d < 10 {
        (48 + d) as char
    } else {
        (87 + d) as char
    }
}

/// Renders bytes in hexadecimal.
pub fn hex_encode(bytes: &[u8]) -> (r: String)
    ensures
        r@ == hex_of(bytes@),
{
    let mut s = String::new();
    let mut i: usize = 0;
    while i < bytes.len()
        invariant
            i <= bytes@.len(),
            s@ == hex_of(bytes@.take(i as int)),
        decreases bytes@.len() - i,
    {
        let b: u8 = bytes[i];
        let ghost before = s@;
        s.push(hex_char(b / 16));
        s.push(hex_char(b % 16));
        proof {
            let shorter = bytes@.take(i as int);
            let longer = bytes@.take(i + 1);
            assert forall|k: int| 0 <= k < 2 * shorter.len() implies hex_of(longer)[k]
                == #[trigger] hex_of(shorter)[k] by {
                assert(longer[k / 2] == shorter[k / 2]);
            }
            assert((2 * i) / 2 == i && (2 * i + 1) / 2 == i as int);
            assert(s@ =~= hex_of(longer));
        }
        i = i + 1;
    }
    proof {
        assert(bytes@.take(bytes@.len() as int) == bytes@);
    }
    s
}

/// Different bytes have different hexadecimal text.
pub proof fn hex_is_injective(a: Seq<u8>, b: Seq<u8>)
    requires
        hex_of(a) == hex_of(b),
    ensures
        a == b,
{
    assert(hex_of(a).len() == 2 * a.len());
    assert(hex_of(b).len() == 2 * b.len());
    assert forall|i: int| 0 <= i < a.len() implies a[i] == b[i] by {
        let ha = hex_of(a);
        let hb = hex_of(b);
        assert(ha[2 * i] == hb[2 * i] && ha[2 * i + 1] == hb[2 * i + 1]);
        assert((2 * i) / 2 == i && (2 * i + 1) / 2 == i && (2 * i) % 2 == 0 && (2 * i + 1) % 2 == 1);
        assert(ha[2 * i] == hex_digit(a[i] as int / 16));
        assert(hb[2 * i] == hex_digit(b[i] as int / 16));
        assert(ha[2 * i + 1] == hex_digit(a[i] as int % 16));
        assert(hb[2 * i + 1] == hex_digit(b[i] as int % 16));
    }
    assert(a =~= b);
}

/// Bytes are rendered two characters each, the higher four bits first: a digit
/// for a value below ten, and one of the six letters from 'a' on for the others.
pub proof fn hex_is_written_high_digit_first(bytes: Seq<u8>, i: int)
    requires
        0 <= i < bytes.len(),
    ensures
        hex_of(bytes).len() == 2 * bytes.len(),
        ({
            let high = bytes[i] as int / 16;
            let low = bytes[i] as int % 16;
            let a = hex_of(bytes)[2 * i];
            let b = hex_of(bytes)[2 * i + 1];
            &&& high < 10 ==> a as int == '0' as int + high
            &&& high >= 10 ==> a as int == 'a' as int + (high - 10)
            &&& low < 10 ==> b as int == '0' as int + low
            &&& low >= 10 ==> b as int == 'a' as int + (low - 10)
        }),
{
    assert((2 * i) / 2 == i && (2 * i + 1) / 2 == i && (2 * i) % 2 == 0 && (2 * i + 1) % 2 == 1);
}

} // verus!
