//! Perceptual hashing of page screenshots (`image` decodes, `image_hasher`
//! hashes) and the Hamming distance between two perceptual hashes.
use vstd::prelude::*;
use image_hasher::ImageHash;

verus! {

#[verifier::external_type_specification]
#[verifier::external_body]
#[verifier::reject_recursive_types(B)]
pub struct ExImageHash<B>(image_hasher::ImageHash<B>);

#[verifier::external_type_specification]
#[verifier::external_body]
pub struct ExInvalidBytesError(image_hasher::InvalidBytesError);

#[verifier::external_type_specification]
#[verifier::external_body]
pub struct ExImageError(image::ImageError);

/// The bytes that an `ImageHash` holds (what `ImageHash::as_bytes` shows).
pub uninterp spec fn phash_bytes(hash: ImageHash<Box<[u8]>>) -> Seq<u8>;

/// Whether `image::load_from_memory` decodes the bytes (recognises the format
/// and reads the image without error).
pub uninterp spec fn image_decodes(encoded: Seq<u8>) -> bool;

/// The character of the standard Base64 alphabet for a 6-bit value.
pub open spec fn base64_char(v: int) -> char {
    if v < 26 {
        (65 + v) as char
    } else if v < 52 {
        (97 + (v - 26)) as char
    } else if v < 62 {
        (48 + (v - 52)) as char
    } else if v == 62 {
        '+'
    } else {
        '/'
    }
}

/// Standard Base64 without padding: each group of three bytes becomes four
/// characters, and a final group of one or two bytes becomes two or three
/// characters whose unused low bits are zero.
pub open spec fn base64_encode(bytes: Seq<u8>) -> Seq<char>
    decreases bytes.len(),
{
    if bytes.len() == 0 {
        seq![]
    } else if bytes.len() == 1 {
        seq![base64_char((bytes[0] / 4) as int), base64_char((bytes[0] % 4) * 16)]
    } else if bytes.len() == 2 {
        seq![
            base64_char((bytes[0] / 4) as int),
            base64_char((bytes[0] % 4) * 16 + bytes[1] / 16),
            base64_char((bytes[1] % 16) * 4),
        ]
    } else {
        seq![
            base64_char((bytes[0] / 4) as int),
            base64_char((bytes[0] % 4) * 16 + bytes[1] / 16),
            base64_char((bytes[1] % 16) * 4 + bytes[2] / 64),
            base64_char((bytes[2] % 64) as int),
        ] + base64_encode(bytes.subrange(3, bytes.len() as int))
    }
}

/// A text is the unpadded Base64 of some bytes.
pub open spec fn is_base64(text: Seq<char>) -> bool {
    exists|bytes: Seq<u8>| #[trigger] base64_encode(bytes) == text
}

/// The bytes whose unpadded Base64 a text is, if any (there is at most one
/// such byte string: `lemma_base64_injective`).
pub open spec fn base64_decode(text: Seq<char>) -> Option<Seq<u8>> {
    if is_base64(text) {
        Some(choose|bytes: Seq<u8>| #[trigger] base64_encode(bytes) == text)
    } else {
        None
    }
}

proof fn lemma_base64_char_injective(v: int, w: int)
    requires
        0 <= v < 64,
        0 <= w < 64,
        base64_char(v) == base64_char(w),
    ensures
        v == w,
{
    assert(('+' as int) == 43);
    assert(('/' as int) == 47);
}

proof fn lemma_base64_len(bytes: Seq<u8>)
    ensures
        base64_encode(bytes).len() == 4 * (bytes.len() / 3) + (if bytes.len() % 3 == 0 {
            0int
        } else if bytes.len() % 3 == 1 {
            2int
        } else {
            3int
        }),
    decreases bytes.len(),
{
    if bytes.len() >= 3 {
        lemma_base64_len(bytes.subrange(3, bytes.len() as int));
    }
}

proof fn lemma_group_determines_bytes(a: u8, b: u8, c: u8, x: u8, y: u8, z: u8)
    requires
        a / 4 == x / 4,
        (a % 4) * 16 + b / 16 == (x % 4) * 16 + y / 16,
        (b % 16) * 4 + c / 64 == (y % 16) * 4 + z / 64,
        c % 64 == z % 64,
    ensures
        a == x,
        b == y,
        c == z,
{
}

/// Different byte strings have different encodings.
pub proof fn lemma_base64_injective(a: Seq<u8>, b: Seq<u8>)
    requires
        base64_encode(a) == base64_encode(b),
    ensures
        a == b,
    decreases a.len(),
{
    lemma_base64_len(a);
    lemma_base64_len(b);
    let ea = base64_encode(a);
    assert(a.len() == b.len());
    if a.len() == 0 {
        assert(a =~= b);
    } else if a.len() == 1 {
        lemma_base64_char_injective((a[0] / 4) as int, (b[0] / 4) as int);
        assert(ea[1] == base64_char((a[0] % 4) * 16));
        lemma_base64_char_injective((a[0] % 4) * 16, (b[0] % 4) * 16);
        assert(a[0] == b[0]);
        assert(a =~= b);
    } else if a.len() == 2 {
        lemma_base64_char_injective((a[0] / 4) as int, (b[0] / 4) as int);
        lemma_base64_char_injective((a[0] % 4) * 16 + a[1] / 16, (b[0] % 4) * 16 + b[1] / 16);
        lemma_base64_char_injective((a[1] % 16) * 4, (b[1] % 16) * 4);
        lemma_group_determines_bytes(a[0], a[1], 0, b[0], b[1], 0);
        assert(a =~= b);
    } else {
        let eb = base64_encode(b);
        assert(ea[0] == base64_char((a[0] / 4) as int));
        assert(eb[0] == base64_char((b[0] / 4) as int));
        assert(ea[1] == base64_char((a[0] % 4) * 16 + a[1] / 16));
        assert(eb[1] == base64_char((b[0] % 4) * 16 + b[1] / 16));
        assert(ea[2] == base64_char((a[1] % 16) * 4 + a[2] / 64));
        assert(eb[2] == base64_char((b[1] % 16) * 4 + b[2] / 64));
        assert(ea[3] == base64_char((a[2] % 64) as int));
        assert(eb[3] == base64_char((b[2] % 64) as int));
        lemma_base64_char_injective((a[0] / 4) as int, (b[0] / 4) as int);
        lemma_base64_char_injective((a[0] % 4) * 16 + a[1] / 16, (b[0] % 4) * 16 + b[1] / 16);
        lemma_base64_char_injective((a[1] % 16) * 4 + a[2] / 64, (b[1] % 16) * 4 + b[2] / 64);
        lemma_base64_char_injective((a[2] % 64) as int, (b[2] % 64) as int);
        lemma_group_determines_bytes(a[0], a[1], a[2], b[0], b[1], b[2]);
        let ra = a.subrange(3, a.len() as int);
        let rb = b.subrange(3, b.len() as int);
        assert(base64_encode(ra) =~= ea.subrange(4, ea.len() as int));
        assert(base64_encode(rb) =~= base64_encode(b).subrange(4, ea.len() as int));
        lemma_base64_injective(ra, rb);
        assert forall|i: int| 0 <= i < a.len() implies a[i] == b[i] by {
            if i >= 3 {
                assert(a[i] == ra[i - 3]);
                assert(b[i] == rb[i - 3]);
            }
        }
        assert(a =~= b);
    }
}

/// A text that no non-empty byte string encodes to decodes to nothing, or to
/// the empty string.
pub proof fn lemma_base64_decode_empty(text: Seq<char>)
    requires
        forall|bytes: Seq<u8>| #[trigger] base64_encode(bytes) == text ==> bytes.len() == 0,
    ensures
        !(base64_decode(text) matches Some(b) && b.len() > 0),
{
    if is_base64(text) {
        let chosen = choose|b: Seq<u8>| #[trigger] base64_encode(b) == text;
        assert(base64_encode(chosen) == text);
    }
}

/// Decoding the Base64 of some bytes gives those bytes back.
pub proof fn lemma_base64_round_trip(bytes: Seq<u8>)
    ensures
        base64_decode(base64_encode(bytes)) == Some(bytes),
{
    let text = base64_encode(bytes);
    assert(is_base64(text));
    let chosen = choose|b: Seq<u8>| #[trigger] base64_encode(b) == text;
    lemma_base64_injective(chosen, bytes);
}

/// Decodes an image with `image::load_from_memory` and hashes it with the
/// hasher of `image_hasher::HasherConfig::new()` (`to_hasher`, then
/// `hash_image`). Trusted: it fails exactly where decoding fails, and
/// otherwise the hash holds 8 bytes (the default 8x8 hash size, as the crate
/// documents). Which bytes is left unsaid: the default hasher resizes with a
/// Lanczos filter computed with `f32::sin`, whose precision std leaves
/// unspecified, so two calls on the same image need not agree.
#[verifier::external_body]
pub(crate) fn hash_screenshot(encoded: &[u8]) -> (hash: Result<ImageHash<Box<[u8]>>, image::ImageError>)
    ensures
        hash is Err <==> !image_decodes(encoded@),
        hash matches Ok(h) ==> phash_bytes(h).len() == 8,
{
    match image::load_from_memory(encoded) {
        Ok(img) => Ok(image_hasher::HasherConfig::new().to_hasher().hash_image(&img)),
        Err(e) => Err(e),
    }
}

/// Calls `ImageHash::to_base64`. Trusted: the text is the standard unpadded
/// Base64 (`base64::engine::general_purpose::STANDARD_NO_PAD`) of the hash bytes.
#[verifier::external_body]
pub(crate) fn phash_to_base64(hash: &ImageHash<Box<[u8]>>) -> (text: String)
    ensures
        text@ == base64_encode(phash_bytes(*hash)),
{
    hash.to_base64()
}

/// Calls `ImageHash::from_base64`. Trusted: the `STANDARD_NO_PAD` engine
/// rejects padding, characters outside the alphabet, a lone final character
/// and non-zero unused bits, so it accepts exactly the unpadded Base64 of some
/// bytes; `from_bytes` then rejects only the empty string (the default
/// container holds any length). It succeeds exactly where the text is the
/// Base64 of non-empty bytes, and the hash then holds those bytes.
#[verifier::external_body]
pub(crate) fn phash_from_base64(text: &str) -> (hash: Result<ImageHash<Box<[u8]>>, image_hasher::InvalidBytesError>)
    ensures
        match hash {
            Ok(h) => base64_encode(phash_bytes(h)) == text@ && phash_bytes(h).len() > 0,
            Err(_) => forall|bytes: Seq<u8>| #[trigger] base64_encode(bytes) == text@ ==> bytes.len() == 0,
        },
{
    ImageHash::<Box<[u8]>>::from_base64(text)
}

/// Calls `ImageHash::as_bytes`. Trusted: it shows the bytes that the hash holds.
#[verifier::external_body]
pub(crate) fn phash_as_bytes(hash: &ImageHash<Box<[u8]>>) -> (bytes: &[u8])
    ensures
        bytes@ == phash_bytes(*hash),
{
    hash.as_bytes()
}

/// The number of one bits in a byte.
pub open spec fn popcount(x: u8) -> nat
    decreases x,
{
    if x == 0 {
        0
    } else {
        (x % 2) as nat + popcount(x / 2)
    }
}

/// The count of one bits: zero has none, and a byte has the one bits of its
/// upper seven bits (`x / 2`) plus its lowest bit (`x % 2`).
pub proof fn lemma_popcount_counts_bits(x: u8)
    ensures
        popcount(0) == 0,
        popcount(x) == popcount(x / 2) + (x % 2) as nat,
{
}

/// A byte with a single bit set has one one bit; the all-ones byte has eight.
pub proof fn lemma_popcount_powers_of_two()
    ensures
        popcount(1) == 1,
        popcount(2) == 1,
        popcount(4) == 1,
        popcount(8) == 1,
        popcount(16) == 1,
        popcount(32) == 1,
        popcount(64) == 1,
        popcount(128) == 1,
        popcount(0x55) == 4,
        popcount(0xaa) == 4,
        popcount(0xff) == 8,
{
    reveal_with_fuel(popcount, 9);
}

/// The Hamming distance between the first `n` bytes of two byte strings.
pub open spec fn hamming_prefix(a: Seq<u8>, b: Seq<u8>, n: nat) -> nat
    decreases n,
{
    if n == 0 {
        0
    } else {
        hamming_prefix(a, b, (n - 1) as nat) + popcount(a[n - 1] ^ b[n - 1])
    }
}

/// The Hamming distance of two hashes as `ImageHash::dist` counts it: the one
/// bits of the XOR of the bytes they share positions for.
pub open spec fn hamming(a: Seq<u8>, b: Seq<u8>) -> nat {
    hamming_prefix(a, b, if a.len() <= b.len() { a.len() } else { b.len() })
}

proof fn lemma_popcount_at_most(x: u8)
    ensures
        popcount(x) <= x,
    decreases x,
{
    if x != 0 {
        lemma_popcount_at_most(x / 2);
    }
}

proof fn lemma_hamming_prefix_grows(a: Seq<u8>, b: Seq<u8>, m: nat, n: nat)
    requires
        m <= n,
    ensures
        hamming_prefix(a, b, m) <= hamming_prefix(a, b, n),
    decreases n,
{
    if m < n {
        lemma_hamming_prefix_grows(a, b, m, (n - 1) as nat);
    }
}

proof fn lemma_hamming_prefix_self(a: Seq<u8>, n: nat)
    requires
        n <= a.len(),
    ensures
        hamming_prefix(a, a, n) == 0,
    decreases n,
{
    if n > 0 {
        lemma_hamming_prefix_self(a, (n - 1) as nat);
        let x = a[n - 1];
        assert(x ^ x == 0) by (bit_vector);
    }
}

proof fn lemma_hamming_prefix_symmetric(a: Seq<u8>, b: Seq<u8>, n: nat)
    requires
        n <= a.len(),
        n <= b.len(),
    ensures
        hamming_prefix(a, b, n) == hamming_prefix(b, a, n),
    decreases n,
{
    if n > 0 {
        lemma_hamming_prefix_symmetric(a, b, (n - 1) as nat);
        let x = a[n - 1];
        let y = b[n - 1];
        assert(x ^ y == y ^ x) by (bit_vector);
    }
}

/// The Hamming distance of a hash to itself is 0.
pub proof fn lemma_hamming_self(a: Seq<u8>)
    ensures
        hamming(a, a) == 0,
{
    lemma_hamming_prefix_self(a, a.len());
}

/// The Hamming distance does not depend on the order of the hashes.
pub proof fn lemma_hamming_symmetric(a: Seq<u8>, b: Seq<u8>)
    ensures
        hamming(a, b) == hamming(b, a),
{
    let n = if a.len() <= b.len() { a.len() } else { b.len() };
    lemma_hamming_prefix_symmetric(a, b, n);
}

/// The distance between empty hashes is 0, and extending two hashes of equal
/// length by one byte each adds the number of bits in which those bytes differ.
pub proof fn lemma_hamming_extends(a: Seq<u8>, b: Seq<u8>, x: u8, y: u8)
    requires
        a.len() == b.len(),
    ensures
        hamming(Seq::<u8>::empty(), Seq::<u8>::empty()) == 0,
        hamming(a.push(x), b.push(y)) == hamming(a, b) + popcount(x ^ y),
{
    lemma_hamming_prefix_agrees(a, a.push(x), b, b.push(y), a.len());
}

/// Bytes of the longer hash past the end of the shorter one do not count.
pub proof fn lemma_hamming_ignores_excess(a: Seq<u8>, b: Seq<u8>, y: u8)
    requires
        a.len() <= b.len(),
    ensures
        hamming(a, b.push(y)) == hamming(a, b),
        hamming(b.push(y), a) == hamming(b, a),
{
    lemma_hamming_prefix_agrees(a, a, b, b.push(y), a.len());
    lemma_hamming_prefix_agrees(b, b.push(y), a, a, a.len());
}

proof fn lemma_hamming_prefix_agrees(a: Seq<u8>, a2: Seq<u8>, b: Seq<u8>, b2: Seq<u8>, n: nat)
    requires
        n <= a.len(),
        n <= b.len(),
        n <= a2.len(),
        n <= b2.len(),
        forall|i: int| 0 <= i < n ==> a[i] == a2[i] && b[i] == b2[i],
    ensures
        hamming_prefix(a, b, n) == hamming_prefix(a2, b2, n),
    decreases n,
{
    if n > 0 {
        lemma_hamming_prefix_agrees(a, a2, b, b2, (n - 1) as nat);
    }
}

/// The number of one bits in `x`.
fn count_ones(x: u8) -> (count: u32)
    ensures
        count == popcount(x),
{
    let mut v: u8 = x;
    let mut c: u32 = 0;
    proof {
        lemma_popcount_at_most(x);
    }
    while v > 0
        invariant
            c + popcount(v) == popcount(x),
            popcount(x) <= 255,
        decreases v,
    {
        c = c + (v % 2) as u32;
        v = v / 2;
    }
    c
}

/// The Hamming distance of two perceptual hashes, where it is at most
/// `limit`; `None` where it is larger.
pub fn distance_within(a: &[u8], b: &[u8], limit: u32) -> (d: Option<u32>)
    requires
        limit <= u32::MAX - 255,
    ensures
        match d {
            Some(d) => d == hamming(a@, b@) && d <= limit,
            None => hamming(a@, b@) > limit,
        },
{
    let n: usize = if a.len() <= b.len() { a.len() } else { b.len() };
    let mut acc: u32 = 0;
    let mut i: usize = 0;
    while i < n
        invariant
            n <= a@.len(),
            n <= b@.len(),
            n == (if a@.len() <= b@.len() { a@.len() } else { b@.len() }),
            i <= n,
            acc == hamming_prefix(a@, b@, i as nat),
            acc <= limit,
            limit <= u32::MAX - 255,
        decreases n - i,
    {
        proof {
            lemma_popcount_at_most(a@[i as int] ^ b@[i as int]);
        }
        let ones = count_ones(a[i] ^ b[i]);
        let next: u32 = acc + ones;
        i = i + 1;
        if next > limit {
            proof {
                lemma_hamming_prefix_grows(a@, b@, i as nat, n as nat);
            }
            return None;
        }
        acc = next;
    }
    Some(acc)
}

} // verus!
