//! The binary layout of account state and instruction data: integers in
//! little-endian order, booleans as one byte (0 or 1), addresses as their
//! 32 bytes, strings as a 32-bit length followed by their UTF-8 bytes,
//! enum variants as a one-byte tag followed by their fields.

use vstd::prelude::*;
use vstd::bytes::*;
use crate::key::{Pubkey, seq_to_key};

verus! {

pub open spec fn enc_u8(x: u8) -> Seq<u8> {
    seq![x]
}

pub open spec fn enc_bool(b: bool) -> Seq<u8> {
    seq![if b { 1u8 } else { 0u8 }]
}

pub open spec fn enc_u16(x: u16) -> Seq<u8> {
    spec_u16_to_le_bytes(x)
}

pub open spec fn enc_u32(x: u32) -> Seq<u8> {
    spec_u32_to_le_bytes(x)
}

pub open spec fn enc_u64(x: u64) -> Seq<u8> {
    spec_u64_to_le_bytes(x)
}

/// A signed 64-bit integer is laid out as its two's-complement bits.
pub open spec fn enc_i64(x: i64) -> Seq<u8> {
    spec_u64_to_le_bytes(x as u64)
}

pub open spec fn enc_u128(x: u128) -> Seq<u8> {
    spec_u128_to_le_bytes(x)
}

pub open spec fn enc_key(k: Pubkey) -> Seq<u8> {
    k@
}

pub open spec fn dec_bool(b: u8) -> Option<bool> {
    if b == 0 { Some(false) } else if b == 1 { Some(true) } else { None }
}

pub open spec fn dec_u16(s: Seq<u8>) -> u16 {
    spec_u16_from_le_bytes(s)
}

pub open spec fn dec_u32(s: Seq<u8>) -> u32 {
    spec_u32_from_le_bytes(s)
}

pub open spec fn dec_u64(s: Seq<u8>) -> u64 {
    spec_u64_from_le_bytes(s)
}

pub open spec fn dec_i64(s: Seq<u8>) -> i64 {
    spec_u64_from_le_bytes(s) as i64
}

pub open spec fn dec_u128(s: Seq<u8>) -> u128 {
    spec_u128_from_le_bytes(s)
}

/// Fixed-width encodings have their width, and decoding an encoding
/// gives the value back; decoding any bytes of the right width and
/// re-encoding gives the bytes back.
pub proof fn lemma_fixed_width_roundtrips()
    ensures
        forall|x: u16| #[trigger] enc_u16(x).len() == 2 && dec_u16(enc_u16(x)) == x,
        forall|x: u32| #[trigger] enc_u32(x).len() == 4 && dec_u32(enc_u32(x)) == x,
        forall|x: u64| #[trigger] enc_u64(x).len() == 8 && dec_u64(enc_u64(x)) == x,
        forall|x: i64| #[trigger] enc_i64(x).len() == 8 && dec_i64(enc_i64(x)) == x,
        forall|x: u128| #[trigger] enc_u128(x).len() == 16 && dec_u128(enc_u128(x)) == x,
        forall|s: Seq<u8>| s.len() == 2 ==> #[trigger] enc_u16(dec_u16(s)) == s,
        forall|s: Seq<u8>| s.len() == 4 ==> #[trigger] enc_u32(dec_u32(s)) == s,
        forall|s: Seq<u8>| s.len() == 8 ==> #[trigger] enc_u64(dec_u64(s)) == s,
        forall|s: Seq<u8>| s.len() == 8 ==> #[trigger] enc_i64(dec_i64(s)) == s,
        forall|s: Seq<u8>| s.len() == 16 ==> #[trigger] enc_u128(dec_u128(s)) == s,
{
    lemma_auto_spec_u16_to_from_le_bytes();
    lemma_auto_spec_u32_to_from_le_bytes();
    lemma_auto_spec_u64_to_from_le_bytes();
    lemma_auto_spec_u128_to_from_le_bytes();
    assert forall|x: i64| #[trigger] enc_i64(x).len() == 8 && dec_i64(enc_i64(x)) == x by {
        let u = x as u64;
        assert(spec_u64_from_le_bytes(spec_u64_to_le_bytes(u)) == u);
        assert((u as i64) == x) by (bit_vector)
            requires u == x as u64;
    }
    assert forall|s: Seq<u8>| s.len() == 8 implies #[trigger] enc_i64(dec_i64(s)) == s by {
        let u = spec_u64_from_le_bytes(s);
        assert(((u as i64) as u64) == u) by (bit_vector);
        assert(spec_u64_to_le_bytes(spec_u64_from_le_bytes(s)) == s);
    }
}

/// An address is determined by its bytes.
pub proof fn lemma_key_from_bytes(k: Pubkey)
    ensures
        seq_to_key(k@) == k,
{
    let c = seq_to_key(k@);
    assert(c@ == k@);
    assert(c =~= k);
}

pub fn push_u8(out: &mut Vec<u8>, x: u8)
    ensures
        final(out)@ == old(out)@ + enc_u8(x),
{
    out.push(x);
    assert(final(out)@ =~= old(out)@ + enc_u8(x));
}

pub fn push_bool(out: &mut Vec<u8>, b: bool)
    ensures
        final(out)@ == old(out)@ + enc_bool(b),
{
    out.push(if b { 1u8 } else { 0u8 });
    assert(final(out)@ =~= old(out)@ + enc_bool(b));
}

pub fn push_u16(out: &mut Vec<u8>, x: u16)
    ensures
        final(out)@ == old(out)@ + enc_u16(x),
{
    let mut b = u16_to_le_bytes(x);
    out.append(&mut b);
}

pub fn push_u32(out: &mut Vec<u8>, x: u32)
    ensures
        final(out)@ == old(out)@ + enc_u32(x),
{
    let mut b = u32_to_le_bytes(x);
    out.append(&mut b);
}

pub fn push_u64(out: &mut Vec<u8>, x: u64)
    ensures
        final(out)@ == old(out)@ + enc_u64(x),
{
    let mut b = u64_to_le_bytes(x);
    out.append(&mut b);
}

pub fn push_i64(out: &mut Vec<u8>, x: i64)
    ensures
        final(out)@ == old(out)@ + enc_i64(x),
{
    let mut b = u64_to_le_bytes(x as u64);
    out.append(&mut b);
}

pub fn push_u128(out: &mut Vec<u8>, x: u128)
    ensures
        final(out)@ == old(out)@ + enc_u128(x),
{
    let mut b = u128_to_le_bytes(x);
    out.append(&mut b);
}

pub fn push_key(out: &mut Vec<u8>, k: &Pubkey)
    ensures
        final(out)@ == old(out)@ + enc_key(*k),
{
    let ghost start = out@;
    let mut i: usize = 0;
    while i < 32
        invariant
            0 <= i <= 32,
            out@ == start + k@.subrange(0, i as int),
        decreases 32 - i,
    {
        out.push(k[i]);
        assert(k@.subrange(0, i + 1) =~= k@.subrange(0, i as int).push(k[i as int]));
        i = i + 1;
    }
    assert(k@.subrange(0, 32) =~= k@);
}

/// Appends raw bytes.
pub fn push_bytes(out: &mut Vec<u8>, bytes: &[u8])
    ensures
        final(out)@ == old(out)@ + bytes@,
{
    let ghost start = out@;
    let mut i: usize = 0;
    while i < bytes.len()
        invariant
            0 <= i <= bytes@.len(),
            out@ == start + bytes@.subrange(0, i as int),
        decreases bytes@.len() - i,
    {
        out.push(bytes[i]);
        assert(bytes@.subrange(0, i + 1) =~= bytes@.subrange(0, i as int).push(bytes@[i as int]));
        i = i + 1;
    }
    assert(bytes@.subrange(0, bytes@.len() as int) =~= bytes@);
}

pub fn read_u16(data: &[u8], pos: usize) -> (x: u16)
    requires
        pos + 2 <= data@.len(),
    ensures
        x == dec_u16(data@.subrange(pos as int, pos + 2)),
{
    let _n = data.len();
    u16_from_le_bytes(vstd::slice::slice_subrange(data, pos, pos + 2))
}

pub fn read_u32(data: &[u8], pos: usize) -> (x: u32)
    requires
        pos + 4 <= data@.len(),
    ensures
        x == dec_u32(data@.subrange(pos as int, pos + 4)),
{
    let _n = data.len();
    u32_from_le_bytes(vstd::slice::slice_subrange(data, pos, pos + 4))
}

pub fn read_u64(data: &[u8], pos: usize) -> (x: u64)
    requires
        pos + 8 <= data@.len(),
    ensures
        x == dec_u64(data@.subrange(pos as int, pos + 8)),
{
    let _n = data.len();
    u64_from_le_bytes(vstd::slice::slice_subrange(data, pos, pos + 8))
}

pub fn read_i64(data: &[u8], pos: usize) -> (x: i64)
    requires
        pos + 8 <= data@.len(),
    ensures
        x == dec_i64(data@.subrange(pos as int, pos + 8)),
{
    let _n = data.len();
    #[verifier::truncate] (u64_from_le_bytes(vstd::slice::slice_subrange(data, pos, pos + 8)) as i64)
}

pub fn read_u128(data: &[u8], pos: usize) -> (x: u128)
    requires
        pos + 16 <= data@.len(),
    ensures
        x == dec_u128(data@.subrange(pos as int, pos + 16)),
{
    let _n = data.len();
    u128_from_le_bytes(vstd::slice::slice_subrange(data, pos, pos + 16))
}

pub fn read_bool(data: &[u8], pos: usize) -> (b: Option<bool>)
    requires
        pos < data@.len(),
    ensures
        b == dec_bool(data@[pos as int]),
{
    let v = data[pos];
    if v == 0 {
        Some(false)
    } else if v == 1 {
        Some(true)
    } else {
        None
    }
}

pub fn read_key(data: &[u8], pos: usize) -> (k: Pubkey)
    requires
        pos + 32 <= data@.len(),
    ensures
        k@ == data@.subrange(pos as int, pos + 32),
        k == seq_to_key(data@.subrange(pos as int, pos + 32)),
{
    let _n = data.len();
    let mut k = [0u8; 32];
    let mut i: usize = 0;
    while i < 32
        invariant
            0 <= i <= 32,
            pos + 32 <= data@.len(),
            data@.len() <= usize::MAX,
            forall|j: int| 0 <= j < i ==> k[j] == data@[pos + j],
        decreases 32 - i,
    {
        k[i] = data[pos + i];
        i = i + 1;
    }
    assert(k@ =~= data@.subrange(pos as int, pos + 32));
    proof { lemma_key_from_bytes(k); }
    k
}

} // verus!

verus! {

/// The bytes of an address as a vector.
pub fn key_bytes(k: &Pubkey) -> (r: Vec<u8>)
    ensures
        r@ == k@,
{
    let mut out: Vec<u8> = Vec::new();
    push_key(&mut out, k);
    assert(out@ =~= k@);
    out
}

/// A copy of a byte slice as a vector.
pub fn bytes_vec(b: &[u8]) -> (r: Vec<u8>)
    ensures
        r@ == b@,
{
    let mut out: Vec<u8> = Vec::new();
    push_bytes(&mut out, b);
    assert(out@ =~= b@);
    out
}

} // verus!

verus! {

/// An array whose first `n` elements are those of `s`, the others `fill`.
pub open spec fn array_with_prefix<T: Copy, const N: usize>(s: Seq<T>, fill: T, n: nat) -> [T; N]
    decreases n,
{
    if n == 0 {
        vstd::array::spec_array_fill_for_copy_type::<T, N>(fill)
    } else {
        vstd::array::spec_array_update(array_with_prefix::<T, N>(s, fill, (n - 1) as nat), n - 1, s[n - 1])
    }
}

/// The array whose elements are the given sequence.
pub open spec fn seq_to_array<T, const N: usize>(s: Seq<T>) -> [T; N] {
    choose|a: [T; N]| a@ == s
}

proof fn lemma_array_with_prefix<T: Copy, const N: usize>(s: Seq<T>, fill: T, n: nat)
    requires
        n <= N,
        s.len() == N,
    ensures
        array_with_prefix::<T, N>(s, fill, n)@.len() == N,
        forall|i: int| 0 <= i < n ==> array_with_prefix::<T, N>(s, fill, n)@[i] == s[i],
    decreases n,
{
    if n > 0 {
        lemma_array_with_prefix::<T, N>(s, fill, (n - 1) as nat);
        let prev = array_with_prefix::<T, N>(s, fill, (n - 1) as nat);
        assert(array_with_prefix::<T, N>(s, fill, n)@ == prev@.update(n - 1, s[n - 1]));
    }
}

/// A sequence of the array's length is the view of `seq_to_array` of it.
pub proof fn lemma_seq_to_array<T: Copy, const N: usize>(s: Seq<T>, fill: T)
    requires
        s.len() == N,
    ensures
        seq_to_array::<T, N>(s)@ == s,
{
    lemma_array_with_prefix::<T, N>(s, fill, N as nat);
    let w = array_with_prefix::<T, N>(s, fill, N as nat);
    assert(w@ =~= s);
}

/// An array is `seq_to_array` of its view.
pub proof fn lemma_array_from_view<T, const N: usize>(a: [T; N])
    ensures
        seq_to_array::<T, N>(a@) == a,
{
    let c = seq_to_array::<T, N>(a@);
    assert(c@ == a@);
    assert(c =~= a);
}

} // verus!

verus! {

/// A string's stored bytes: the length of its UTF-8 form as 32 bits, then
/// that UTF-8 form.
pub open spec fn enc_string(s: Seq<char>) -> Seq<u8> {
    enc_u32(vstd::utf8::encode_utf8(s).len() as u32) + vstd::utf8::encode_utf8(s)
}

/// Whether a string's UTF-8 form is short enough for a 32-bit length.
pub open spec fn string_fits(s: Seq<char>) -> bool {
    vstd::utf8::encode_utf8(s).len() <= u32::MAX
}

/// Reads a string at `pos`: a 32-bit length, then that many bytes, which
/// must be valid UTF-8. Gives the characters and the position after them.
pub open spec fn dec_string_at(b: Seq<u8>, pos: int) -> Option<(Seq<char>, int)> {
    if pos < 0 || pos + 4 > b.len() {
        None
    } else {
        let n = dec_u32(b.subrange(pos, pos + 4));
        if pos + 4 + n > b.len() {
            None
        } else {
            let bytes = b.subrange(pos + 4, pos + 4 + n);
            if vstd::utf8::valid_utf8(bytes) {
                Some((vstd::utf8::decode_utf8(bytes), pos + 4 + n))
            } else {
                None
            }
        }
    }
}

/// A stored string reads back as itself, wherever it stands among other bytes.
pub proof fn lemma_string_roundtrip(prefix: Seq<u8>, s: Seq<char>, rest: Seq<u8>)
    requires
        string_fits(s),
    ensures
        dec_string_at(prefix + enc_string(s) + rest, prefix.len() as int) == Some((s, (prefix.len() + enc_string(s).len()) as int)),
        enc_string(s).len() == 4 + vstd::utf8::encode_utf8(s).len(),
{
    lemma_fixed_width_roundtrips();
    let u = vstd::utf8::encode_utf8(s);
    let p = prefix.len() as int;
    let b = prefix + enc_string(s) + rest;
    assert(b.subrange(p, p + 4) =~= enc_u32(u.len() as u32));
    assert(b.subrange(p + 4, p + 4 + u.len()) =~= u);
    vstd::utf8::encode_utf8_valid_utf8(s);
    vstd::utf8::encode_utf8_decode_utf8(s);
}

/// Three strings stored one after the other, from `pos`: the three and the
/// position after the last.
pub open spec fn dec_strings3_at(b: Seq<u8>, pos: int) -> Option<(Seq<char>, Seq<char>, Seq<char>, int)> {
    match dec_string_at(b, pos) {
        None => None,
        Some((x, p1)) => match dec_string_at(b, p1) {
            None => None,
            Some((y, p2)) => match dec_string_at(b, p2) {
                None => None,
                Some((z, p3)) => Some((x, y, z, p3)),
            },
        },
    }
}

/// Three stored strings read back as themselves.
pub proof fn lemma_strings3_roundtrip(x: Seq<char>, y: Seq<char>, z: Seq<char>, rest: Seq<u8>)
    requires
        string_fits(x),
        string_fits(y),
        string_fits(z),
    ensures
        dec_strings3_at(enc_string(x) + enc_string(y) + enc_string(z) + rest, 0)
            == Some((x, y, z, (enc_string(x) + enc_string(y) + enc_string(z)).len() as int)),
{
    let b = enc_string(x) + enc_string(y) + enc_string(z) + rest;
    lemma_string_roundtrip(Seq::empty(), x, enc_string(y) + enc_string(z) + rest);
    assert(Seq::<u8>::empty() + enc_string(x) + (enc_string(y) + enc_string(z) + rest) =~= b);
    lemma_string_roundtrip(enc_string(x), y, enc_string(z) + rest);
    assert(enc_string(x) + enc_string(y) + (enc_string(z) + rest) =~= b);
    lemma_string_roundtrip(enc_string(x) + enc_string(y), z, rest);
}

/// Bytes that read as a string start with that string's stored bytes.
pub proof fn lemma_string_canonical(b: Seq<u8>, pos: int)
    requires
        dec_string_at(b, pos) is Some,
    ensures
        ({
            let (s, next) = dec_string_at(b, pos).unwrap();
            &&& string_fits(s)
            &&& pos + enc_string(s).len() == next
            &&& b.subrange(pos, next) == enc_string(s)
        }),
{
    lemma_fixed_width_roundtrips();
    let n = dec_u32(b.subrange(pos, pos + 4));
    let bytes = b.subrange(pos + 4, pos + 4 + n);
    vstd::utf8::decode_utf8_encode_utf8(bytes);
    assert(b.subrange(pos, pos + 4 + n) =~= b.subrange(pos, pos + 4) + bytes);
}

/// Calls `String::from_utf8`. Claimed, as its documentation says: it
/// succeeds exactly when the bytes are valid UTF-8, and the string then
/// holds the characters the bytes encode.
#[verifier::external_body]
fn string_from_utf8(bytes: Vec<u8>) -> (r: Option<String>)
    ensures
        r is Some <==> vstd::utf8::valid_utf8(bytes@),
        r matches Some(s) ==> s@ == vstd::utf8::decode_utf8(bytes@),
{
    String::from_utf8(bytes).ok()
}

/// Reads the string stored at `pos`.
pub fn read_string(data: &[u8], pos: usize) -> (r: Option<(String, usize)>)
    ensures
        match r {
            Some((s, next)) => dec_string_at(data@, pos as int) == Some((s@, next as int)),
            None => dec_string_at(data@, pos as int) is None,
        },
{
    let len = data.len();
    if pos > len || len - pos < 4 {
        return None;
    }
    let n = read_u32(data, pos) as usize;
    if n > len - pos - 4 {
        return None;
    }
    let start = pos + 4;
    let mut bytes: Vec<u8> = Vec::new();
    let mut i: usize = 0;
    while i < n
        invariant
            0 <= i <= n,
            start + n <= data@.len(),
            data@.len() == len,
            bytes@ == data@.subrange(start as int, start + i),
        decreases n - i,
    {
        bytes.push(data[start + i]);
        assert(data@.subrange(start as int, start + i + 1) =~= data@.subrange(start as int, start + i).push(data@[start + i]));
        i = i + 1;
    }
    match string_from_utf8(bytes) {
        Some(s) => Some((s, start + n)),
        None => None,
    }
}

/// Appends a string's stored bytes.
pub fn push_string(out: &mut Vec<u8>, s: &String)
    requires
        string_fits(s@),
    ensures
        final(out)@ == old(out)@ + enc_string(s@),
{
    let bytes = s.as_str().as_bytes();
    push_u32(out, bytes.len() as u32);
    push_bytes(out, bytes);
    assert(final(out)@ =~= old(out)@ + enc_string(s@));
}

/// Reads three strings stored one after the other from `pos`.
pub fn read_strings3(data: &[u8], pos: usize) -> (r: Option<(String, String, String, usize)>)
    ensures
        match r {
            Some((x, y, z, next)) => dec_strings3_at(data@, pos as int) == Some((x@, y@, z@, next as int)),
            None => dec_strings3_at(data@, pos as int) is None,
        },
{
    let (x, p1) = match read_string(data, pos) {
        Some(v) => v,
        None => return None,
    };
    let (y, p2) = match read_string(data, p1) {
        Some(v) => v,
        None => return None,
    };
    let (z, p3) = match read_string(data, p2) {
        Some(v) => v,
        None => return None,
    };
    Some((x, y, z, p3))
}

/// Exactly three stored strings and nothing after them.
pub open spec fn dec_strings3_exact(b: Seq<u8>) -> Option<(Seq<char>, Seq<char>, Seq<char>)> {
    match dec_strings3_at(b, 0) {
        Some((x, y, z, p)) => if p == b.len() { Some((x, y, z)) } else { None },
        None => None,
    }
}

/// Strings read from bytes fit a 32-bit length.
pub proof fn lemma_decoded_strings3_fit(b: Seq<u8>, pos: int)
    requires
        dec_strings3_at(b, pos) is Some,
    ensures
        ({
            let (x, y, z, _) = dec_strings3_at(b, pos).unwrap();
            string_fits(x) && string_fits(y) && string_fits(z)
        }),
{
    lemma_string_canonical(b, pos);
    let p1 = dec_string_at(b, pos).unwrap().1;
    lemma_string_canonical(b, p1);
    let p2 = dec_string_at(b, p1).unwrap().1;
    lemma_string_canonical(b, p2);
}

/// Reads exactly three stored strings.
pub fn read_strings3_exact(data: &[u8]) -> (r: Option<(String, String, String)>)
    ensures
        match r {
            Some((x, y, z)) => dec_strings3_exact(data@) == Some((x@, y@, z@)),
            None => dec_strings3_exact(data@) is None,
        },
        r matches Some((x, y, z)) ==> string_fits(x@) && string_fits(y@) && string_fits(z@),
{
    let (x, y, z, p) = match read_strings3(data, 0) {
        Some(v) => v,
        None => return None,
    };
    proof { lemma_decoded_strings3_fit(data@, 0); }
    if p != data.len() {
        return None;
    }
    Some((x, y, z))
}

} // verus!
