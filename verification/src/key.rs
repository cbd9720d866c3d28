//! Account addresses as plain 32-byte values.

use vstd::prelude::*;

verus! {

/// A 32-byte account address.
pub type Pubkey = [u8; 32];

/// The system program, `11111111111111111111111111111111`.
pub const SYSTEM_PROGRAM_ID: Pubkey = [
    0, 0, 0, 0, 0, 0, 0, 0, 0, 0, 0, 0, 0, 0, 0, 0,
    0, 0, 0, 0, 0, 0, 0, 0, 0, 0, 0, 0, 0, 0, 0, 0,
];

/// The SPL token program, `TokenkegQfeZyiNwAJbNbGKPFXCWuBvf9Ss623VQ5DA`.
pub const SPL_TOKEN_PROGRAM_ID: Pubkey = [
    6, 221, 246, 225, 215, 101, 161, 147, 217, 203, 225, 70, 206, 235, 121, 172,
    28, 180, 133, 237, 95, 91, 55, 145, 58, 140, 245, 133, 126, 255, 0, 169,
];

/// The associated token account program, `ATokenGPvbdGVxr1b2hvZbsiqW5xWH25efTNsLJA8knL`.
pub const ASSOCIATED_TOKEN_PROGRAM_ID: Pubkey = [
    140, 151, 37, 143, 78, 36, 137, 241, 187, 61, 16, 41, 20, 142, 13, 131,
    11, 90, 19, 153, 218, 255, 16, 132, 4, 142, 123, 216, 219, 233, 248, 89,
];

/// The rent sysvar, `SysvarRent111111111111111111111111111111111`.
pub const RENT_SYSVAR_ID: Pubkey = [
    6, 167, 213, 23, 25, 44, 92, 81, 33, 140, 201, 76, 61, 74, 241, 127,
    88, 218, 238, 8, 155, 161, 253, 68, 227, 219, 217, 138, 0, 0, 0, 0,
];

/// The clock sysvar, `SysvarC1ock11111111111111111111111111111111`.
pub const CLOCK_SYSVAR_ID: Pubkey = [
    6, 167, 213, 23, 24, 199, 116, 201, 40, 86, 99, 152, 105, 29, 94, 182,
    139, 94, 184, 163, 155, 75, 109, 92, 115, 85, 91, 33, 0, 0, 0, 0,
];

/// The token metadata program, `metaqbxxUerdq28cj1RbAWkYQm3ybzjb6a8bt518x1s`.
pub const TOKEN_METADATA_PROGRAM_ID: Pubkey = [
    11, 112, 101, 177, 227, 209, 124, 69, 56, 157, 82, 127, 107, 4, 195, 205,
    88, 184, 108, 115, 26, 160, 253, 181, 73, 182, 209, 188, 3, 248, 41, 70,
];

/// The array whose view is the given 32 bytes.
pub open spec fn seq_to_key(s: Seq<u8>) -> Pubkey {
    choose|k: Pubkey| k@ == s
}

/// The address whose first `n` bytes are those of `s` and whose other
/// bytes are zero.
pub open spec fn key_with_prefix(s: Seq<u8>, n: nat) -> Pubkey
    decreases n,
{
    if n == 0 {
        vstd::array::spec_array_fill_for_copy_type::<u8, 32>(0u8)
    } else {
        vstd::array::spec_array_update(key_with_prefix(s, (n - 1) as nat), n - 1, s[n - 1])
    }
}

proof fn lemma_key_with_prefix(s: Seq<u8>, n: nat)
    requires
        n <= 32,
        s.len() == 32,
    ensures
        forall|i: int| 0 <= i < n ==> key_with_prefix(s, n)@[i] == s[i],
    decreases n,
{
    if n > 0 {
        lemma_key_with_prefix(s, (n - 1) as nat);
        let prev = key_with_prefix(s, (n - 1) as nat);
        assert(key_with_prefix(s, n)@ == prev@.update(n - 1, s[n - 1]));
    }
}

/// Any 32 bytes are the bytes of the address `seq_to_key` builds from them.
pub proof fn lemma_seq_to_key(s: Seq<u8>)
    requires
        s.len() == 32,
    ensures
        seq_to_key(s)@ == s,
{
    lemma_key_with_prefix(s, 32);
    let w = key_with_prefix(s, 32);
    assert(w@ =~= s);
}

/// An address whose bytes are all zero.
pub open spec fn is_zero_key(k: Pubkey) -> bool {
    forall|i: int| 0 <= i < 32 ==> #[trigger] k[i] == 0
}

/// Builds the all-zero address.
pub fn default_pubkey() -> (k: Pubkey)
    ensures
        is_zero_key(k),
{
    [0u8; 32]
}

/// Compares two addresses byte by byte.
pub fn key_eq(a: &Pubkey, b: &Pubkey) -> (r: bool)
    ensures
        r == (*a == *b),
        r == (a@ == b@),
{
    let mut i: usize = 0;
    while i < 32
        invariant
            0 <= i <= 32,
            forall|j: int| 0 <= j < i ==> a[j] == b[j],
        decreases 32 - i,
    {
        if a[i] != b[i] {
            assert(a@[i as int] != b@[i as int]);
            return false;
        }
        i = i + 1;
    }
    assert(*a =~= *b);
    true
}

/// Tells whether every byte of the address is zero.
pub fn key_is_zero(a: &Pubkey) -> (r: bool)
    ensures
        r == is_zero_key(*a),
{
    let mut i: usize = 0;
    while i < 32
        invariant
            0 <= i <= 32,
            forall|j: int| 0 <= j < i ==> a[j] == 0,
        decreases 32 - i,
    {
        if a[i] != 0 {
            return false;
        }
        i = i + 1;
    }
    true
}

/// Two all-zero addresses are the same address.
pub proof fn lemma_zero_keys_equal(a: Pubkey, b: Pubkey)
    requires
        is_zero_key(a),
        is_zero_key(b),
    ensures
        a == b,
{
    assert(a =~= b);
}

} // verus!
