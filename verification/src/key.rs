//! Public keys: 32-byte identities for accounts, owners and authorities.

use vstd::prelude::*;

verus! {

/// A 32-byte public key, the identity of every record and authority.
pub type Pubkey = [u8; 32];

/// The well-known sentinel key of the native-currency mint: a balance account
/// whose asset-class reference equals this key wraps the host's native
/// currency instead of an independent asset class.
pub const NATIVE_MINT: Pubkey = [
    6, 155, 136, 87, 254, 171, 129, 132, 251, 104, 127, 99, 70, 24, 192, 53, 218, 196, 57, 220,
    26, 235, 59, 85, 152, 160, 240, 0, 0, 0, 0, 1,
];

/// The well-known key under which the host publishes its rent parameters;
/// initializer instructions name it so the host can check rent exemption.
pub const RENT_SYSVAR: Pubkey = [
    6, 167, 213, 23, 25, 44, 92, 81, 33, 140, 201, 76, 61, 74, 241, 127, 88, 218, 238, 8, 155,
    161, 253, 68, 227, 219, 217, 138, 0, 0, 0, 0,
];

/// Byte-for-byte key equality.
pub fn key_eq(a: &Pubkey, b: &Pubkey) -> (r: bool)
    ensures
        r == (a@ == b@),
{
    let mut i: usize = 0;
    while i < 32
        invariant
            0 <= i <= 32,
            forall|j: int| 0 <= j < i ==> a@[j] == b@[j],
        decreases 32 - i,
    {
        if a[i] != b[i] {
            assert(a@ != b@);
            return false;
        }
        i = i + 1;
    }
    assert(a@ =~= b@);
    true
}

} // verus!
