//! Account addresses and the rule on authentication key prefixes.

use vstd::prelude::*;

verus! {

/// Number of bytes in an account address.
pub const ADDRESS_LENGTH: usize = 16;

/// Number of bytes in an authentication key.
pub const AUTHENTICATION_KEY_LENGTH: usize = 32;

/// The fixed-width identifier of an account.
#[derive(Clone, Copy, Debug, PartialEq, Eq, Hash, PartialOrd, Ord)]
pub struct AccountAddress {
    bytes: [u8; ADDRESS_LENGTH],
}

impl View for AccountAddress {
    type V = Seq<u8>;

    closed spec fn view(&self) -> Seq<u8> {
        self.bytes@
    }
}

impl AccountAddress {
    /// The address made of the given bytes.
    pub fn new(bytes: [u8; ADDRESS_LENGTH]) -> (address: AccountAddress)
        ensures
            address@ == bytes@,
    {
        AccountAddress { bytes }
    }

    /// The bytes of the address.
    pub fn to_bytes(&self) -> (bytes: [u8; ADDRESS_LENGTH])
        ensures
            bytes@ == self@,
    {
        self.bytes
    }

    /// Whether two addresses hold the same bytes.
    pub fn same_as(&self, other: &AccountAddress) -> (same: bool)
        ensures
            same == (self@ == other@),
    {
        let mut i: usize = 0;
        while i < ADDRESS_LENGTH
            invariant
                i <= ADDRESS_LENGTH,
                forall|k: int| 0 <= k < i ==> self.bytes@[k] == other.bytes@[k],
            decreases ADDRESS_LENGTH - i,
        {
            if self.bytes[i] != other.bytes[i] {
                return false;
            }
            i += 1;
        }
        assert(self.bytes@ =~= other.bytes@);
        true
    }
}

/// Whether `prefix` can stand in front of an address to make an authentication key: it is
/// empty, or it fills exactly the bytes of the key that the address leaves open.
pub open spec fn valid_auth_key_prefix(prefix: Seq<u8>) -> bool {
    prefix.len() == 0 || prefix.len() == AUTHENTICATION_KEY_LENGTH - ADDRESS_LENGTH
}

/// Tells whether `auth_key_prefix` has one of the two accepted lengths.
pub fn is_valid_auth_key_prefix(auth_key_prefix: &[u8]) -> (valid: bool)
    ensures
        valid == valid_auth_key_prefix(auth_key_prefix@),
{
    let auth_key_prefix_length = auth_key_prefix.len();
    auth_key_prefix_length == 0 || auth_key_prefix_length == AUTHENTICATION_KEY_LENGTH
        - ADDRESS_LENGTH
}

/// Accepts exactly the prefixes of length 0 or `AUTHENTICATION_KEY_LENGTH - ADDRESS_LENGTH`.
/// Any other prefix is a defect of the caller and is ruled out before the call.
pub fn validate_auth_key_prefix(auth_key_prefix: &[u8])
    requires
        valid_auth_key_prefix(auth_key_prefix@),
{
}

/// Every address is `ADDRESS_LENGTH` bytes long.
pub proof fn lemma_address_length(address: AccountAddress)
    ensures
        address@.len() == ADDRESS_LENGTH,
{
}

} // verus!
