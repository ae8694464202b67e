use vstd::prelude::*;

verus! {

/// Version byte that starts every account address.
pub const ADDRESS_VERSION: u8 = 1;

/// Network byte of the main network.
pub const MAINNET_BYTE: u8 = 86;

/// Network byte of the test network.
pub const TESTNET_BYTE: u8 = 84;

/// Length in bytes of an account address.
pub const ACCOUNT_ADDRESS_LEN: usize = 26;

/// Length in bytes of a program (contract) address.
pub const PROGRAM_ADDRESS_LEN: usize = 32;

/// An account address: 26 bytes, version byte 1, then the main or test
/// network byte.
pub open spec fn is_account_address(a: Seq<u8>) -> bool {
    &&& a.len() == 26
    &&& a[0] == ADDRESS_VERSION
    &&& (a[1] == MAINNET_BYTE || a[1] == TESTNET_BYTE)
}

/// A program address: a 32-byte content hash.
pub open spec fn is_program_address(a: Seq<u8>) -> bool {
    a.len() == 32
}

/// Checks the raw bytes of an account address.
pub fn validate_address(address: &[u8]) -> (r: bool)
    ensures
        r == is_account_address(address@),
{
    address.len() == ACCOUNT_ADDRESS_LEN && address[0] == ADDRESS_VERSION && (address[1]
        == MAINNET_BYTE || address[1] == TESTNET_BYTE)
}

/// Checks the raw bytes of a program address.
pub fn validate_contract(contract: &[u8]) -> (r: bool)
    ensures
        r == is_program_address(contract@),
{
    contract.len() == PROGRAM_ADDRESS_LEN
}

/// Byte-wise equality of two byte strings.
pub fn bytes_equal(a: &[u8], b: &[u8]) -> (r: bool)
    ensures
        r == (a@ == b@),
{
    if a.len() != b.len() {
        return false;
    }
    let mut i: usize = 0;
    while i < a.len()
        invariant
            a.len() == b.len(),
            i <= a.len(),
            forall|j: int| 0 <= j < i ==> a@[j] == b@[j],
        decreases a.len() - i,
    {
        if a[i] != b[i] {
            return false;
        }
        i = i + 1;
    }
    assert(a@ =~= b@);
    true
}

} // verus!
