//! The accounts of the randomness service, and what the game reads in them.
use crate::errors::DuelError;
use crate::pubkey::Pubkey;
use vstd::prelude::*;

verus! {

/// The bytes of the randomness program's address,
/// `VRFzZoJdhFWL8rkvu87LpKM3RbcVezpMEc6X5GVDr7y`.
pub open spec fn vrf_program_bytes() -> [u8; 32] {
    [
        7, 71, 177, 26, 250, 145, 180, 209, 249, 34, 242, 123, 14, 186, 193, 218,
        178, 59, 33, 41, 164, 190, 243, 79, 50, 164, 123, 88, 245, 206, 252, 120,
    ]
}

/// The bytes of `orao-vrf-network-configuration`.
pub open spec fn config_tag() -> Seq<u8> {
    seq![
        0x6f, 0x72, 0x61, 0x6f, 0x2d, 0x76, 0x72, 0x66, 0x2d, 0x6e, 0x65, 0x74, 0x77, 0x6f, 0x72,
        0x6b, 0x2d, 0x63, 0x6f, 0x6e, 0x66, 0x69, 0x67, 0x75, 0x72, 0x61, 0x74, 0x69, 0x6f, 0x6e,
    ]
}

/// The bytes of `orao-vrf-randomness-request`.
pub open spec fn randomness_tag() -> Seq<u8> {
    seq![
        0x6f, 0x72, 0x61, 0x6f, 0x2d, 0x76, 0x72, 0x66, 0x2d, 0x72, 0x61, 0x6e, 0x64, 0x6f,
        0x6d, 0x6e, 0x65, 0x73, 0x73, 0x2d, 0x72, 0x65, 0x71, 0x75, 0x65, 0x73, 0x74,
    ]
}

/// The seeds of the service's configuration.
pub open spec fn config_seeds() -> Seq<Seq<u8>> {
    seq![config_tag()]
}

/// The seeds of the account of a randomness request.
pub open spec fn randomness_seeds(force: [u8; 32]) -> Seq<Seq<u8>> {
    seq![randomness_tag(), force@]
}

/// Reads `orao_solana_vrf::ID`. Trusted: the constant's bytes.
#[verifier::external_body]
pub(crate) fn vrf_program_id() -> (r: Pubkey)
    ensures
        r.bytes == vrf_program_bytes(),
{
    Pubkey { bytes: orao_solana_vrf::ID.to_bytes() }
}

/// Reads `orao_solana_vrf::CONFIG_ACCOUNT_SEED`. Trusted: the constant's bytes.
#[verifier::external_body]
fn config_account_seed() -> (r: Vec<u8>)
    ensures
        r@ == config_tag(),
{
    orao_solana_vrf::CONFIG_ACCOUNT_SEED.to_vec()
}

/// Reads `orao_solana_vrf::RANDOMNESS_ACCOUNT_SEED`. Trusted: the constant's
/// bytes.
#[verifier::external_body]
fn randomness_account_seed() -> (r: Vec<u8>)
    ensures
        r@ == randomness_tag(),
{
    orao_solana_vrf::RANDOMNESS_ACCOUNT_SEED.to_vec()
}

/// The seeds of the service's configuration.
pub fn make_config_seeds() -> (r: Vec<Vec<u8>>)
    ensures
        crate::address::seed_bytes(r@) == config_seeds(),
{
    let mut r: Vec<Vec<u8>> = Vec::new();
    r.push(config_account_seed());
    assert(crate::address::seed_bytes(r@) =~= config_seeds());
    r
}

/// The seeds of the account of a randomness request.
pub fn make_randomness_seeds(force: &[u8; 32]) -> (r: Vec<Vec<u8>>)
    ensures
        crate::address::seed_bytes(r@) == randomness_seeds(*force),
{
    let key: Pubkey = Pubkey { bytes: *force };
    let mut r: Vec<Vec<u8>> = Vec::new();
    r.push(randomness_account_seed());
    r.push(crate::address::key_bytes(&key));
    assert(crate::address::seed_bytes(r@) =~= randomness_seeds(*force));
    r
}

/// What the data of a randomness account says: nothing when it is not such an
/// account, otherwise the random bytes, once they are there.
pub uninterp spec fn randomness_account(data: Seq<u8>) -> Option<Option<Seq<u8>>>;

/// Calls `RandomnessAccountData::try_deserialize` of orao-solana-vrf, then
/// `fulfilled_randomness` on what it read. Trusted: the outcome depends on the
/// data alone, and data shorter than the eight bytes of a discriminator is no
/// randomness account.
#[verifier::external_body]
fn parse_randomness_account(data: &[u8]) -> (r: Option<Option<[u8; 64]>>)
    ensures
        match r {
            None => randomness_account(data@) is None,
            Some(None) => randomness_account(data@) == Some(None::<Seq<u8>>),
            Some(Some(bytes)) => randomness_account(data@) == Some(Some(bytes@)),
        },
        data@.len() < 8 ==> r is None,
{
    let mut bytes: &[u8] = data;
    let parsed: anchor_lang::Result<orao_solana_vrf::state::RandomnessAccountData> =
        anchor_lang::AccountDeserialize::try_deserialize(&mut bytes);
    match parsed {
        Ok(account) => Some(account.fulfilled_randomness().copied()),
        Err(_) => None,
    }
}

/// The random bytes that an account's data holds, if they are there. An empty
/// account holds none.
pub open spec fn fulfilled(data: Seq<u8>) -> Option<Seq<u8>> {
    if data.len() == 0 {
        None
    } else {
        match randomness_account(data) {
            Some(Some(bytes)) => Some(bytes),
            _ => None,
        }
    }
}

/// Takes the random bytes out of what an account was read as.
pub fn require_fulfilled(parsed: Option<Option<[u8; 64]>>) -> (r: Result<[u8; 64], DuelError>)
    ensures
        match parsed {
            Some(Some(bytes)) => r == Ok::<[u8; 64], DuelError>(bytes),
            _ => r == Err::<[u8; 64], DuelError>(DuelError::RandomnessNotReady),
        },
{
    match parsed {
        Some(Some(bytes)) => Ok(bytes),
        _ => Err(DuelError::RandomnessNotReady),
    }
}

/// The 64 fulfilled random bytes of an account; an error while there are none.
pub fn read_fulfilled_randomness(data: &[u8]) -> (r: Result<[u8; 64], DuelError>)
    ensures
        match r {
            Ok(bytes) => fulfilled(data@) == Some(bytes@),
            Err(e) => fulfilled(data@) is None && e == DuelError::RandomnessNotReady,
        },
{
    require_fulfilled(parse_randomness_account(data))
}

/// Tells whether what an account was read as holds the random bytes.
pub fn has_randomness(parsed: Option<Option<[u8; 64]>>) -> (r: bool)
    ensures
        r == (parsed matches Some(Some(_))),
{
    match parsed {
        Some(fulfilled) => fulfilled.is_some(),
        None => false,
    }
}

/// Tells whether an account exists and holds its random bytes. One that is
/// empty, unreadable or pending does not.
pub fn is_randomness_fulfilled(data: &[u8]) -> (r: bool)
    ensures
        r == (fulfilled(data@) is Some),
{
    if data.len() == 0 {
        return false;
    }
    has_randomness(parse_randomness_account(data))
}

} // verus!
