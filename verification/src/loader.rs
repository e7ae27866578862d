//! The loader's record of the program, which names who may upgrade it.
use crate::errors::DuelError;
use crate::pubkey::Pubkey;
use vstd::prelude::*;

verus! {

/// The bytes of the upgradeable loader's address,
/// `BPFLoaderUpgradeab1e11111111111111111111111`.
pub open spec fn loader_bytes() -> [u8; 32] {
    [
        2, 168, 246, 145, 78, 136, 161, 176, 226, 16, 21, 62, 247, 99, 174, 43,
        0, 194, 185, 61, 22, 193, 36, 210, 192, 83, 122, 16, 4, 128, 0, 0,
    ]
}

/// Reads `bpf_loader_upgradeable::ID` of solana-program. Trusted: the
/// constant's bytes.
#[verifier::external_body]
pub(crate) fn loader_id() -> (r: Pubkey)
    ensures
        r.bytes == loader_bytes(),
{
    Pubkey { bytes: anchor_lang::solana_program::bpf_loader_upgradeable::ID.to_bytes() }
}

/// The seeds of the loader's record of this program: the program's address.
pub open spec fn program_data_seeds() -> Seq<Seq<u8>> {
    seq![crate::address::program_id_bytes()@]
}

/// The seeds of the loader's record of this program.
pub fn make_program_data_seeds() -> (r: Vec<Vec<u8>>)
    ensures
        crate::address::seed_bytes(r@) == program_data_seeds(),
{
    let mut r: Vec<Vec<u8>> = Vec::new();
    r.push(crate::address::key_bytes(&crate::address::program_id()));
    assert(crate::address::seed_bytes(r@) =~= program_data_seeds());
    r
}

/// What the data of a loader's record says: nothing when it is not the record
/// of a program, otherwise the upgrade authority, if there is one.
pub uninterp spec fn upgrade_authority(data: Seq<u8>) -> Option<Option<Seq<u8>>>;

/// Calls `ProgramData::try_deserialize` of anchor-lang. Trusted: the outcome
/// depends on the data alone.
#[verifier::external_body]
fn parse_program_data(data: &[u8]) -> (r: Option<Option<Pubkey>>)
    ensures
        match r {
            None => upgrade_authority(data@) is None,
            Some(None) => upgrade_authority(data@) == Some(None::<Seq<u8>>),
            Some(Some(key)) => upgrade_authority(data@) == Some(Some(key@)),
        },
{
    let mut bytes: &[u8] = data;
    let parsed: anchor_lang::Result<anchor_lang::prelude::ProgramData> =
        anchor_lang::AccountDeserialize::try_deserialize(&mut bytes);
    match parsed {
        Ok(record) => Some(
            record.upgrade_authority_address.map(|key| Pubkey { bytes: key.to_bytes() }),
        ),
        Err(_) => None,
    }
}

/// Whether `admin` is the upgrade authority in the loader's record of the program.
pub open spec fn is_upgrade_authority(owner: Pubkey, data: Seq<u8>, admin: Pubkey) -> bool {
    owner.bytes == loader_bytes() && upgrade_authority(data) == Some(Some(admin@))
}

/// Holds a key against the upgrade authority that a record was read to name.
pub fn match_authority(parsed: Option<Option<Pubkey>>, admin: &Pubkey) -> (r: Result<(), DuelError>)
    ensures
        r is Ok <==> parsed == Some(Some(*admin)),
        r is Err ==> r == Err::<(), DuelError>(DuelError::Unauthorized),
{
    match parsed {
        Some(Some(authority)) => if authority == *admin {
            Ok(())
        } else {
            Err(DuelError::Unauthorized)
        },
        _ => Err(DuelError::Unauthorized),
    }
}

/// Checks that a record belongs to the loader.
pub fn check_loader_owned(owner: &Pubkey) -> (r: Result<(), DuelError>)
    ensures
        r is Ok <==> owner.bytes == loader_bytes(),
        r is Err ==> r == Err::<(), DuelError>(DuelError::Unauthorized),
{
    if *owner != loader_id() {
        return Err(DuelError::Unauthorized);
    }
    Ok(())
}

/// Checks that a record belongs to the loader and names `admin` as the upgrade
/// authority.
pub fn check_upgrade_authority(owner: &Pubkey, data: &[u8], admin: &Pubkey) -> (r: Result<
    (),
    DuelError,
>)
    ensures
        r is Ok <==> is_upgrade_authority(*owner, data@, *admin),
        r is Err ==> r == Err::<(), DuelError>(DuelError::Unauthorized),
{
    check_loader_owned(owner)?;
    let parsed = parse_program_data(data);
    proof {
        if let Some(Some(authority)) = parsed {
            if authority@ == admin@ {
                crate::pubkey::lemma_key_of_bytes(authority, *admin);
            }
        }
    }
    match_authority(parsed, admin)
}

} // verus!
