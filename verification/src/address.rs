//! The addresses that the program derives: seeds, bumps, and the checks that
//! an account stands where its seeds say.
use crate::errors::InstructionError;
use crate::lamports::VaultSigner;
use crate::pubkey::Pubkey;
use vstd::prelude::*;

verus! {

/// The bytes of the program's own address,
/// `8NkYNEeX6eUiNrK89cHfNmZoigaUCdi5NLGKgRFJ77oZ`.
pub open spec fn program_id_bytes() -> [u8; 32] {
    [
        109, 148, 60, 185, 190, 32, 244, 59, 184, 151, 242, 20, 26, 144, 247, 162,
        163, 30, 34, 235, 174, 206, 109, 7, 209, 63, 172, 200, 147, 114, 126, 164,
    ]
}

/// The program's own address.
pub fn program_id() -> (r: Pubkey)
    ensures
        r.bytes == program_id_bytes(),
{
    let bytes: [u8; 32] = [
        109, 148, 60, 185, 190, 32, 244, 59, 184, 151, 242, 20, 26, 144, 247, 162,
        163, 30, 34, 235, 174, 206, 109, 7, 209, 63, 172, 200, 147, 114, 126, 164,
    ];
    assert(bytes =~= program_id_bytes());
    Pubkey { bytes }
}

/// The first `n` bytes of a number, the least significant first.
pub open spec fn le_bytes(x: nat, n: nat) -> Seq<u8>
    decreases n,
{
    if n == 0 {
        Seq::empty()
    } else {
        seq![(x % 256) as u8] + le_bytes(x / 256, (n - 1) as nat)
    }
}

/// A number as eight bytes, the least significant first.
pub fn u64_le_bytes(x: u64) -> (r: Vec<u8>)
    ensures
        r@ == le_bytes(x as nat, 8),
{
    let mut r: Vec<u8> = Vec::new();
    let mut rest: u64 = x;
    let mut n: usize = 0;
    while n < 8
        invariant
            n <= 8,
            le_bytes(x as nat, 8) == r@ + le_bytes(rest as nat, (8 - n) as nat),
        decreases 8 - n,
    {
        let ghost before = r@;
        let b: u8 = (rest % 256) as u8;
        r.push(b);
        proof {
            assert(before + (seq![b] + le_bytes((rest / 256) as nat, (7 - n) as nat)) =~= r@ + le_bytes(
                (rest / 256) as nat,
                (7 - n) as nat,
            ));
        }
        rest = rest / 256;
        n += 1;
    }
    assert(r@ =~= le_bytes(x as nat, 8));
    r
}

/// The bytes of `treasury`.
pub open spec fn treasury_tag() -> Seq<u8> {
    seq![0x74, 0x72, 0x65, 0x61, 0x73, 0x75, 0x72, 0x79]
}

/// The bytes of `duel`.
pub open spec fn duel_tag() -> Seq<u8> {
    seq![0x64, 0x75, 0x65, 0x6c]
}

/// The bytes of `vault`.
pub open spec fn vault_tag() -> Seq<u8> {
    seq![0x76, 0x61, 0x75, 0x6c, 0x74]
}

/// The seeds of the treasury.
pub open spec fn treasury_seeds() -> Seq<Seq<u8>> {
    seq![treasury_tag()]
}

/// The seeds of a duel's record.
pub open spec fn duel_seeds(game_id: u64, creator: Pubkey) -> Seq<Seq<u8>> {
    seq![duel_tag(), le_bytes(game_id as nat, 8), creator@]
}

/// The seeds of a duel's vault.
pub open spec fn vault_seeds(game_id: u64, creator: Pubkey) -> Seq<Seq<u8>> {
    seq![vault_tag(), le_bytes(game_id as nat, 8), creator@]
}

/// What a list of seeds holds.
pub open spec fn seed_bytes(seeds: Seq<Vec<u8>>) -> Seq<Seq<u8>> {
    seeds.map_values(|s: Vec<u8>| s@)
}

/// Copies the bytes of a key.
pub fn key_bytes(key: &Pubkey) -> (r: Vec<u8>)
    ensures
        r@ == key@,
{
    let mut r: Vec<u8> = Vec::new();
    let mut i: usize = 0;
    while i < 32
        invariant
            i <= 32,
            r@ == key@.take(i as int),
        decreases 32 - i,
    {
        r.push(key.bytes[i]);
        i += 1;
    }
    assert(r@ =~= key@);
    r
}

/// The seeds of the treasury.
pub fn make_treasury_seeds() -> (r: Vec<Vec<u8>>)
    ensures
        seed_bytes(r@) == treasury_seeds(),
{
    let tag: Vec<u8> = vec![0x74, 0x72, 0x65, 0x61, 0x73, 0x75, 0x72, 0x79];
    assert(tag@ =~= treasury_tag());
    let mut r: Vec<Vec<u8>> = Vec::new();
    r.push(tag);
    assert(seed_bytes(r@) =~= treasury_seeds());
    r
}

/// The seeds of a duel's record.
pub fn make_duel_seeds(game_id: u64, creator: &Pubkey) -> (r: Vec<Vec<u8>>)
    ensures
        seed_bytes(r@) == duel_seeds(game_id, *creator),
{
    let tag: Vec<u8> = vec![0x64, 0x75, 0x65, 0x6c];
    assert(tag@ =~= duel_tag());
    let mut r: Vec<Vec<u8>> = Vec::new();
    r.push(tag);
    r.push(u64_le_bytes(game_id));
    r.push(key_bytes(creator));
    assert(seed_bytes(r@) =~= duel_seeds(game_id, *creator));
    r
}

/// The seeds of a duel's vault.
pub fn make_vault_seeds(game_id: u64, creator: &Pubkey) -> (r: Vec<Vec<u8>>)
    ensures
        seed_bytes(r@) == vault_seeds(game_id, *creator),
{
    let tag: Vec<u8> = vec![0x76, 0x61, 0x75, 0x6c, 0x74];
    assert(tag@ =~= vault_tag());
    let mut r: Vec<Vec<u8>> = Vec::new();
    r.push(tag);
    r.push(u64_le_bytes(game_id));
    r.push(key_bytes(creator));
    assert(seed_bytes(r@) =~= vault_seeds(game_id, *creator));
    r
}

/// Appends a bump to a list of seeds.
pub fn push_bump(seeds: &mut Vec<Vec<u8>>, bump: u8)
    ensures
        seed_bytes(final(seeds)@) == seed_bytes(old(seeds)@).push(seq![bump]),
{
    let b: Vec<u8> = vec![bump];
    assert(b@ =~= seq![bump]);
    seeds.push(b);
    assert(seed_bytes(seeds@) =~= seed_bytes(old(seeds)@).push(seq![bump]));
}

impl VaultSigner {
    /// The seeds that the vault signs with.
    pub open spec fn seeds(self) -> Seq<Seq<u8>> {
        vault_seeds(self.game_id, self.creator).push(seq![self.bump])
    }

    /// The seeds that the vault signs with: those of its address, and the bump.
    pub fn make_seeds(&self) -> (r: Vec<Vec<u8>>)
        ensures
            seed_bytes(r@) == self.seeds(),
    {
        let mut r: Vec<Vec<u8>> = make_vault_seeds(self.game_id, &self.creator);
        push_bump(&mut r, self.bump);
        r
    }
}

/// The address that a program's seeds give, if they give one.
pub uninterp spec fn derived_address(seeds: Seq<Seq<u8>>, program: Seq<u8>) -> Option<Seq<u8>>;

/// The address that a program's seeds give together with a bump.
pub open spec fn address_at(seeds: Seq<Seq<u8>>, bump: u8, program: Seq<u8>) -> Option<Seq<u8>> {
    derived_address(seeds.push(seq![bump]), program)
}

/// The largest bump from 1 to `top` with which the seeds give an address.
pub open spec fn largest_bump(seeds: Seq<Seq<u8>>, program: Seq<u8>, top: u8) -> Option<u8>
    decreases top,
{
    if top == 0 {
        None
    } else if address_at(seeds, top, program) is Some {
        Some(top)
    } else {
        largest_bump(seeds, program, (top - 1) as u8)
    }
}

/// The canonical bump: the largest one with which the seeds give an address.
pub open spec fn canonical_bump(seeds: Seq<Seq<u8>>, program: Seq<u8>) -> Option<u8> {
    largest_bump(seeds, program, 255)
}

/// Calls `Pubkey::create_program_address` of solana-program. Trusted: the
/// address depends on the seeds and the program alone.
#[verifier::external_body]
fn create_program_address(seeds: &Vec<Vec<u8>>, program: &Pubkey) -> (r: Option<Pubkey>)
    ensures
        match r {
            Some(key) => derived_address(seed_bytes(seeds@), program@) == Some(key@),
            None => derived_address(seed_bytes(seeds@), program@) is None,
        },
{
    let refs: Vec<&[u8]> = seeds.iter().map(|s| s.as_slice()).collect();
    let program = anchor_lang::prelude::Pubkey::new_from_array(program.bytes);
    match anchor_lang::prelude::Pubkey::create_program_address(&refs, &program) {
        Ok(key) => Some(Pubkey { bytes: key.to_bytes() }),
        Err(_) => None,
    }
}

/// Calls `Pubkey::try_find_program_address` of solana-program. Trusted: it
/// tries the bumps from 255 down to 1, each appended to the seeds, and returns
/// the first address that comes out, with its bump.
#[verifier::external_body]
fn try_find_program_address(seeds: &Vec<Vec<u8>>, program: &Pubkey) -> (r: Option<(Pubkey, u8)>)
    ensures
        match r {
            Some((key, bump)) => {
                &&& canonical_bump(seed_bytes(seeds@), program@) == Some(bump)
                &&& address_at(seed_bytes(seeds@), bump, program@) == Some(key@)
            },
            None => canonical_bump(seed_bytes(seeds@), program@) is None,
        },
{
    let refs: Vec<&[u8]> = seeds.iter().map(|s| s.as_slice()).collect();
    let program = anchor_lang::prelude::Pubkey::new_from_array(program.bytes);
    match anchor_lang::prelude::Pubkey::try_find_program_address(&refs, &program) {
        Some((key, bump)) => Some((Pubkey { bytes: key.to_bytes() }, bump)),
        None => None,
    }
}

/// What is wrong with an account that should stand at the address of its seeds
/// and a stored bump.
pub open spec fn stored_bump_error(
    key: Pubkey,
    seeds: Seq<Seq<u8>>,
    bump: u8,
    program: Seq<u8>,
) -> Option<InstructionError> {
    if address_at(seeds, bump, program) == Some(key@) {
        None
    } else {
        Some(InstructionError::ConstraintSeeds)
    }
}

/// What is wrong with an account that should stand at the address of its seeds
/// and their canonical bump.
pub open spec fn canonical_error(
    key: Pubkey,
    seeds: Seq<Seq<u8>>,
    program: Seq<u8>,
) -> Option<InstructionError> {
    match canonical_bump(seeds, program) {
        None => Some(InstructionError::NoViableBump),
        Some(bump) => stored_bump_error(key, seeds, bump, program),
    }
}

/// Holds an account's key against the address that its seeds gave.
pub fn match_derived(key: &Pubkey, derived: Option<Pubkey>) -> (r: Result<(), InstructionError>)
    ensures
        r is Ok <==> derived == Some(*key),
        r is Err ==> r == Err::<(), InstructionError>(InstructionError::ConstraintSeeds),
{
    match derived {
        Some(address) => if *key == address {
            Ok(())
        } else {
            Err(InstructionError::ConstraintSeeds)
        },
        None => Err(InstructionError::ConstraintSeeds),
    }
}

/// Holds an account's key against the address that a search for the bump gave,
/// and returns the bump.
pub fn match_found(key: &Pubkey, found: Option<(Pubkey, u8)>) -> (r: Result<u8, InstructionError>)
    ensures
        found is None ==> r == Err::<u8, InstructionError>(InstructionError::NoViableBump),
        found matches Some((address, bump)) ==> r == if address == *key {
            Ok::<u8, InstructionError>(bump)
        } else {
            Err(InstructionError::ConstraintSeeds)
        },
{
    match found {
        Some((address, bump)) => if *key == address {
            Ok(bump)
        } else {
            Err(InstructionError::ConstraintSeeds)
        },
        None => Err(InstructionError::NoViableBump),
    }
}

/// Checks that an account stands at the address of its seeds and a stored bump.
pub fn check_stored_bump(
    key: &Pubkey,
    seeds: Vec<Vec<u8>>,
    bump: u8,
    program: &Pubkey,
) -> (r: Result<(), InstructionError>)
    ensures
        r is Ok <==> stored_bump_error(*key, seed_bytes(seeds@), bump, program@) is None,
        r matches Err(e) ==> stored_bump_error(*key, seed_bytes(seeds@), bump, program@) == Some(e),
{
    let mut all: Vec<Vec<u8>> = seeds;
    push_bump(&mut all, bump);
    let derived = create_program_address(&all, program);
    proof {
        if let Some(address) = derived {
            if address@ == key@ {
                crate::pubkey::lemma_key_of_bytes(address, *key);
            }
        }
    }
    match_derived(key, derived)
}

/// Checks that an account stands at the address of its seeds and their
/// canonical bump, and returns the bump.
pub fn check_canonical(key: &Pubkey, seeds: Vec<Vec<u8>>, program: &Pubkey) -> (r: Result<
    u8,
    InstructionError,
>)
    ensures
        match r {
            Ok(bump) => {
                &&& canonical_error(*key, seed_bytes(seeds@), program@) is None
                &&& canonical_bump(seed_bytes(seeds@), program@) == Some(bump)
            },
            Err(e) => canonical_error(*key, seed_bytes(seeds@), program@) == Some(e),
        },
{
    let found = try_find_program_address(&seeds, program);
    proof {
        if let Some((address, bump)) = found {
            if address@ == key@ {
                crate::pubkey::lemma_key_of_bytes(address, *key);
            }
        }
    }
    match_found(key, found)
}

} // verus!
