//! The accounts that each instruction is handed, and what has to hold of them
//! before the instruction runs.
//!
//! A key named for a role (`admin`, `creator` of a new duel, `opponent` of a
//! join, `caller`) is that of an account that signed, and a record is one that
//! was read from an account of this program. A record is `None` where no such
//! account exists: it was never created, or it was closed.
use crate::address::{
    canonical_bump, canonical_error, duel_seeds, program_id_bytes, stored_bump_error,
    treasury_seeds, vault_seeds,
};
use crate::address::{
    check_canonical, check_stored_bump, make_duel_seeds, make_treasury_seeds, make_vault_seeds,
    program_id,
};
use crate::errors::{DuelError, InstructionError};
use crate::loader::{loader_bytes, program_data_seeds};
use crate::loader::{loader_id, make_program_data_seeds};
use crate::pubkey::Pubkey;
use crate::state::{Duel, Treasury};
use crate::vrf::{config_seeds, randomness_seeds, vrf_program_bytes};
use crate::vrf::{make_config_seeds, make_randomness_seeds, vrf_program_id};
use vstd::prelude::*;

verus! {

/// The accounts of the one-time setup.
#[derive(Clone, Copy, Debug)]
pub struct InitializeTreasury<'info> {
    pub admin: Pubkey,
    pub treasury_key: Pubkey,
    pub treasury: Option<Treasury>,
    /// The loader's record of this program: its address, owner and data.
    pub program_data_key: Pubkey,
    pub program_data_owner: Pubkey,
    pub program_data: &'info [u8],
}

/// The accounts of a change of settings.
#[derive(Clone, Copy, Debug)]
pub struct AdminOnly {
    pub admin: Pubkey,
    pub treasury_key: Pubkey,
    pub treasury: Option<Treasury>,
}

/// The accounts of a withdrawal from the treasury, with their balances.
#[derive(Clone, Copy, Debug)]
pub struct WithdrawTreasury {
    pub admin: Pubkey,
    pub treasury_key: Pubkey,
    pub treasury: Option<Treasury>,
    pub treasury_lamports: u64,
    pub destination: Pubkey,
    pub destination_lamports: u64,
}

/// The accounts of a new duel.
#[derive(Clone, Copy, Debug)]
pub struct CreateDuel {
    pub creator: Pubkey,
    pub duel_key: Pubkey,
    pub duel: Option<Duel>,
    pub vault: Pubkey,
    pub treasury_key: Pubkey,
    pub treasury: Option<Treasury>,
}

/// The accounts of a join.
#[derive(Clone, Copy, Debug)]
pub struct JoinDuel {
    pub opponent: Pubkey,
    pub creator: Pubkey,
    pub duel_key: Pubkey,
    pub duel: Option<Duel>,
    pub vault: Pubkey,
    /// The randomness service's configuration.
    pub vrf_config: Pubkey,
    /// The randomness service's own treasury.
    pub vrf_treasury: Pubkey,
    /// The account of the randomness request.
    pub random: Pubkey,
}

/// The accounts of a settlement.
#[derive(Clone, Copy, Debug)]
pub struct SettleDuel<'info> {
    pub caller: Pubkey,
    pub creator: Pubkey,
    pub opponent: Pubkey,
    pub treasury_key: Pubkey,
    pub treasury: Option<Treasury>,
    pub duel_key: Pubkey,
    pub duel: Option<Duel>,
    pub vault: Pubkey,
    /// The randomness account: its address and data.
    pub random: Pubkey,
    pub random_data: &'info [u8],
}

/// The accounts of a close or a refund, with the balances of the treasury and
/// of the duel's record.
#[derive(Clone, Copy, Debug)]
pub struct CloseDuel<'info> {
    pub caller: Pubkey,
    pub creator: Pubkey,
    pub opponent: Pubkey,
    pub treasury_key: Pubkey,
    pub treasury: Option<Treasury>,
    pub treasury_lamports: u64,
    pub vault: Pubkey,
    /// The randomness account: its address and data.
    pub random: Pubkey,
    pub random_data: &'info [u8],
    pub duel_key: Pubkey,
    pub duel: Option<Duel>,
    pub duel_lamports: u64,
}

/// What is wrong with the account of an existing treasury.
pub open spec fn treasury_error(key: Pubkey, treasury: Treasury) -> Option<InstructionError> {
    stored_bump_error(key, treasury_seeds(), treasury.bump, program_id_bytes()@)
}

/// What is wrong with the account of an existing duel, given the game and the
/// creator that the instruction names.
pub open spec fn duel_error(
    key: Pubkey,
    duel: Duel,
    game_id: u64,
    creator: Pubkey,
) -> Option<InstructionError> {
    if stored_bump_error(
        key,
        duel_seeds(game_id, creator),
        duel.bump,
        program_id_bytes()@,
    ) is Some {
        Some(InstructionError::ConstraintSeeds)
    } else if duel.creator != creator {
        Some(InstructionError::ConstraintHasOne)
    } else {
        None
    }
}

/// What is wrong with the account of a duel's vault.
pub open spec fn vault_error(
    vault: Pubkey,
    game_id: u64,
    creator: Pubkey,
) -> Option<InstructionError> {
    canonical_error(vault, vault_seeds(game_id, creator), program_id_bytes()@)
}

/// The canonical bump of a duel's vault.
pub open spec fn vault_bump(game_id: u64, creator: Pubkey) -> Option<u8> {
    canonical_bump(vault_seeds(game_id, creator), program_id_bytes()@)
}

/// What is wrong with the accounts of an instruction that is the admin's.
pub open spec fn admin_error(
    admin: Pubkey,
    key: Pubkey,
    treasury: Option<Treasury>,
) -> Option<InstructionError> {
    match treasury {
        None => Some(InstructionError::AccountNotInitialized),
        Some(t) => if treasury_error(key, t) is Some {
            treasury_error(key, t)
        } else if t.admin != admin {
            Some(InstructionError::Duel(DuelError::Unauthorized))
        } else {
            None
        },
    }
}

/// Checks the account of an existing treasury.
fn check_treasury(key: &Pubkey, treasury: &Treasury) -> (r: Result<(), InstructionError>)
    ensures
        r is Ok <==> treasury_error(*key, *treasury) is None,
        r matches Err(e) ==> treasury_error(*key, *treasury) == Some(e),
{
    check_stored_bump(key, make_treasury_seeds(), treasury.bump, &program_id())
}

/// Checks the account of an existing duel.
fn check_duel(key: &Pubkey, duel: &Duel, game_id: u64, creator: &Pubkey) -> (r: Result<
    (),
    InstructionError,
>)
    ensures
        r is Ok <==> duel_error(*key, *duel, game_id, *creator) is None,
        r matches Err(e) ==> duel_error(*key, *duel, game_id, *creator) == Some(e),
{
    check_stored_bump(key, make_duel_seeds(game_id, creator), duel.bump, &program_id())?;
    if duel.creator != *creator {
        return Err(InstructionError::ConstraintHasOne);
    }
    Ok(())
}

/// Checks the account of a duel's vault, and returns its bump.
fn check_vault(vault: &Pubkey, game_id: u64, creator: &Pubkey) -> (r: Result<u8, InstructionError>)
    ensures
        match r {
            Ok(bump) => vault_error(*vault, game_id, *creator) is None && vault_bump(
                game_id,
                *creator,
            ) == Some(bump),
            Err(e) => vault_error(*vault, game_id, *creator) == Some(e),
        },
{
    check_canonical(vault, make_vault_seeds(game_id, creator), &program_id())
}

/// Checks the accounts of an instruction that is the admin's, and returns the
/// treasury.
pub fn check_admin(admin: &Pubkey, key: &Pubkey, treasury: &Option<Treasury>) -> (r: Result<
    Treasury,
    InstructionError,
>)
    ensures
        match r {
            Ok(t) => admin_error(*admin, *key, *treasury) is None && *treasury == Some(t),
            Err(e) => admin_error(*admin, *key, *treasury) == Some(e),
        },
{
    match treasury {
        None => Err(InstructionError::AccountNotInitialized),
        Some(t) => {
            check_treasury(key, t)?;
            if t.admin != *admin {
                return Err(InstructionError::Duel(DuelError::Unauthorized));
            }
            Ok(*t)
        },
    }
}

impl<'info> InitializeTreasury<'info> {
    /// What is wrong with the accounts.
    pub open spec fn accounts_error(self) -> Option<InstructionError> {
        let treasury = canonical_error(self.treasury_key, treasury_seeds(), program_id_bytes()@);
        if treasury is Some {
            treasury
        } else if self.treasury is Some {
            Some(InstructionError::AccountAlreadyInUse)
        } else {
            canonical_error(self.program_data_key, program_data_seeds(), loader_bytes()@)
        }
    }

    /// Checks the accounts, and returns the treasury's bump.
    pub fn check(&self) -> (r: Result<u8, InstructionError>)
        ensures
            match r {
                Ok(bump) => self.accounts_error() is None && canonical_bump(
                    treasury_seeds(),
                    program_id_bytes()@,
                ) == Some(bump),
                Err(e) => self.accounts_error() == Some(e),
            },
    {
        let bump: u8 = check_canonical(&self.treasury_key, make_treasury_seeds(), &program_id())?;
        if self.treasury.is_some() {
            return Err(InstructionError::AccountAlreadyInUse);
        }
        check_canonical(&self.program_data_key, make_program_data_seeds(), &loader_id())?;
        Ok(bump)
    }
}

impl CreateDuel {
    /// What is wrong with the accounts.
    pub open spec fn accounts_error(self, game_id: u64) -> Option<InstructionError> {
        let duel = canonical_error(
            self.duel_key,
            duel_seeds(game_id, self.creator),
            program_id_bytes()@,
        );
        let vault = vault_error(self.vault, game_id, self.creator);
        match self.treasury {
            None => Some(InstructionError::AccountNotInitialized),
            Some(t) => if duel is Some {
                duel
            } else if self.duel is Some {
                Some(InstructionError::AccountAlreadyInUse)
            } else if vault is Some {
                vault
            } else {
                treasury_error(self.treasury_key, t)
            },
        }
    }

    /// The bump of the new duel's address.
    pub open spec fn duel_bump(self, game_id: u64) -> Option<u8> {
        canonical_bump(duel_seeds(game_id, self.creator), program_id_bytes()@)
    }

    /// Checks the accounts, and returns the treasury and the duel's bump.
    pub fn check(&self, game_id: u64) -> (r: Result<(Treasury, u8), InstructionError>)
        ensures
            match r {
                Ok((t, bump)) => {
                    &&& self.accounts_error(game_id) is None
                    &&& self.treasury == Some(t)
                    &&& self.duel_bump(game_id) == Some(bump)
                },
                Err(e) => self.accounts_error(game_id) == Some(e),
            },
    {
        match &self.treasury {
            None => Err(InstructionError::AccountNotInitialized),
            Some(t) => {
                let bump: u8 = check_canonical(
                    &self.duel_key,
                    make_duel_seeds(game_id, &self.creator),
                    &program_id(),
                )?;
                if self.duel.is_some() {
                    return Err(InstructionError::AccountAlreadyInUse);
                }
                check_vault(&self.vault, game_id, &self.creator)?;
                check_treasury(&self.treasury_key, t)?;
                Ok((*t, bump))
            },
        }
    }
}

impl JoinDuel {
    /// What is wrong with the accounts.
    pub open spec fn accounts_error(self, game_id: u64, force: [u8; 32]) -> Option<
        InstructionError,
    > {
        let vault = vault_error(self.vault, game_id, self.creator);
        let config = canonical_error(self.vrf_config, config_seeds(), vrf_program_bytes()@);
        match self.duel {
            None => Some(InstructionError::AccountNotInitialized),
            Some(d) => {
                let duel = duel_error(self.duel_key, d, game_id, self.creator);
                if duel is Some {
                    duel
                } else if vault is Some {
                    vault
                } else if config is Some {
                    config
                } else {
                    canonical_error(self.random, randomness_seeds(force), vrf_program_bytes()@)
                }
            },
        }
    }

    /// Checks the accounts, and returns the duel.
    pub fn check(&self, game_id: u64, force: &[u8; 32]) -> (r: Result<Duel, InstructionError>)
        ensures
            match r {
                Ok(d) => self.accounts_error(game_id, *force) is None && self.duel == Some(d),
                Err(e) => self.accounts_error(game_id, *force) == Some(e),
            },
    {
        match &self.duel {
            None => Err(InstructionError::AccountNotInitialized),
            Some(d) => {
                check_duel(&self.duel_key, d, game_id, &self.creator)?;
                check_vault(&self.vault, game_id, &self.creator)?;
                check_canonical(&self.vrf_config, make_config_seeds(), &vrf_program_id())?;
                check_canonical(&self.random, make_randomness_seeds(force), &vrf_program_id())?;
                Ok(*d)
            },
        }
    }
}

impl<'info> SettleDuel<'info> {
    /// What is wrong with the accounts.
    pub open spec fn accounts_error(self, game_id: u64) -> Option<InstructionError> {
        match (self.treasury, self.duel) {
            (Some(t), Some(d)) => {
                let treasury = treasury_error(self.treasury_key, t);
                let duel = duel_error(self.duel_key, d, game_id, self.creator);
                if self.opponent != d.opponent {
                    Some(InstructionError::ConstraintAddress)
                } else if treasury is Some {
                    treasury
                } else if duel is Some {
                    duel
                } else {
                    vault_error(self.vault, game_id, self.creator)
                }
            },
            _ => Some(InstructionError::AccountNotInitialized),
        }
    }

    /// Checks the accounts, and returns the duel and the vault's bump.
    pub fn check(&self, game_id: u64) -> (r: Result<(Duel, u8), InstructionError>)
        ensures
            match r {
                Ok((d, bump)) => {
                    &&& self.accounts_error(game_id) is None
                    &&& self.duel == Some(d)
                    &&& vault_bump(game_id, self.creator) == Some(bump)
                },
                Err(e) => self.accounts_error(game_id) == Some(e),
            },
    {
        match (&self.treasury, &self.duel) {
            (Some(t), Some(d)) => {
                if self.opponent != d.opponent {
                    return Err(InstructionError::ConstraintAddress);
                }
                check_treasury(&self.treasury_key, t)?;
                check_duel(&self.duel_key, d, game_id, &self.creator)?;
                let bump: u8 = check_vault(&self.vault, game_id, &self.creator)?;
                Ok((*d, bump))
            },
            _ => Err(InstructionError::AccountNotInitialized),
        }
    }
}

impl<'info> CloseDuel<'info> {
    /// What is wrong with the accounts.
    pub open spec fn accounts_error(self, game_id: u64) -> Option<InstructionError> {
        match (self.treasury, self.duel) {
            (Some(t), Some(d)) => {
                let treasury = treasury_error(self.treasury_key, t);
                let vault = vault_error(self.vault, game_id, self.creator);
                let duel = duel_error(self.duel_key, d, game_id, self.creator);
                if treasury is Some {
                    treasury
                } else if vault is Some {
                    vault
                } else if duel is Some {
                    duel
                } else if self.duel_key == self.creator {
                    Some(InstructionError::ConstraintClose)
                } else {
                    None
                }
            },
            _ => Some(InstructionError::AccountNotInitialized),
        }
    }

    /// Checks the accounts, and returns the duel and the vault's bump.
    pub fn check(&self, game_id: u64) -> (r: Result<(Duel, u8), InstructionError>)
        ensures
            match r {
                Ok((d, bump)) => {
                    &&& self.accounts_error(game_id) is None
                    &&& self.duel == Some(d)
                    &&& vault_bump(game_id, self.creator) == Some(bump)
                },
                Err(e) => self.accounts_error(game_id) == Some(e),
            },
    {
        match (&self.treasury, &self.duel) {
            (Some(t), Some(d)) => {
                check_treasury(&self.treasury_key, t)?;
                let bump: u8 = check_vault(&self.vault, game_id, &self.creator)?;
                check_duel(&self.duel_key, d, game_id, &self.creator)?;
                if self.duel_key == self.creator {
                    return Err(InstructionError::ConstraintClose);
                }
                Ok((*d, bump))
            },
            _ => Err(InstructionError::AccountNotInitialized),
        }
    }
}

} // verus!
