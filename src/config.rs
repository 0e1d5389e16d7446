//! The pool record and the guards that read it.
use vstd::prelude::*;
use crate::constants::MAX_FEE_BASIS_POINTS;
use crate::error::AmmError;

verus! {

broadcast use vstd::array::group_array_axioms;

/// A 32-byte principal or asset identifier.
#[derive(Debug, Clone, Copy)]
pub struct Principal {
    pub bytes: [u8; 32],
}

impl Principal {
    /// Compares two identifiers byte by byte.
    pub fn same_as(&self, other: &Principal) -> (r: bool)
        ensures
            r == (*self == *other),
    {
        let mut i: usize = 0;
        while i < 32
            invariant
                i <= 32,
                forall|j: int| 0 <= j < i ==> self.bytes@[j] == other.bytes@[j],
            decreases 32 - i,
        {
            if self.bytes[i] != other.bytes[i] {
                return false;
            }
            i = i + 1;
        }
        proof {
            assert(self.bytes@ =~= other.bytes@);
            assert(self.bytes =~= other.bytes);
        }
        true
    }
}

/// Persistent configuration of one pool.
#[derive(Debug, Clone, Copy)]
pub struct Config {
    /// Caller-chosen discriminator of the pool.
    pub seed: u64,
    /// The only principal allowed to change the pool's settings, if any.
    pub authority: Option<Principal>,
    /// First pooled asset.
    pub mint_x: Principal,
    /// Second pooled asset.
    pub mint_y: Principal,
    /// Trading fee in basis points.
    pub fee: u16,
    /// When set, deposits, withdrawals and swaps are refused.
    pub locked: bool,
    /// Address-derivation bump of the pool record.
    pub config_bump: u8,
    /// Address-derivation bump of the claim supply.
    pub lp_bump: u8,
}

/// Outcome of the settings-authority check.
pub open spec fn modify_permission(authority: Option<Principal>, who: Principal) -> Result<(), AmmError> {
    match authority {
        Some(a) => if a == who { Ok(()) } else { Err(AmmError::Unauthorized) },
        None => Err(AmmError::NoAuthority),
    }
}

/// Outcome of the checks every trading operation makes on the pool record
/// and the asset identifiers it is handed, in that order.
pub open spec fn pool_access(config: Config, mint_x: Principal, mint_y: Principal) -> Result<(), AmmError> {
    if config.locked {
        Err(AmmError::PoolLocked)
    } else if mint_x != config.mint_x || mint_y != config.mint_y {
        Err(AmmError::InvalidToken)
    } else {
        Ok(())
    }
}

impl Config {
    /// Invariants of a pool record: distinct assets and a bounded fee.
    pub open spec fn wf(&self) -> bool {
        &&& self.mint_x != self.mint_y
        &&& self.fee <= MAX_FEE_BASIS_POINTS
    }

    /// Whether trading is disabled.
    pub fn is_locked(&self) -> (r: bool)
        ensures
            r == self.locked,
    {
        self.locked
    }

    /// Checks that the fee lies within the accepted range.
    pub fn validate_fee(&self) -> (r: Result<(), AmmError>)
        ensures
            r is Ok <==> self.fee <= MAX_FEE_BASIS_POINTS,
            r is Err ==> r == Err::<(), AmmError>(AmmError::InvalidFee),
    {
        if self.fee <= MAX_FEE_BASIS_POINTS {
            Ok(())
        } else {
            Err(AmmError::InvalidFee)
        }
    }

    /// Checks that `authority` may change this pool's settings.
    pub fn can_modify(&self, authority: &Principal) -> (r: Result<(), AmmError>)
        ensures
            r == modify_permission(self.authority, *authority),
    {
        match &self.authority {
            Some(auth) => {
                if auth.same_as(authority) {
                    Ok(())
                } else {
                    Err(AmmError::Unauthorized)
                }
            },
            None => Err(AmmError::NoAuthority),
        }
    }

    /// Checks that the pool is open for trading and that the supplied asset
    /// identifiers are the pool's own.
    pub fn check_pool_access(&self, mint_x: &Principal, mint_y: &Principal) -> (r: Result<(), AmmError>)
        ensures
            r == pool_access(*self, *mint_x, *mint_y),
    {
        if self.locked {
            Err(AmmError::PoolLocked)
        } else if !mint_x.same_as(&self.mint_x) || !mint_y.same_as(&self.mint_y) {
            Err(AmmError::InvalidToken)
        } else {
            Ok(())
        }
    }
}

/// The authority guard admits exactly the stored authority: it fails with
/// `NoAuthority` when none was set and with `Unauthorized` for anyone else.
pub proof fn lemma_authority_guard(authority: Option<Principal>, who: Principal)
    ensures
        modify_permission(authority, who) is Ok <==> authority == Some(who),
        authority is None ==> modify_permission(authority, who) == Err::<(), AmmError>(AmmError::NoAuthority),
        (authority is Some && authority != Some(who)) ==> modify_permission(authority, who)
            == Err::<(), AmmError>(AmmError::Unauthorized),
{
}

} // verus!
