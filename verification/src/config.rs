use crate::errors::DaoError;
use vstd::prelude::*;

verus! {

/// Organization-wide governance parameters, fixed at DAO genesis, plus the
/// monotonic proposal counter.
///
/// The `min_*` fields are floors and `max_expiry` a ceiling that every
/// per-proposal parameter supplied at proposal creation must respect; the
/// `check_*` methods enforce them. `proposal_count` grows by exactly one per
/// created proposal and is the only mutable part of the configuration after
/// `init`.
#[verifier::ext_equal]
#[derive(Clone, Copy, Debug, PartialEq, Eq, Structural)]
pub struct DaoConfig {
    pub seed: u64,
    pub issue_price: u64,
    pub issue_amount: u64,
    pub proposal_fee: u64,
    pub max_supply: u64,
    pub min_quorum: u64,
    pub min_threshold: u64,
    pub max_expiry: u64,
    pub min_stake: u64,
    pub prevoting_period: u64,
    pub proposal_count: u64,
}

impl DaoConfig {
    /// Sets every field from the caller-supplied values and zeroes the
    /// proposal counter. Cannot fail.
    pub fn init(
        &mut self,
        seed: u64,
        issue_price: u64,
        issue_amount: u64,
        proposal_fee: u64,
        max_supply: u64,
        min_quorum: u64,
        min_threshold: u64,
        max_expiry: u64,
        min_stake: u64,
        prevoting_period: u64,
    ) -> (r: Result<(), DaoError>)
        ensures
            r is Ok,
            *final(self) == (DaoConfig {
                seed,
                issue_price,
                issue_amount,
                proposal_fee,
                max_supply,
                min_quorum,
                min_threshold,
                max_expiry,
                min_stake,
                prevoting_period,
                proposal_count: 0,
            }),
    {
        self.seed = seed;
        self.issue_price = issue_price;
        self.issue_amount = issue_amount;
        self.proposal_fee = proposal_fee;
        self.max_supply = max_supply;
        self.min_quorum = min_quorum;
        self.min_threshold = min_threshold;
        self.max_expiry = max_expiry;
        self.min_stake = min_stake;
        self.prevoting_period = prevoting_period;
        self.proposal_count = 0;
        Ok(())
    }

    /// Rejects a vote weight below the organization's staking floor.
    pub fn check_min_stake(&self, amount: u64) -> (r: Result<(), DaoError>)
        ensures
            r is Ok <==> amount >= self.min_stake,
            r is Err ==> r == Err::<(), DaoError>(DaoError::InvalidStakeAmount),
    {
        if amount >= self.min_stake {
            Ok(())
        } else {
            Err(DaoError::InvalidStakeAmount)
        }
    }

    /// Rejects a per-proposal quorum below the organization's floor.
    pub fn check_min_quorum(&self, quorum: u64) -> (r: Result<(), DaoError>)
        ensures
            r is Ok <==> quorum >= self.min_quorum,
            r is Err ==> r == Err::<(), DaoError>(DaoError::InvalidQuorum),
    {
        if quorum >= self.min_quorum {
            Ok(())
        } else {
            Err(DaoError::InvalidQuorum)
        }
    }

    /// Rejects a per-proposal threshold below the organization's floor.
    pub fn check_min_threshold(&self, threshold: u64) -> (r: Result<(), DaoError>)
        ensures
            r is Ok <==> threshold >= self.min_threshold,
            r is Err ==> r == Err::<(), DaoError>(DaoError::InvalidThreshold),
    {
        if threshold >= self.min_threshold {
            Ok(())
        } else {
            Err(DaoError::InvalidThreshold)
        }
    }

    /// Rejects a proposal duration above the organization's ceiling.
    pub fn check_max_expiry(&self, expiry: u64) -> (r: Result<(), DaoError>)
        ensures
            r is Ok <==> expiry <= self.max_expiry,
            r is Err ==> r == Err::<(), DaoError>(DaoError::InvalidExpiry),
    {
        if expiry <= self.max_expiry {
            Ok(())
        } else {
            Err(DaoError::InvalidExpiry)
        }
    }

    /// Registers one new proposal. The counter grows by exactly one, and the
    /// caller's candidate identifier must equal the new counter value:
    /// proposal identifiers are assigned strictly by the configuration,
    /// never chosen freely, so they can neither collide nor leave gaps.
    /// On any error the counter is unchanged.
    pub fn add_proposal(&mut self, id: u64) -> (r: Result<(), DaoError>)
        ensures
            old(self).proposal_count == u64::MAX ==> r == Err::<(), DaoError>(DaoError::Overflow)
                && *final(self) == *old(self),
            old(self).proposal_count < u64::MAX && id != old(self).proposal_count + 1 ==> r
                == Err::<(), DaoError>(DaoError::InvalidProposalSeed) && *final(self) == *old(self),
            old(self).proposal_count < u64::MAX && id == old(self).proposal_count + 1 ==> r is Ok
                && *final(self) == (DaoConfig { proposal_count: id, ..*old(self) }),
    {
        let next = match self.proposal_count.checked_add(1) {
            Some(next) => next,
            None => {
                return Err(DaoError::Overflow);
            },
        };
        if next != id {
            return Err(DaoError::InvalidProposalSeed);
        }
        self.proposal_count = next;
        Ok(())
    }
}

} // verus!
