//! The faucet's state machine: its configuration and the registry of each
//! user's last claim.

use std::collections::HashMap;
use vstd::prelude::*;

use crate::rules::{
    check_initialize, check_tap, initialize_verdict, payout_amount, reward_fits, tap_verdict,
    Config, Identity, TapError,
};

verus! {

broadcast use vstd::std_specs::hash::group_hash_axioms;

/// The abstract state of a faucet: its configuration, if any, and the
/// registry from each user who has claimed to the time of their last claim.
pub type FaucetState = (Option<Config>, Map<Identity, u64>);

/// The transfer that a successful claim asks the host to perform: `amount`
/// units of `asset` from the faucet to `to`. `previous` is the user's
/// registry entry before the claim, kept so that the claim can be undone.
#[derive(Clone, Copy, Debug, PartialEq, Eq, Structural)]
pub struct Transfer {
    pub asset: Identity,
    pub to: Identity,
    pub amount: i128,
    pub previous: Option<u64>,
}

/// The last claim of `user` in `registry`, none if they never claimed.
pub open spec fn last_claim(registry: Map<Identity, u64>, user: Identity) -> Option<u64> {
    if registry.contains_key(user) {
        Some(registry[user])
    } else {
        None
    }
}

/// A state that the faucet can be in: unconfigured with an empty registry,
/// or configured with a reward that a transfer can carry.
pub open spec fn state_wf(s: FaucetState) -> bool {
    match s.0 {
        None => s.1 == Map::<Identity, u64>::empty(),
        Some(c) => reward_fits(c.reward_amount),
    }
}

/// The faucet before `initialize`.
pub open spec fn fresh_state() -> FaucetState {
    (None, Map::empty())
}

/// `initialize` on state `s`: the next state and the result.
pub open spec fn initialize_step(
    s: FaucetState,
    admin: Identity,
    asset: Identity,
    reward_amount: u128,
    cooldown_seconds: u64,
) -> (FaucetState, Result<(), TapError>) {
    match initialize_verdict(s.0 is Some, reward_amount) {
        Err(e) => (s, Err(e)),
        Ok(_) => (
            (
                Some(
                    (Config {
                        admin: admin,
                        asset: asset,
                        reward_amount: reward_amount,
                        cooldown_seconds: cooldown_seconds,
                    }),
                ),
                Map::empty(),
            ),
            Ok(()),
        ),
    }
}

/// `tap` by `user` at ledger time `now` on state `s`, where `authorized`
/// says whether the caller proved that it acts for `user`: the next state
/// and the result.
pub open spec fn tap_step(s: FaucetState, user: Identity, now: u64, authorized: bool) -> (
    FaucetState,
    Result<Transfer, TapError>,
) {
    if !authorized {
        (s, Err(TapError::AuthorizationMissing))
    } else {
        match s.0 {
            None => (s, Err(TapError::Uninitialized)),
            Some(c) => match tap_verdict(
                authorized,
                c.cooldown_seconds,
                last_claim(s.1, user),
                now,
            ) {
                Err(e) => (s, Err(e)),
                Ok(_) => (
                    (s.0, s.1.insert(user, now)),
                    Ok(
                        (Transfer {
                            asset: c.asset,
                            to: user,
                            amount: c.reward_amount as i128,
                            previous: last_claim(s.1, user),
                        }),
                    ),
                ),
            },
        }
    }
}

/// The registry entry of `user` put back to `previous`.
pub open spec fn restore_claim(
    registry: Map<Identity, u64>,
    user: Identity,
    previous: Option<u64>,
) -> Map<Identity, u64> {
    match previous {
        Some(t) => registry.insert(user, t),
        None => registry.remove(user),
    }
}

/// The end of a claim whose transfer `t` the host performed (`delivered`)
/// or declined: the next state and the result. An unconfigured faucet has
/// no claim to undo.
pub open spec fn finish_step(s: FaucetState, t: Transfer, delivered: bool) -> (
    FaucetState,
    Result<(), TapError>,
) {
    if delivered {
        (s, Ok(()))
    } else if s.0 is None {
        (s, Err(TapError::TransferFailed))
    } else {
        ((s.0, restore_claim(s.1, t.to, t.previous)), Err(TapError::TransferFailed))
    }
}

/// A faucet instance.
pub struct TapGameContract {
    config: Option<Config>,
    last_tap: HashMap<Identity, u64>,
}

impl View for TapGameContract {
    type V = FaucetState;

    closed spec fn view(&self) -> FaucetState {
        (self.config, self.last_tap@)
    }
}

impl TapGameContract {
    /// A faucet that has not been configured.
    pub fn new() -> (r: Self)
        ensures
            r@ == fresh_state(),
            state_wf(r@),
    {
        TapGameContract { config: None, last_tap: HashMap::new() }
    }

    /// Configures the faucet once: binds the administrator, the asset, the
    /// reward of a claim and the cooldown, and starts an empty registry.
    /// A second call, or a reward that no transfer can carry, is refused
    /// and changes nothing.
    pub fn initialize(
        &mut self,
        admin: Identity,
        asset: Identity,
        reward_amount: u128,
        cooldown_seconds: u64,
    ) -> (r: Result<(), TapError>)
        requires
            state_wf(old(self)@),
        ensures
            (final(self)@, r) == initialize_step(
                old(self)@,
                admin,
                asset,
                reward_amount,
                cooldown_seconds,
            ),
            state_wf(final(self)@),
    {
        match check_initialize(self.config.is_some(), reward_amount) {
            Err(e) => Err(e),
            Ok(()) => {
                self.config = Some(
                    Config {
                        admin: admin,
                        asset: asset,
                        reward_amount: reward_amount,
                        cooldown_seconds: cooldown_seconds,
                    },
                );
                self.last_tap = HashMap::new();
                Ok(())
            },
        }
    }

    /// A claim by `user` at ledger time `now`; `authorized` says whether the
    /// caller proved that it acts for `user`. On success the user's registry
    /// entry becomes `now` and the transfer to perform is returned; on a
    /// refusal nothing changes.
    pub fn tap(&mut self, user: Identity, now: u64, authorized: bool) -> (r: Result<Transfer, TapError>)
        requires
            state_wf(old(self)@),
        ensures
            (final(self)@, r) == tap_step(old(self)@, user, now, authorized),
            state_wf(final(self)@),
    {
        if !authorized {
            return Err(TapError::AuthorizationMissing);
        }
        let c = match self.config {
            None => {
                return Err(TapError::Uninitialized);
            },
            Some(c) => c,
        };
        let previous = match self.last_tap.get(&user) {
            Some(t) => Some(*t),
            None => None,
        };
        match check_tap(authorized, c.cooldown_seconds, previous, now) {
            Err(e) => Err(e),
            Ok(()) => {
                let amount = match payout_amount(c.reward_amount) {
                    Some(a) => a,
                    None => {
                        return Err(TapError::RewardTooLarge);
                    },
                };
                self.last_tap.insert(user, now);
                Ok(Transfer { asset: c.asset, to: user, amount: amount, previous: previous })
            },
        }
    }

    /// The configuration, none before `initialize` has succeeded.
    pub fn config(&self) -> (r: Option<Config>)
        ensures
            r == self@.0,
    {
        self.config
    }

    /// The time of the last claim of `user`, none if they never claimed.
    pub fn last_tap(&self, user: Identity) -> (r: Option<u64>)
        ensures
            r == last_claim(self@.1, user),
    {
        match self.last_tap.get(&user) {
            Some(t) => Some(*t),
            None => None,
        }
    }

    /// Ends a claim whose transfer `t` the host performed (`delivered`) or
    /// declined. A declined transfer undoes the claim: the user's registry
    /// entry goes back to what it was, and `TransferFailed` is returned.
    pub fn finish_tap(&mut self, t: &Transfer, delivered: bool) -> (r: Result<(), TapError>)
        requires
            state_wf(old(self)@),
        ensures
            (final(self)@, r) == finish_step(old(self)@, *t, delivered),
            state_wf(final(self)@),
    {
        if delivered {
            return Ok(());
        }
        if self.config.is_none() {
            return Err(TapError::TransferFailed);
        }
        match t.previous {
            Some(p) => {
                self.last_tap.insert(t.to, p);
            },
            None => {
                self.last_tap.remove(&t.to);
            },
        }
        Err(TapError::TransferFailed)
    }
}

} // verus!
