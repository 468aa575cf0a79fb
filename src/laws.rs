//! Properties of the faucet that hold across calls.

use vstd::prelude::*;

use crate::contract::{
    finish_step, fresh_state, initialize_step, last_claim, restore_claim, state_wf, tap_step,
    FaucetState, Transfer,
};
use crate::rules::{reward_fits, Identity, TapError};

verus! {

/// Once `initialize` has configured a faucet (or found it configured), a
/// second `initialize` fails with `AlreadyInitialized` and leaves the state,
/// configuration included, as it was.
pub proof fn initialize_is_refused_twice(
    s: FaucetState,
    admin: Identity,
    asset: Identity,
    reward_amount: u128,
    cooldown_seconds: u64,
    admin2: Identity,
    asset2: Identity,
    reward_amount2: u128,
    cooldown_seconds2: u64,
)
    requires
        state_wf(s),
        initialize_step(s, admin, asset, reward_amount, cooldown_seconds).1
            != Err::<(), TapError>(TapError::RewardTooLarge),
    ensures
        ({
            let first = initialize_step(s, admin, asset, reward_amount, cooldown_seconds).0;
            initialize_step(first, admin2, asset2, reward_amount2, cooldown_seconds2) == (
                first,
                Err::<(), TapError>(TapError::AlreadyInitialized),
            )
        }),
{
}

/// On a freshly configured faucet, the first authorized claim of any user
/// succeeds at any ledger time.
pub proof fn first_tap_is_eligible(
    admin: Identity,
    asset: Identity,
    reward_amount: u128,
    cooldown_seconds: u64,
    user: Identity,
    now: u64,
)
    requires
        reward_fits(reward_amount),
    ensures
        ({
            let s = initialize_step(fresh_state(), admin, asset, reward_amount, cooldown_seconds).0;
            tap_step(s, user, now, true).1 is Ok
        }),
{
}

/// After a successful claim at `t1`, an authorized claim at a later `t2`
/// within the cooldown fails with `CooldownActive` and changes nothing.
pub proof fn tap_within_cooldown_is_refused(s: FaucetState, user: Identity, t1: u64, t2: u64)
    requires
        state_wf(s),
        s.0 is Some,
        tap_step(s, user, t1, true).1 is Ok,
        t1 < t2,
        t2 - t1 < s.0->Some_0.cooldown_seconds,
    ensures
        ({
            let s1 = tap_step(s, user, t1, true).0;
            tap_step(s1, user, t2, true) == (s1, Err::<Transfer, TapError>(TapError::CooldownActive))
        }),
{
    let s1 = tap_step(s, user, t1, true).0;
    assert(last_claim(s1.1, user) == Some(t1));
}

/// After a successful claim at `t1`, an authorized claim exactly one
/// cooldown later succeeds.
pub proof fn tap_at_cooldown_end_succeeds(s: FaucetState, user: Identity, t1: u64)
    requires
        state_wf(s),
        s.0 is Some,
        tap_step(s, user, t1, true).1 is Ok,
        t1 + s.0->Some_0.cooldown_seconds <= u64::MAX,
    ensures
        ({
            let s1 = tap_step(s, user, t1, true).0;
            let t2 = (t1 + s.0->Some_0.cooldown_seconds) as u64;
            tap_step(s1, user, t2, true).1 is Ok
        }),
{
    let s1 = tap_step(s, user, t1, true).0;
    assert(last_claim(s1.1, user) == Some(t1));
}

/// A successful claim pays exactly the configured reward of the configured
/// asset to the claiming user and sets that user's registry entry alone; a
/// refused claim pays nothing and changes nothing; and a claim whose
/// transfer is declined leaves the faucet as it was before the claim.
pub proof fn tap_conserves(s: FaucetState, user: Identity, now: u64, authorized: bool)
    requires
        state_wf(s),
    ensures
        ({
            let (s1, r) = tap_step(s, user, now, authorized);
            match r {
                Ok(t) => {
                    &&& s.0 is Some
                    &&& s1.0 == s.0
                    &&& t.to == user
                    &&& t.asset == s.0->Some_0.asset
                    &&& t.amount as int == s.0->Some_0.reward_amount as int
                    &&& s1.1 == s.1.insert(user, now)
                    &&& forall|k: Identity| k != user ==> last_claim(#[trigger] s1.1, k) == last_claim(
                        s.1,
                        k,
                    )
                    &&& finish_step(s1, t, false) == (s, Err::<(), TapError>(
                        TapError::TransferFailed,
                    ))
                    &&& finish_step(s1, t, true) == (s1, Ok::<(), TapError>(()))
                },
                Err(_) => s1 == s,
            }
        }),
{
    let (s1, r) = tap_step(s, user, now, authorized);
    if let Ok(t) = r {
        assert forall|k: Identity| k != user implies last_claim(#[trigger] s1.1, k) == last_claim(
            s.1,
            k,
        ) by {}
        assert(restore_claim(s1.1, t.to, t.previous) =~= s.1);
    }
}

/// A claim without the user's authorization fails with
/// `AuthorizationMissing` and changes nothing, whatever the state.
pub proof fn unauthorized_tap_is_refused(s: FaucetState, user: Identity, now: u64)
    ensures
        tap_step(s, user, now, false) == (s, Err::<Transfer, TapError>(TapError::AuthorizationMissing)),
{
}

} // verus!
