//! The decisions of the faucet, on plain values.

use vstd::prelude::*;

verus! {

/// Why an operation on the faucet was refused.
#[derive(Clone, Copy, Debug, PartialEq, Eq, Structural)]
pub enum TapError {
    /// `initialize` was called on a faucet that already holds a configuration.
    AlreadyInitialized,
    /// `tap` was called before the faucet was configured.
    Uninitialized,
    /// The caller could not prove that it acts for the claiming user.
    AuthorizationMissing,
    /// The user's cooldown interval has not yet fully elapsed.
    CooldownActive,
    /// The asset transfer of a claim was declined; the claim was undone.
    TransferFailed,
    /// The reward does not fit the signed quantity that a transfer carries.
    RewardTooLarge,
}

/// The identity of an account or an asset, as a handle that the host
/// assigns.
pub type Identity = u64;

/// The faucet's configuration, fixed once it is set.
#[derive(Clone, Copy, Debug, PartialEq, Eq, Structural)]
pub struct Config {
    /// The administrator's identity; recorded, but it grants no authority.
    pub admin: Identity,
    /// The identity of the asset that is paid out.
    pub asset: Identity,
    /// The units of the asset paid for one successful claim.
    pub reward_amount: u128,
    /// The seconds that must pass between two claims of one user.
    pub cooldown_seconds: u64,
}

/// A reward can be paid only if it fits the signed 128-bit quantity of a
/// transfer.
pub open spec fn reward_fits(reward_amount: u128) -> bool {
    reward_amount <= i128::MAX
}

/// A user whose last claim was at `last` (none if they never claimed) may
/// claim at `now`: the first claim always, later ones once `last + cooldown`
/// has been reached.
pub open spec fn cooldown_elapsed_spec(last: Option<u64>, cooldown: u64, now: u64) -> bool {
    match last {
        None => true,
        Some(t) => t + cooldown <= now,
    }
}

/// What `initialize` decides, given whether a configuration already exists.
pub open spec fn initialize_verdict(initialized: bool, reward_amount: u128) -> Result<(), TapError> {
    if initialized {
        Err(TapError::AlreadyInitialized)
    } else if !reward_fits(reward_amount) {
        Err(TapError::RewardTooLarge)
    } else {
        Ok(())
    }
}

/// What `tap` decides for a configured faucet: authority is checked first,
/// then the cooldown.
pub open spec fn tap_verdict(authorized: bool, cooldown: u64, last: Option<u64>, now: u64) -> Result<
    (),
    TapError,
> {
    if !authorized {
        Err(TapError::AuthorizationMissing)
    } else if !cooldown_elapsed_spec(last, cooldown, now) {
        Err(TapError::CooldownActive)
    } else {
        Ok(())
    }
}

/// Whether a user whose last claim was at `last` may claim again at `now`.
pub fn cooldown_elapsed(last: Option<u64>, cooldown: u64, now: u64) -> (r: bool)
    ensures
        r == cooldown_elapsed_spec(last, cooldown, now),
{
    match last {
        None => true,
        Some(t) => (t as u128) + (cooldown as u128) <= now as u128,
    }
}

/// Decides whether a faucet may be configured with `reward_amount`.
pub fn check_initialize(initialized: bool, reward_amount: u128) -> (r: Result<(), TapError>)
    ensures
        r == initialize_verdict(initialized, reward_amount),
{
    if initialized {
        Err(TapError::AlreadyInitialized)
    } else if reward_amount > i128::MAX as u128 {
        Err(TapError::RewardTooLarge)
    } else {
        Ok(())
    }
}

/// Decides a claim on a configured faucet.
pub fn check_tap(authorized: bool, cooldown: u64, last: Option<u64>, now: u64) -> (r: Result<
    (),
    TapError,
>)
    ensures
        r == tap_verdict(authorized, cooldown, last, now),
{
    if !authorized {
        Err(TapError::AuthorizationMissing)
    } else if !cooldown_elapsed(last, cooldown, now) {
        Err(TapError::CooldownActive)
    } else {
        Ok(())
    }
}

/// The signed quantity that a transfer of `reward_amount` carries, or none
/// where the reward does not fit.
pub fn payout_amount(reward_amount: u128) -> (r: Option<i128>)
    ensures
        r is Some <==> reward_fits(reward_amount),
        r is Some ==> r->Some_0 as int == reward_amount as int,
{
    if reward_amount <= i128::MAX as u128 {
        Some(reward_amount as i128)
    } else {
        None
    }
}

} // verus!
