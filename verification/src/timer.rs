//! The fixed set of periodic timers that the event dispatcher registers.

use vstd::prelude::*;

verus! {

/// Identifies a timer towards the I/O runtime.
pub type TimerToken = usize;

/// Token of the timer that drives the state processor's periodic maintenance.
pub const CLIENT_TICK_TIMER: TimerToken = 0;

/// Token of the timer that drives the snapshot synchronizer's periodic maintenance.
pub const SNAPSHOT_TICK_TIMER: TimerToken = 1;

/// Period of the client tick, in milliseconds.
pub const CLIENT_TICK_MS: u64 = 5000;

/// Period of the snapshot tick, in milliseconds.
pub const SNAPSHOT_TICK_MS: u64 = 10000;

/// One periodic timer: its token and its period in milliseconds.
#[derive(Clone, Copy, Debug, PartialEq, Eq, Structural)]
pub struct TimerRegistration {
    pub token: TimerToken,
    pub interval_ms: u64,
}

/// The period of the timer registered under `token`, if there is one.
pub open spec fn interval_of(token: TimerToken) -> Option<u64> {
    if token == CLIENT_TICK_TIMER {
        Some(CLIENT_TICK_MS)
    } else if token == SNAPSHOT_TICK_TIMER {
        Some(SNAPSHOT_TICK_MS)
    } else {
        None
    }
}

/// The timers of the dispatcher, in the order in which they are registered.
pub open spec fn registry() -> Seq<TimerRegistration> {
    seq![
        TimerRegistration { token: CLIENT_TICK_TIMER, interval_ms: CLIENT_TICK_MS },
        TimerRegistration { token: SNAPSHOT_TICK_TIMER, interval_ms: SNAPSHOT_TICK_MS },
    ]
}

/// Whether a periodic timer with period `interval_ms` expires `elapsed_ms`
/// milliseconds after it was armed: at every whole multiple of its period.
pub open spec fn expires_at(interval_ms: nat, elapsed_ms: nat) -> bool {
    interval_ms > 0 && elapsed_ms > 0 && elapsed_ms % interval_ms == 0
}

/// How often a periodic timer with period `interval_ms` expires within the
/// first `window_ms` milliseconds after it was armed: the number of
/// milliseconds in that window at which it expires.
pub open spec fn expirations(interval_ms: nat, window_ms: nat) -> nat
    decreases window_ms,
{
    if window_ms == 0 {
        0
    } else {
        expirations(interval_ms, (window_ms - 1) as nat) + (if expires_at(
            interval_ms,
            window_ms,
        ) {
            1nat
        } else {
            0nat
        })
    }
}

/// Looks up the period of a registered timer.
pub fn interval_ms(token: TimerToken) -> (interval: Option<u64>)
    ensures
        interval == interval_of(token),
{
    if token == CLIENT_TICK_TIMER {
        Some(CLIENT_TICK_MS)
    } else if token == SNAPSHOT_TICK_TIMER {
        Some(SNAPSHOT_TICK_MS)
    } else {
        None
    }
}

/// The timers to register, first the client tick, then the snapshot tick.
pub fn registrations() -> (timers: Vec<TimerRegistration>)
    ensures
        timers@ == registry(),
{
    let mut timers: Vec<TimerRegistration> = Vec::new();
    timers.push(TimerRegistration { token: CLIENT_TICK_TIMER, interval_ms: CLIENT_TICK_MS });
    timers.push(TimerRegistration { token: SNAPSHOT_TICK_TIMER, interval_ms: SNAPSHOT_TICK_MS });
    assert(timers@ =~= registry());
    timers
}

/// Counts the expiries of the timer under `token` within a window that starts
/// when the timer is armed. A token that is not registered never expires.
pub fn expirations_within(token: TimerToken, window_ms: u64) -> (count: u64)
    ensures
        count == match interval_of(token) {
            Some(interval) => expirations(interval as nat, window_ms as nat),
            None => 0,
        },
        count == match interval_of(token) {
            Some(interval) => window_ms as nat / interval as nat,
            None => 0,
        },
{
    match interval_ms(token) {
        Some(interval) => {
            proof {
                lemma_expirations_is_quotient(interval as nat, window_ms as nat);
            }
            window_ms / interval
        },
        None => 0,
    }
}

/// A periodic timer expires as often within a window as its period fits
/// into the window.
pub proof fn lemma_expirations_is_quotient(interval_ms: nat, window_ms: nat)
    requires
        interval_ms > 0,
    ensures
        expirations(interval_ms, window_ms) == window_ms / interval_ms,
    decreases window_ms,
{
    let period = interval_ms as int;
    if window_ms == 0 {
        assert(0int / period == 0) by {
            vstd::arithmetic::div_mod::lemma_fundamental_div_mod_converse(0, period, 0, 0);
        }
    } else {
        let window = window_ms as int;
        let before = window - 1;
        lemma_expirations_is_quotient(interval_ms, before as nat);
        let quotient = window / period;
        let rest = window % period;
        vstd::arithmetic::div_mod::lemma_fundamental_div_mod(window, period);
        vstd::arithmetic::div_mod::lemma_mod_bound(window, period);
        assert(window == quotient * period + rest) by (nonlinear_arith)
            requires
                window == period * quotient + rest,
        ;
        if rest == 0 {
            assert(before == (quotient - 1) * period + (period - 1)) by (nonlinear_arith)
                requires
                    before == quotient * period - 1,
            ;
            vstd::arithmetic::div_mod::lemma_fundamental_div_mod_converse(
                before,
                period,
                quotient - 1,
                period - 1,
            );
        } else {
            vstd::arithmetic::div_mod::lemma_fundamental_div_mod_converse(
                before,
                period,
                quotient,
                rest - 1,
            );
        }
    }
}

/// Every registered timer has a period of at least one millisecond, and no
/// token is registered twice.
pub proof fn lemma_registry_is_well_formed()
    ensures
        forall|i: int| 0 <= i < registry().len() ==> (#[trigger] registry()[i]).interval_ms > 0,
        forall|i: int, j: int|
            0 <= i < j < registry().len() ==> (#[trigger] registry()[i]).token != (
            #[trigger] registry()[j]).token,
        forall|i: int|
            0 <= i < registry().len() ==> interval_of((#[trigger] registry()[i]).token) == Some(
                registry()[i].interval_ms,
            ),
{
}

/// Over any window of at least one snapshot period, the client tick expires
/// at least twice for every expiry of the snapshot tick, and the snapshot
/// tick expires at least once. How often a timer expires depends on its own
/// period alone, not on what else is registered.
pub proof fn lemma_client_ticks_twice_per_snapshot_tick(window_ms: nat)
    requires
        window_ms >= SNAPSHOT_TICK_MS,
    ensures
        expirations(SNAPSHOT_TICK_MS as nat, window_ms) >= 1,
        expirations(CLIENT_TICK_MS as nat, window_ms) >= 2 * expirations(
            SNAPSHOT_TICK_MS as nat,
            window_ms,
        ),
{
    lemma_expirations_is_quotient(SNAPSHOT_TICK_MS as nat, window_ms);
    lemma_expirations_is_quotient(CLIENT_TICK_MS as nat, window_ms);
}

/// Whenever the snapshot tick expires, the client tick expires too.
pub proof fn lemma_snapshot_tick_coincides_with_client_tick(elapsed_ms: nat)
    requires
        expires_at(SNAPSHOT_TICK_MS as nat, elapsed_ms),
    ensures
        expires_at(CLIENT_TICK_MS as nat, elapsed_ms),
{
}

} // verus!
