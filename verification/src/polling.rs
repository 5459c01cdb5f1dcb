use vstd::prelude::*;
use vstd::arithmetic::power2::*;

verus! {

/// Delay before the first retry after a failed poll.
pub const RETRY_BASE_MS: u32 = 30_000;
pub const POLL_1_MIN: u32 = 60_000;
pub const POLL_5_MIN: u32 = 300_000;
pub const POLL_15_MIN: u32 = 900_000;
pub const POLL_1_HOUR: u32 = 3_600_000;
/// Interval of the fast poll while a reset time has passed.
pub const RESET_POLL_MS: u32 = 5_000;
/// Countdown refresh when no reset time is known.
pub const DEFAULT_COUNTDOWN_MS: u128 = 60_000;
/// The countdown never refreshes faster than this.
pub const MIN_COUNTDOWN_MS: u128 = 1_000;
/// Tray movements closer together than this are ignored.
pub const REPOSITION_DEBOUNCE_MS: u128 = 500;

/// The doubling factor of the `count`-th consecutive failure: `2^(count-1)`,
/// or `u32::MAX` once the shift would leave 32 bits.
pub open spec fn backoff_factor(count: nat) -> int {
    if count >= 1 && count - 1 < 32 {
        pow2((count - 1) as nat) as int
    } else {
        u32::MAX as int
    }
}

/// `30 s * 2^(count-1)`, held at `u32::MAX`.
pub open spec fn retry_backoff_ms(count: nat) -> int {
    let b = RETRY_BASE_MS as int * backoff_factor(count);
    if b > u32::MAX {
        u32::MAX as int
    } else {
        b
    }
}

/// The delay before the next poll after `count` consecutive failures:
/// the backoff, but never longer than the regular poll interval.
pub open spec fn retry_delay_ms(count: nat, poll_interval_ms: int) -> int {
    if retry_backoff_ms(count) < poll_interval_ms {
        retry_backoff_ms(count)
    } else {
        poll_interval_ms
    }
}

/// How long until the countdown text next changes: the nearer of the two
/// reset delays, one minute when neither is known, at least one second,
/// truncated to 32 bits.
pub open spec fn countdown_ms(session_ms: Option<u128>, weekly_ms: Option<u128>) -> u32 {
    let nearest: u128 = match (session_ms, weekly_ms) {
        (Some(a), Some(b)) => if a < b {
            a
        } else {
            b
        },
        (Some(a), None) => a,
        (None, Some(b)) => b,
        (None, None) => DEFAULT_COUNTDOWN_MS,
    };
    let at_least: u128 = if nearest > MIN_COUNTDOWN_MS {
        nearest
    } else {
        MIN_COUNTDOWN_MS
    };
    at_least as u32
}

/// Delay before the next poll after `retry_count` consecutive failures.
pub fn retry_delay(retry_count: u32, poll_interval_ms: u32) -> (r: u32)
    requires
        retry_count >= 1,
    ensures
        r == retry_delay_ms(retry_count as nat, poll_interval_ms as int),
{
    let shift = retry_count - 1;
    let factor: u32 = if shift < 32 {
        proof {
            vstd::bits::lemma_u32_pow2_no_overflow(shift as nat);
            vstd::bits::lemma_u32_shl_is_mul(1, shift);
        }
        1u32 << shift
    } else {
        u32::MAX
    };
    let backoff: u32 = if factor > u32::MAX / RETRY_BASE_MS {
        u32::MAX
    } else {
        RETRY_BASE_MS * factor
    };
    if backoff < poll_interval_ms {
        backoff
    } else {
        poll_interval_ms
    }
}

/// How long until the countdown text next changes, from the delays until the
/// session and weekly windows reset.
pub fn countdown_delay(session_ms: Option<u128>, weekly_ms: Option<u128>) -> (r: u32)
    ensures
        r == countdown_ms(session_ms, weekly_ms),
        match (session_ms, weekly_ms) {
            (Some(a), Some(b)) => 1000 <= a <= u32::MAX && 1000 <= b <= u32::MAX ==> r <= a && r <= b
                && (r == a || r == b),
            _ => true,
        },
{
    let nearest: u128 = match (session_ms, weekly_ms) {
        (Some(a), Some(b)) => if a < b {
            a
        } else {
            b
        },
        (Some(a), None) => a,
        (None, Some(b)) => b,
        (None, None) => DEFAULT_COUNTDOWN_MS,
    };
    let at_least: u128 = if nearest > MIN_COUNTDOWN_MS {
        nearest
    } else {
        MIN_COUNTDOWN_MS
    };
    at_least as u32
}

/// Whether a tray movement should move the widget: always the first time,
/// afterwards only when more than half a second passed since the last move.
pub fn should_reposition(elapsed_since_last_ms: Option<u128>) -> (r: bool)
    ensures
        r == match elapsed_since_last_ms {
            Some(e) => e > REPOSITION_DEBOUNCE_MS,
            None => true,
        },
{
    match elapsed_since_last_ms {
        Some(e) => e > REPOSITION_DEBOUNCE_MS,
        None => true,
    }
}

/// A retry never waits longer than the regular poll interval.
pub proof fn lemma_retry_within_interval(count: nat, poll_interval_ms: int)
    ensures
        retry_delay_ms(count, poll_interval_ms) <= poll_interval_ms,
{
}

/// Each further failure waits at least as long as the one before.
pub proof fn lemma_retry_nondecreasing(count: nat, poll_interval_ms: int)
    requires
        count >= 1,
    ensures
        retry_delay_ms(count, poll_interval_ms) <= retry_delay_ms(count + 1, poll_interval_ms),
{
    if count < 32 {
        lemma_pow2_strictly_increases((count - 1) as nat, count as nat);
    } else if count == 32 {
        vstd::bits::lemma_u32_pow2_no_overflow(31);
    }
}

/// The first retry waits 30 seconds, unless the poll interval is shorter.
pub proof fn lemma_first_retry(poll_interval_ms: int)
    ensures
        retry_delay_ms(1, poll_interval_ms) == if poll_interval_ms < 30_000 {
            poll_interval_ms
        } else {
            30_000
        },
{
    lemma2_to64();
}

/// The countdown refresh is always at least one second when it fits in 32 bits.
pub proof fn lemma_countdown_at_least_second(session_ms: Option<u128>, weekly_ms: Option<u128>)
    requires
        session_ms matches Some(a) ==> a <= u32::MAX,
        weekly_ms matches Some(b) ==> b <= u32::MAX,
    ensures
        countdown_ms(session_ms, weekly_ms) >= 1000,
{
}

/// Milliseconds from `earlier` to `now`, 0 when `now` is not later.
pub open spec fn elapsed_ms(now_ms: u128, earlier_ms: u128) -> u128 {
    if now_ms >= earlier_ms {
        (now_ms - earlier_ms) as u128
    } else {
        0
    }
}

/// One tray-movement callback: whether to move the widget, and the time of the
/// last move afterwards. Only movements of the notification area count, and
/// only when the widget has not moved in the last half second.
pub open spec fn tray_step(last_ms: Option<u128>, now_ms: u128, is_tray_window: bool) -> (bool, Option<u128>) {
    let due = match last_ms {
        Some(t) => elapsed_ms(now_ms, t) > REPOSITION_DEBOUNCE_MS,
        None => true,
    };
    if is_tray_window && due {
        (true, Some(now_ms))
    } else {
        (false, last_ms)
    }
}

/// Handles a movement reported for `is_tray_window` at `now_ms` (a monotonic
/// clock); returns whether to move the widget and records when it moved.
pub fn on_tray_location_changed(
    last_reposition_ms: &mut Option<u128>,
    now_ms: u128,
    is_tray_window: bool,
) -> (reposition: bool)
    ensures
        (reposition, *final(last_reposition_ms)) == tray_step(*old(last_reposition_ms), now_ms, is_tray_window),
{
    if !is_tray_window {
        return false;
    }
    let elapsed = match *last_reposition_ms {
        Some(t) => Some(if now_ms >= t {
            now_ms - t
        } else {
            0
        }),
        None => None,
    };
    if should_reposition(elapsed) {
        *last_reposition_ms = Some(now_ms);
        true
    } else {
        false
    }
}

/// Two moves of the widget in response to tray movements are more than half
/// a second apart, however the callbacks in between went.
pub proof fn lemma_repositions_apart(
    last_ms: Option<u128>,
    now1: u128,
    now2: u128,
    is_tray1: bool,
    is_tray2: bool,
)
    requires
        now1 <= now2,
        tray_step(last_ms, now1, is_tray1).0,
        tray_step(tray_step(last_ms, now1, is_tray1).1, now2, is_tray2).0,
    ensures
        now2 - now1 > REPOSITION_DEBOUNCE_MS,
{
}

/// A callback that does not move the widget leaves the time of the last move alone.
pub proof fn lemma_no_move_keeps_time(last_ms: Option<u128>, now: u128, is_tray: bool)
    ensures
        !tray_step(last_ms, now, is_tray).0 ==> tray_step(last_ms, now, is_tray).1 == last_ms,
{
}

/// With both reset delays known, the countdown refreshes at the nearer one
/// (when it is at least a second and fits in 32 bits): never later than either.
pub proof fn lemma_countdown_nearest(a: u128, b: u128)
    requires
        1000 <= a <= u32::MAX,
        1000 <= b <= u32::MAX,
    ensures
        countdown_ms(Some(a), Some(b)) <= a,
        countdown_ms(Some(a), Some(b)) <= b,
        countdown_ms(Some(a), Some(b)) == a || countdown_ms(Some(a), Some(b)) == b,
        countdown_ms(Some(a), Some(b)) == countdown_ms(Some(b), Some(a)),
{
}

/// With one reset delay known, the countdown refreshes at it, but not sooner
/// than a second; with none, after a minute.
pub proof fn lemma_countdown_single(a: u128)
    requires
        a <= u32::MAX,
    ensures
        countdown_ms(Some(a), None) == (if a < 1000 { 1000 } else { a }),
        countdown_ms(None, Some(a)) == (if a < 1000 { 1000 } else { a }),
        countdown_ms(None, None) == 60_000,
{
}

} // verus!
