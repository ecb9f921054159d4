//! Time: the clock of the machine, and the pause that keeps two shows of a
//! tile a frame time apart.

use vstd::prelude::*;

verus! {

/// `std::time::SystemTime`: a reading of the clock, which is handed on and
/// never looked into.
#[verifier::external_type_specification]
#[verifier::external_body]
pub struct ExSystemTime(std::time::SystemTime);

/// Calls `std::time::SystemTime::now`. The result is whatever the clock of
/// the machine says, so nothing is claimed of it.
#[verifier::external_body]
fn system_now() -> std::time::SystemTime {
    std::time::SystemTime::now()
}

/// Calls `std::time::SystemTime::duration_since` with the Unix epoch. It
/// fails for a time before the epoch, which gives `None` here. Nothing is
/// claimed of the duration.
#[verifier::external_body]
fn since_epoch(time: &std::time::SystemTime) -> Option<std::time::Duration> {
    match time.duration_since(std::time::SystemTime::UNIX_EPOCH) {
        Ok(elapsed) => Some(elapsed),
        Err(_) => None,
    }
}

/// Calls `std::time::Duration::as_millis`: the whole milliseconds that a
/// duration holds. Nothing is claimed of the number.
#[verifier::external_body]
fn whole_millis(elapsed: &std::time::Duration) -> u128 {
    elapsed.as_millis()
}

/// The count of milliseconds that a reading of the clock gives: `elapsed`
/// is the whole milliseconds since the Unix epoch, or `None` for a clock
/// that stands before the epoch. Such a clock counts as the epoch itself,
/// and a count that does not fit is the largest that does.
pub open spec fn epoch_millis(elapsed: Option<u128>) -> u64 {
    match elapsed {
        Some(millis) => if millis > u64::MAX {
            u64::MAX
        } else {
            millis as u64
        },
        None => 0,
    }
}

/// Turns a reading of the clock into a count of milliseconds.
pub fn millis_from(elapsed: Option<u128>) -> (millis: u64)
    ensures
        millis == epoch_millis(elapsed),
{
    match elapsed {
        Some(millis) => {
            if millis > u64::MAX as u128 {
                u64::MAX
            } else {
                millis as u64
            }
        },
        None => 0,
    }
}

/// The milliseconds that have passed since the Unix epoch, by the clock of
/// the machine: what `millis_from` makes of the reading. Nothing can be
/// said of the number beyond that, since it is the clock that gives it.
pub fn millis_since_epoch() -> u64 {
    let now = system_now();
    let elapsed: Option<u128> = match since_epoch(&now) {
        Some(elapsed) => Some(whole_millis(&elapsed)),
        None => None,
    };
    millis_from(elapsed)
}

/// The milliseconds that passed from `earlier` to `now`. A clock that went
/// backwards counts as no time passed.
pub open spec fn elapsed_millis(now: u64, earlier: u64) -> u64 {
    if now >= earlier {
        (now - earlier) as u64
    } else {
        0
    }
}

/// How long a show that is asked for at `now` has to wait, when the last
/// one was written at `last` and two shows must lie `frame_time`
/// milliseconds apart.
pub open spec fn pause_before_show(now: u64, last: u64, frame_time: u64) -> u64 {
    if elapsed_millis(now, last) < frame_time {
        (frame_time - elapsed_millis(now, last)) as u64
    } else {
        0
    }
}

/// After the pause a full frame time has passed since the last show, and
/// the pause is no longer than that needs: it is zero once the frame time
/// has passed, and never more than the frame time.
pub proof fn lemma_pause_keeps_frame_time(now: u64, last: u64, frame_time: u64)
    requires
        now >= last,
    ensures
        now + pause_before_show(now, last, frame_time) >= last + frame_time,
        pause_before_show(now, last, frame_time) <= frame_time,
        now - last >= frame_time ==> pause_before_show(now, last, frame_time) == 0,
        now - last < frame_time ==> now + pause_before_show(now, last, frame_time) == last
            + frame_time,
{
}

/// Computes the pause before a show: what is left of the frame time since
/// the last show, or nothing.
pub fn pacing_delay(now: u64, last: u64, frame_time: u64) -> (pause: u64)
    ensures
        pause == pause_before_show(now, last, frame_time),
{
    let elapsed: u64 = now.saturating_sub(last);
    if elapsed < frame_time {
        frame_time - elapsed
    } else {
        0
    }
}

} // verus!
