//! The progress clock: elapsed and total time of the playing track, and the
//! share of it that has been played.

use vstd::prelude::*;
use crate::text::{push_char, push_two_digits, two_digits};

verus! {

/// The share of a track that has been played is given in millionths.
pub const RATIO_SCALE: u64 = 1_000_000;

/// What the progress bar shows; times are in milliseconds.
#[derive(Clone, Copy, Debug, PartialEq, Eq, Structural)]
pub struct Progress {
    /// Time played, never more than `tot_time`.
    pub cur_time: u64,
    /// Length of the track.
    pub tot_time: u64,
    /// `cur_time / tot_time` in millionths, or 0 for a track of no length.
    pub ratio: u64,
}

/// `elapsed / total` in millionths, rounded down; 0 when `total` is 0.
pub open spec fn ratio_of(elapsed: nat, total: nat) -> nat {
    if total == 0 {
        0
    } else {
        (elapsed * RATIO_SCALE as nat / total) as nat
    }
}

/// The progress of a track of length `duration` (`None` when nothing plays) whose
/// engine reports `position` played. A position past the end counts as the end.
pub open spec fn progress_of(duration: Option<u64>, position: u64) -> Progress {
    match duration {
        None => Progress { cur_time: 0, tot_time: 0, ratio: 0 },
        Some(total) => {
            let elapsed = if position > total {
                total
            } else {
                position
            };
            Progress {
                cur_time: elapsed,
                tot_time: total,
                ratio: ratio_of(elapsed as nat, total as nat) as u64,
            }
        },
    }
}

/// Whatever the engine reports, the share played lies between none and all of
/// the track, the time played is at most the track's length, nothing playing
/// shows no progress, and a track of no length shows no progress.
pub proof fn lemma_progress_in_range(duration: Option<u64>, position: u64)
    ensures
        progress_of(duration, position).ratio <= RATIO_SCALE,
        progress_of(duration, position).cur_time <= progress_of(duration, position).tot_time,
        duration is None ==> progress_of(duration, position) == (Progress {
            cur_time: 0,
            tot_time: 0,
            ratio: 0,
        }),
        duration == Some(0u64) ==> progress_of(duration, position).ratio == 0,
{
    if let Some(total) = duration {
        let elapsed = if position > total {
            total
        } else {
            position
        };
        if total > 0 {
            let e = elapsed as int;
            let t = total as int;
            let k = RATIO_SCALE as int;
            assert(e * k <= t * k) by (nonlinear_arith)
                requires
                    e <= t,
                    k > 0,
            ;
            assert(e * k / t <= k) by (nonlinear_arith)
                requires
                    e * k <= t * k,
                    t > 0,
            ;
            assert(0 <= e * k / t) by (nonlinear_arith)
                requires
                    e >= 0,
                    k > 0,
                    t > 0,
            ;
        }
    }
}

impl Progress {
    /// Nothing is playing.
    pub fn idle() -> (r: Progress)
        ensures
            r == progress_of(None, 0),
    {
        Progress { cur_time: 0, tot_time: 0, ratio: 0 }
    }
}

/// Computes the progress of a track of length `duration` (`None` when nothing
/// plays) at the engine's reported `position`.
pub fn recompute(duration: Option<u64>, position: u64) -> (r: Progress)
    ensures
        r == progress_of(duration, position),
        r.ratio <= RATIO_SCALE,
        r.cur_time <= r.tot_time,
        duration is None ==> r.ratio == 0,
        r.tot_time == 0 ==> r.ratio == 0,
{
    match duration {
        None => Progress::idle(),
        Some(total) => {
            let elapsed = if position > total {
                total
            } else {
                position
            };
            let ratio: u64 = if total == 0 {
                0
            } else {
                let e = elapsed as u128;
                let t = total as u128;
                proof {
                    let ei = e as int;
                    let ti = t as int;
                    let k = RATIO_SCALE as int;
                    assert(ei * k <= ti * k) by (nonlinear_arith)
                        requires
                            ei <= ti,
                            k > 0,
                    ;
                    assert(ei * k / ti <= k) by (nonlinear_arith)
                        requires
                            ei * k <= ti * k,
                            ti > 0,
                    ;
                    assert(ei * k <= u128::MAX) by (nonlinear_arith)
                        requires
                            0 <= ei <= u64::MAX,
                            k == 1_000_000,
                    ;
                }
                ((e * (RATIO_SCALE as u128)) / t) as u64
            };
            Progress { cur_time: elapsed, tot_time: total, ratio }
        },
    }
}

/// The clock text of a time in milliseconds: whole minutes and the seconds
/// within the minute, each of at least two digits, separated by a colon.
pub open spec fn clock_text(ms: u64) -> Seq<char> {
    let secs = ms as nat / 1000;
    two_digits(secs / 60) + seq![':'] + two_digits(secs % 60)
}

/// The label of the progress bar: time played, a slash, length of the track.
pub open spec fn gauge_text(progress: Progress) -> Seq<char> {
    clock_text(progress.cur_time) + seq!['/'] + clock_text(progress.tot_time)
}

/// Appends the clock text of `ms` to `s`.
pub fn push_clock(s: &mut String, ms: u64)
    ensures
        final(s)@ == old(s)@ + clock_text(ms),
{
    let secs = ms / 1000;
    push_two_digits(s, secs / 60);
    push_char(s, ':');
    push_two_digits(s, secs % 60);
    assert(s@ =~= old(s)@ + clock_text(ms));
}

/// The clock text of `ms`, such as `03:07`.
pub fn clock_label(ms: u64) -> (r: String)
    ensures
        r@ == clock_text(ms),
{
    let mut s = String::new();
    push_clock(&mut s, ms);
    assert(s@ =~= clock_text(ms));
    s
}

/// The label of the progress bar, such as `01:05/03:20`.
pub fn gauge_label(progress: &Progress) -> (r: String)
    ensures
        r@ == gauge_text(*progress),
{
    let mut s = String::new();
    push_clock(&mut s, progress.cur_time);
    push_char(&mut s, '/');
    push_clock(&mut s, progress.tot_time);
    assert(s@ =~= gauge_text(*progress));
    s
}

} // verus!
