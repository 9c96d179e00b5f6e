//! How old what is on screen is, as an analyst reads it.

use crate::moment::Moment;
use crate::text::append_decimal;
use vstd::prelude::*;

verus! {

use crate::moment::whole_seconds;
use crate::text::decimal;

/// How long a live feed may publish nothing before it counts as stalled.
pub const STALL_AFTER_SECONDS: i64 = 900;

/// An age in seconds, never negative: a clock a little ahead is no age at all.
pub open spec fn clamped_age(seconds: int) -> nat {
    if seconds < 0 {
        0
    } else {
        seconds as nat
    }
}

/// An age as one number and one unit, floored to the unit shown: seconds,
/// minutes, hours, days, and years of 365 days.
pub open spec fn age_text(seconds: int) -> Seq<char> {
    let s = clamped_age(seconds);
    if s < 60 {
        decimal(s) + " s"@
    } else if s < 3_600 {
        decimal(s / 60) + " min"@
    } else if s < 86_400 {
        decimal(s / 3_600) + " h"@
    } else if s < 31_536_000 {
        decimal(s / 86_400) + " d"@
    } else {
        decimal(s / 31_536_000) + " y"@
    }
}

/// A wall-clock age as an analyst reads it: `42 s`, `6 min`, `3 h`, `3 d`.
pub fn format_age(seconds: i64) -> (text: String)
    ensures
        text@ == age_text(seconds as int),
{
    let age: u64 = if seconds < 0 {
        0
    } else {
        seconds as u64
    };
    let mut text = String::new();
    if age < 60 {
        append_decimal(&mut text, age);
        text.append(" s");
    } else {
        let minutes: u64 = age / 60;
        if minutes < 60 {
            append_decimal(&mut text, minutes);
            text.append(" min");
        } else {
            let hours: u64 = minutes / 60;
            assert(hours == age / 3_600);
            if hours < 24 {
                append_decimal(&mut text, hours);
                text.append(" h");
            } else {
                let days: u64 = hours / 24;
                assert(days == age / 86_400);
                if days < 365 {
                    append_decimal(&mut text, days);
                    text.append(" d");
                } else {
                    append_decimal(&mut text, days / 365);
                    assert(days / 365 == age / 31_536_000);
                    text.append(" y");
                }
            }
        }
    }
    assert(text@ =~= age_text(seconds as int));
    text
}

/// How long an age readout that has been drawn still reads the same, in
/// seconds.
pub open spec fn repaint_interval(seconds: int) -> nat {
    let s = clamped_age(seconds);
    if s < 60 {
        1
    } else {
        (60 - s % 60) as nat
    }
}

/// How long the application may sleep before an age readout it has drawn would
/// read differently, in seconds: one under a minute, then to the next minute.
pub fn age_repaint_interval(seconds: i64) -> (wait: u64)
    ensures
        wait == repaint_interval(seconds as int),
        1 <= wait <= 60,
{
    if seconds < 60 {
        1
    } else {
        60 - (seconds as u64) % 60
    }
}

/// An age readout wakes the application no later than the text it drew would
/// change.
pub proof fn law_an_age_reads_the_same_until_the_wake(seconds: int, later: int)
    requires
        seconds <= later < seconds + repaint_interval(seconds),
    ensures
        age_text(later) == age_text(seconds),
{
    let s = clamped_age(seconds);
    let l = clamped_age(later);
    if s >= 60 {
        assert(l / 60 == s / 60);
        assert(l / 3_600 == s / 3_600);
        assert(l / 86_400 == s / 86_400);
        assert(l / 31_536_000 == s / 31_536_000);
    }
}

/// A feed that is not stalled yet is looked at again no later than the moment
/// it would be.
pub proof fn law_the_wake_comes_before_the_stall(seconds: int)
    requires
        seconds < STALL_AFTER_SECONDS,
    ensures
        seconds + repaint_interval(seconds) <= STALL_AFTER_SECONDS,
{
}

/// How old a volume is at `now`: whole seconds, never negative.
pub open spec fn volume_age(volume_time: Moment, now: Moment) -> nat {
    clamped_age(whole_seconds(now.total_nanos() - volume_time.total_nanos()))
}

/// How old a volume is at `now`, in whole seconds, never negative.
pub fn volume_age_at(volume_time: &Moment, now: &Moment) -> (age: i64)
    ensures
        age == volume_age(*volume_time, *now),
{
    let elapsed: i64 = now.seconds_since(volume_time);
    if elapsed < 0 {
        0
    } else {
        elapsed
    }
}

/// As the clock moves on, a volume gets no younger.
pub proof fn law_age_grows_with_the_clock(volume_time: Moment, now: Moment, later: Moment)
    requires
        now.total_nanos() <= later.total_nanos(),
    ensures
        volume_age(volume_time, now) <= volume_age(volume_time, later),
{
}

/// An age is told in the largest unit that has passed once, and in whole ones:
/// as many as have passed and not one more.
pub proof fn law_an_age_is_told_in_the_largest_unit(seconds: int) -> (told: (nat, nat))
    ensures
        ({
            let age = if seconds < 0 {
                0
            } else {
                seconds
            };
            let (count, unit) = told;
            &&& unit == 1 || unit == 60 || unit == 3_600 || unit == 86_400 || unit == 31_536_000
            &&& age < 60 <==> unit == 1
            &&& 60 <= age < 3_600 <==> unit == 60
            &&& 3_600 <= age < 86_400 <==> unit == 3_600
            &&& 86_400 <= age < 31_536_000 <==> unit == 86_400
            &&& count * unit <= age < (count + 1) * unit
            &&& age_text(seconds) == decimal(count) + (if unit == 1 {
                " s"@
            } else if unit == 60 {
                " min"@
            } else if unit == 3_600 {
                " h"@
            } else if unit == 86_400 {
                " d"@
            } else {
                " y"@
            })
        }),
{
    let age = clamped_age(seconds);
    if age < 60 {
        (age, 1nat)
    } else if age < 3_600 {
        (age / 60, 60nat)
    } else if age < 86_400 {
        (age / 3_600, 3_600nat)
    } else if age < 31_536_000 {
        (age / 86_400, 86_400nat)
    } else {
        (age / 31_536_000, 31_536_000nat)
    }
}

/// A volume's age is the whole seconds that have passed since its time, and none
/// where that time is yet to come.
pub proof fn law_an_age_is_whole_seconds(volume_time: Moment, now: Moment)
    ensures
        ({
            let passed = now.total_nanos() - volume_time.total_nanos();
            let age = volume_age(volume_time, now);
            &&& passed < 1_000_000_000 ==> age == 0
            &&& passed >= 0 ==> age * 1_000_000_000 <= passed < (age + 1) * 1_000_000_000
        }),
{
}

/// How long a drawn age may stand: a second in the first minute, then until the
/// minute is full.
pub proof fn law_the_wake_is_on_the_minute(seconds: int)
    ensures
        1 <= repaint_interval(seconds) <= 60,
        seconds < 60 ==> repaint_interval(seconds) == 1,
        seconds >= 60 ==> (seconds + repaint_interval(seconds)) % 60 == 0,
{
}

} // verus!
