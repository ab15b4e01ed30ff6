//! Instants of the store, and how long ago one was as a row shows it.
use crate::text::{decimal, joined, number_text, Text};
use vstd::prelude::*;

verus! {

/// The nanoseconds since the Unix epoch of the first instant a timestamp names.
pub const EARLIEST: i128 = -377_705_023_201_000_000_000;

/// The nanoseconds since the Unix epoch of the last instant a timestamp names.
pub const LATEST: i128 = 253_402_207_200_999_999_999;

/// The nanoseconds in a second.
pub const SECOND: i128 = 1_000_000_000;

/// The seconds in a minute.
pub const MINUTE: u64 = 60;

/// The seconds in an hour.
pub const HOUR: u64 = 3600;

/// The seconds in a day.
pub const DAY: u64 = 86400;

/// The seconds in a week.
pub const WEEK: u64 = 604800;

/// Whether a timestamp names this many nanoseconds since the Unix epoch.
pub open spec fn is_instant(nanos: int) -> bool {
    EARLIEST <= nanos <= LATEST
}

/// How `jiff::Timestamp` writes the instant this many nanoseconds from the Unix
/// epoch.
pub uninterp spec fn timestamp_text(nanos: int) -> Text;

/// `jiff::Timestamp::from_nanosecond` followed by `Timestamp::as_nanosecond`: there
/// is a timestamp exactly for the nanoseconds between the first and the last instant
/// one can name, and it gives back the nanoseconds it was made from.
#[verifier::external_body]
fn timestamp_nanosecond(nanos: i128) -> (r: Option<i128>)
    ensures
        r is Some <==> is_instant(nanos as int),
        r matches Some(named) ==> named == nanos,
{
    jiff::Timestamp::from_nanosecond(nanos).ok().map(|t| t.as_nanosecond())
}

/// `jiff::Timestamp`'s `Display`, on the timestamp `Timestamp::from_nanosecond`
/// makes: there is one exactly for the nanoseconds in range, and what it is
/// written as is a function of them alone.
#[verifier::external_body]
fn timestamp_display(nanos: i128) -> (r: Option<String>)
    ensures
        r is Some <==> is_instant(nanos as int),
        r matches Some(text) ==> text@ == timestamp_text(nanos as int),
{
    jiff::Timestamp::from_nanosecond(nanos).ok().map(|t| t.to_string())
}

/// An instant of the store's, to the nanosecond.
///
/// Invariant: always one a timestamp can name.
#[derive(Clone, Copy, Debug, PartialEq, Eq)]
pub struct Moment {
    nanos: i128,
}

impl View for Moment {
    type V = int;

    closed spec fn view(&self) -> int {
        self.nanos as int
    }
}

impl Moment {
    #[verifier::type_invariant]
    spec fn nameable(self) -> bool {
        is_instant(self.nanos as int)
    }

    /// The instant this many nanoseconds from the Unix epoch, or nothing where no
    /// timestamp names it.
    pub fn at(nanos: i128) -> (r: Option<Moment>)
        ensures
            r is Some <==> is_instant(nanos as int),
            r matches Some(moment) ==> moment@ == nanos,
    {
        match timestamp_nanosecond(nanos) {
            Some(nanos) => Some(Moment { nanos }),
            None => None,
        }
    }

    /// The nanoseconds since the Unix epoch, which lie between the first and the
    /// last a timestamp can name.
    pub fn as_nanosecond(self) -> (r: i128)
        ensures
            r == self@,
            is_instant(self@),
    {
        proof {
            use_type_invariant(&self);
        }
        self.nanos
    }

    /// The instant in full, as every other surface of the store's writes one.
    pub fn shown(self) -> (r: String)
        ensures
            r@ == timestamp_text(self@),
    {
        proof {
            use_type_invariant(&self);
        }
        match timestamp_display(self.nanos) {
            Some(text) => text,
            None => String::new(),
        }
    }
}

/// How many whole seconds lie between a stamp and the clock: none where the stamp is
/// ahead of it, because that is a skewed writer rather than a comment from the
/// future.
pub open spec fn seconds_since(created: int, now: int) -> nat {
    if now > created {
        ((now - created) / SECOND as int) as nat
    } else {
        0
    }
}

/// An age as a row shows it, from the seconds in it.
pub open spec fn age_text(seconds: nat) -> Text {
    if seconds < MINUTE {
        "just now"@
    } else if seconds < HOUR {
        decimal(seconds / MINUTE as nat) + "m ago"@
    } else if seconds < DAY {
        decimal(seconds / HOUR as nat) + "h ago"@
    } else if seconds < WEEK {
        decimal(seconds / DAY as nat) + "d ago"@
    } else {
        decimal(seconds / WEEK as nat) + "w ago"@
    }
}

/// How long ago a stamp was, coarsely and always rounded down, so "3h" is never
/// read as four.
pub fn age(created: Moment, now: Moment) -> (r: String)
    ensures
        r@ == age_text(seconds_since(created@, now@)),
{
    let from: i128 = created.as_nanosecond();
    let to: i128 = now.as_nanosecond();
    let seconds: u64 = if to > from {
        ((to - from) / SECOND) as u64
    } else {
        0
    };
    if seconds < MINUTE {
        "just now".to_owned()
    } else if seconds < HOUR {
        joined(&number_text(seconds / MINUTE), "m ago")
    } else if seconds < DAY {
        joined(&number_text(seconds / HOUR), "h ago")
    } else if seconds < WEEK {
        joined(&number_text(seconds / DAY), "d ago")
    } else {
        joined(&number_text(seconds / WEEK), "w ago")
    }
}

/// The units an age is counted in, largest first, each with the word it goes by.
pub open spec fn age_units() -> Seq<(nat, Text)> {
    seq![
        (WEEK as nat, "w ago"@),
        (DAY as nat, "d ago"@),
        (HOUR as nat, "h ago"@),
        (MINUTE as nat, "m ago"@),
    ]
}

/// A stamp less than a minute behind the clock, or ahead of it, reads as new, and any
/// other reads as a whole number of some unit that the time between the two has
/// reached and not yet passed the next of, to the nanosecond: an age is always rounded
/// down.
pub proof fn an_age_is_rounded_down(created: int, now: int)
    ensures
        ({
            let shown = age_text(seconds_since(created, now));
            let elapsed = now - created;
            if elapsed < MINUTE * SECOND {
                shown == "just now"@
            } else {
                exists|unit: int, count: nat|
                    0 <= unit < age_units().len() && shown == #[trigger] decimal(count)
                        + #[trigger] age_units()[unit].1 && 0 < count && count
                        * age_units()[unit].0 * SECOND <= elapsed < (count + 1)
                        * age_units()[unit].0 * SECOND
            }
        }),
{
    let elapsed = now - created;
    let seconds = seconds_since(created, now);
    if elapsed >= MINUTE * SECOND {
        assert(seconds * SECOND <= elapsed < (seconds + 1) * SECOND);
        let unit: int = if seconds < HOUR {
            3
        } else if seconds < DAY {
            2
        } else if seconds < WEEK {
            1
        } else {
            0
        };
        let size = age_units()[unit].0;
        let count = seconds / size;
        assert(age_text(seconds) == decimal(count) + age_units()[unit].1);
        vstd::arithmetic::div_mod::lemma_fundamental_div_mod(seconds as int, size as int);
        assert(count * size <= seconds < (count + 1) * size) by (nonlinear_arith)
            requires
                seconds == size * count + seconds % size,
                0 <= seconds % size < size,
        ;
    }
}

/// A stamp that is not behind the clock reads as new, never as a negative age.
pub proof fn a_stamp_ahead_of_the_clock_reads_as_new(created: int, now: int)
    requires
        created >= now,
    ensures
        age_text(seconds_since(created, now)) == "just now"@,
{
}

/// An age is told in the largest unit the time between the two instants has reached:
/// as new below a minute, in minutes below an hour, in hours below a day, in days
/// below a week, and in weeks from there on; and always as the number of whole units
/// that have gone by.
pub proof fn an_age_is_told_in_the_largest_unit_reached(created: int, now: int, count: nat)
    ensures
        ({
            let shown = age_text(seconds_since(created, now));
            let gone = now - created;
            let minute: int = 60_000_000_000;
            let hour: int = 3_600_000_000_000;
            let day: int = 86_400_000_000_000;
            let week: int = 604_800_000_000_000;
            &&& gone < minute ==> shown == "just now"@
            &&& minute <= gone < hour && count * minute <= gone < count * minute + minute ==> shown
                == decimal(count) + "m ago"@
            &&& hour <= gone < day && count * hour <= gone < count * hour + hour ==> shown
                == decimal(count) + "h ago"@
            &&& day <= gone < week && count * day <= gone < count * day + day ==> shown == decimal(
                count,
            ) + "d ago"@
            &&& week <= gone && count * week <= gone < count * week + week ==> shown == decimal(
                count,
            ) + "w ago"@
        }),
{
    let gone = now - created;
    let seconds = seconds_since(created, now);
    if gone >= 60_000_000_000 {
        assert(seconds * 1_000_000_000 <= gone < seconds * 1_000_000_000 + 1_000_000_000);
    }
}

} // verus!
