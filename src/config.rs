use vstd::prelude::*;
use crate::phase::Phase;

verus! {

/// The longest duration, in minutes, whose length in seconds fits a `u32`.
pub const MAX_MINUTES: u32 = 71582788;

/// A duration in minutes that the clock accepts: positive, and short
/// enough that its length in seconds fits a `u32`.
pub open spec fn valid_minutes(m: nat) -> bool {
    0 < m && m <= MAX_MINUTES
}

/// The value of a non-empty run of decimal digits.
pub open spec fn decimal_value(s: Seq<char>) -> nat
    decreases s.len(),
{
    if s.len() == 0 {
        0
    } else {
        decimal_value(s.drop_last()) * 10 + (s.last() as nat - '0' as nat) as nat
    }
}

pub open spec fn is_digit(c: char) -> bool {
    '0' <= c && c <= '9'
}

pub open spec fn all_digits(s: Seq<char>) -> bool {
    forall|i: int| 0 <= i < s.len() ==> is_digit(#[trigger] s[i])
}

/// The digits of a settings entry: the text without one leading `+`.
pub open spec fn unsigned_part(s: Seq<char>) -> Seq<char> {
    if s.len() > 0 && s[0] == '+' {
        s.drop_first()
    } else {
        s
    }
}

/// The duration that a settings entry states, if it is a well-formed
/// decimal number of minutes that the clock accepts.
pub open spec fn minutes_of_text(s: Seq<char>) -> Option<nat> {
    let d = unsigned_part(s);
    if d.len() > 0 && all_digits(d) && valid_minutes(decimal_value(d)) {
        Some(decimal_value(d))
    } else {
        None
    }
}

/// The durations of the three phases and the sound played when one ends.
#[derive(Clone, Debug)]
pub struct Configuration {
    pub focus_minutes: u32,
    pub short_break_minutes: u32,
    pub long_break_minutes: u32,
    pub alarm_path: String,
}

impl Configuration {
    /// All three durations are positive and fit the clock.
    pub open spec fn wf(&self) -> bool {
        &&& valid_minutes(self.focus_minutes as nat)
        &&& valid_minutes(self.short_break_minutes as nat)
        &&& valid_minutes(self.long_break_minutes as nat)
    }

    pub open spec fn spec_minutes_for(&self, phase: Phase) -> nat {
        match phase {
            Phase::Focus => self.focus_minutes as nat,
            Phase::ShortBreak => self.short_break_minutes as nat,
            Phase::LongBreak => self.long_break_minutes as nat,
        }
    }

    /// The full length of `phase`, in seconds.
    pub open spec fn spec_seconds_for(&self, phase: Phase) -> nat {
        self.spec_minutes_for(phase) * 60
    }

    /// The default durations: 25, 5 and 15 minutes, with `alarm.mp3`.
    pub fn new_default() -> (r: Configuration)
        ensures
            r.focus_minutes == 25,
            r.short_break_minutes == 5,
            r.long_break_minutes == 15,
            r.alarm_path@ == "alarm.mp3"@,
            r.wf(),
    {
        Configuration {
            focus_minutes: 25,
            short_break_minutes: 5,
            long_break_minutes: 15,
            alarm_path: String::from_str("alarm.mp3"),
        }
    }

    /// The configuration that was loaded, if there is one and it is valid;
    /// otherwise the default configuration.
    pub fn loaded_or_default(loaded: Option<Configuration>) -> (r: Configuration)
        ensures
            r.wf(),
            loaded is Some && loaded->0.wf() ==> r == loaded->0,
            !(loaded is Some && loaded->0.wf()) ==> r.focus_minutes == 25
                && r.short_break_minutes == 5 && r.long_break_minutes == 15
                && r.alarm_path@ == "alarm.mp3"@,
    {
        match loaded {
            Some(c) => if c.focus_minutes >= 1 && c.focus_minutes <= MAX_MINUTES
                && c.short_break_minutes >= 1 && c.short_break_minutes <= MAX_MINUTES
                && c.long_break_minutes >= 1 && c.long_break_minutes <= MAX_MINUTES {
                c
            } else {
                Configuration::new_default()
            },
            None => Configuration::new_default(),
        }
    }

    /// The duration in minutes of `phase`.
    pub fn minutes_for(&self, phase: Phase) -> (r: u32)
        ensures
            r as nat == self.spec_minutes_for(phase),
    {
        match phase {
            Phase::Focus => self.focus_minutes,
            Phase::ShortBreak => self.short_break_minutes,
            Phase::LongBreak => self.long_break_minutes,
        }
    }

    /// The full length of `phase`, in seconds.
    pub fn seconds_for(&self, phase: Phase) -> (r: u32)
        requires
            self.wf(),
        ensures
            r as nat == self.spec_seconds_for(phase),
    {
        self.minutes_for(phase) * 60
    }

    /// The configuration after the user edits the three duration entries:
    /// each entry that states a valid duration replaces the old one, any
    /// other entry leaves it as it was.
    pub fn with_entries(&self, focus: &str, short_break: &str, long_break: &str) -> (r:
        Configuration)
        ensures
            r.focus_minutes as nat == minutes_or(focus@, self.focus_minutes as nat),
            r.short_break_minutes as nat == minutes_or(short_break@, self.short_break_minutes as nat),
            r.long_break_minutes as nat == minutes_or(long_break@, self.long_break_minutes as nat),
            r.alarm_path == self.alarm_path,
            self.wf() ==> r.wf(),
    {
        Configuration {
            focus_minutes: entry_or(focus, self.focus_minutes),
            short_break_minutes: entry_or(short_break, self.short_break_minutes),
            long_break_minutes: entry_or(long_break, self.long_break_minutes),
            alarm_path: self.alarm_path.clone(),
        }
    }
}

/// The duration a settings entry states, or `previous` where it states none.
pub open spec fn minutes_or(s: Seq<char>, previous: nat) -> nat {
    match minutes_of_text(s) {
        Some(m) => m,
        None => previous,
    }
}

fn entry_or(text: &str, previous: u32) -> (r: u32)
    ensures
        r as nat == minutes_or(text@, previous as nat),
{
    match parse_minutes(text) {
        Some(m) => m,
        None => previous,
    }
}

proof fn lemma_decimal_push(s: Seq<char>, c: char)
    ensures
        decimal_value(s.push(c)) == decimal_value(s) * 10 + (c as nat - '0' as nat) as nat,
{
    assert(s.push(c).drop_last() =~= s);
}

/// Reads a settings entry as a duration in minutes: an optional `+`
/// followed by decimal digits, whose value the clock accepts.
pub fn parse_minutes(text: &str) -> (r: Option<u32>)
    ensures
        match minutes_of_text(text@) {
            Some(m) => r == Some(m as u32),
            None => r is None,
        },
{
    let n = text.unicode_len();
    let mut i: usize = 0;
    if n > 0 && text.get_char(0) == '+' {
        i = 1;
    }
    let start = i;
    let ghost d = unsigned_part(text@);
    assert(d =~= text@.subrange(start as int, n as int));
    if start == n {
        return None;
    }
    let mut value: u64 = 0;
    let mut too_large = false;
    while i < n
        invariant
            start <= i <= n,
            n == text@.len(),
            d == unsigned_part(text@),
            d =~= text@.subrange(start as int, n as int),
            all_digits(text@.subrange(start as int, i as int)),
            !too_large ==> value as nat == decimal_value(text@.subrange(start as int, i as int)),
            !too_large ==> value <= MAX_MINUTES,
            too_large ==> decimal_value(text@.subrange(start as int, i as int)) > MAX_MINUTES,
        decreases n - i,
    {
        let c = text.get_char(i);
        if !('0' <= c && c <= '9') {
            assert(!is_digit(d[i - start]));
            assert(!all_digits(d));
            return None;
        }
        let ghost prefix = text@.subrange(start as int, i as int);
        assert(text@.subrange(start as int, i + 1) =~= prefix.push(c));
        proof {
            lemma_decimal_push(prefix, c);
        }
        if !too_large {
            let digit = (c as u32 - '0' as u32) as u64;
            value = value * 10 + digit;
            if value > MAX_MINUTES as u64 {
                too_large = true;
            }
        }
        i = i + 1;
    }
    assert(text@.subrange(start as int, n as int) =~= d);
    if too_large || value == 0 {
        None
    } else {
        Some(value as u32)
    }
}

} // verus!
