//! The catalog of standard time lengths and their millisecond durations.

use vstd::prelude::*;

verus! {

pub const ONE_SECOND_MS: u128 = 1000;
pub const TWO_SECONDS_MS: u128 = 1000 * 2;
pub const THREE_SECONDS_MS: u128 = 1000 * 3;
pub const FIVE_SECONDS_MS: u128 = 1000 * 5;
pub const TEN_SECONDS_MS: u128 = 1000 * 10;
pub const FIFTEEN_SECONDS_MS: u128 = 1000 * 15;
pub const THIRTY_SECONDS_MS: u128 = 1000 * 30;
pub const ONE_MIN_MS: u128 = 1000 * 60;
pub const TWO_MINS_MS: u128 = ONE_MIN_MS * 2;
pub const THREE_MINS_MS: u128 = ONE_MIN_MS * 3;
pub const FIVE_MINS_MS: u128 = ONE_MIN_MS * 5;
pub const TEN_MINS_MS: u128 = ONE_MIN_MS * 10;
pub const FIFTEEN_MINS_MS: u128 = ONE_MIN_MS * 15;
pub const THIRTY_MINS_MS: u128 = ONE_MIN_MS * 30;
pub const ONE_HOUR_MS: u128 = ONE_MIN_MS * 60;
pub const TWO_HOURS_MS: u128 = ONE_HOUR_MS * 2;
pub const THREE_HOURS_MS: u128 = ONE_HOUR_MS * 3;
pub const SIX_HOURS_MS: u128 = ONE_HOUR_MS * 6;
pub const EIGHT_HOURS_MS: u128 = ONE_HOUR_MS * 8;
pub const TWELVE_HOURS_MS: u128 = ONE_HOUR_MS * 12;
pub const ONE_DAY_MS: u128 = ONE_HOUR_MS * 24;
pub const TWO_DAYS_MS: u128 = ONE_DAY_MS * 2;
pub const THREE_DAYS_MS: u128 = ONE_DAY_MS * 3;
pub const ONE_WEEK_MS: u128 = ONE_DAY_MS * 7;
pub const TWO_WEEKS_MS: u128 = ONE_DAY_MS * 14;
pub const THIRTY_DAYS_MS: u128 = ONE_DAY_MS * 30;

/// Represents various standard lengths of time.
#[derive(Debug, PartialEq, Eq, Structural, Hash, Clone, Copy)]
pub enum Timelength {
    OneSecond,
    TwoSeconds,
    ThreeSeconds,
    FiveSeconds,
    TenSeconds,
    FifteenSeconds,
    ThirtySeconds,
    OneMinute,
    TwoMinutes,
    ThreeMinutes,
    FiveMinutes,
    TenMinutes,
    FifteenMinutes,
    ThirtyMinutes,
    OneHour,
    TwoHours,
    ThreeHours,
    SixHours,
    EightHours,
    TwelveHours,
    OneDay,
    TwoDays,
    ThreeDays,
    OneWeek,
    TwoWeeks,
    ThirtyDays,
}

impl Timelength {
    /// The length of `self` in milliseconds.
    pub open spec fn millis(self) -> int {
        match self {
            Timelength::OneSecond => 1_000,
            Timelength::TwoSeconds => 2_000,
            Timelength::ThreeSeconds => 3_000,
            Timelength::FiveSeconds => 5_000,
            Timelength::TenSeconds => 10_000,
            Timelength::FifteenSeconds => 15_000,
            Timelength::ThirtySeconds => 30_000,
            Timelength::OneMinute => 60_000,
            Timelength::TwoMinutes => 120_000,
            Timelength::ThreeMinutes => 180_000,
            Timelength::FiveMinutes => 300_000,
            Timelength::TenMinutes => 600_000,
            Timelength::FifteenMinutes => 900_000,
            Timelength::ThirtyMinutes => 1_800_000,
            Timelength::OneHour => 3_600_000,
            Timelength::TwoHours => 7_200_000,
            Timelength::ThreeHours => 10_800_000,
            Timelength::SixHours => 21_600_000,
            Timelength::EightHours => 28_800_000,
            Timelength::TwelveHours => 43_200_000,
            Timelength::OneDay => 86_400_000,
            Timelength::TwoDays => 172_800_000,
            Timelength::ThreeDays => 259_200_000,
            Timelength::OneWeek => 604_800_000,
            Timelength::TwoWeeks => 1_209_600_000,
            Timelength::ThirtyDays => 2_592_000_000,
        }
    }

    /// The canonical token of `self`: a count, a hyphen and a unit, in lower
    /// case.
    pub open spec fn token(self) -> Seq<char> {
        match self {
            Timelength::OneSecond => "1-sec"@,
            Timelength::TwoSeconds => "2-sec"@,
            Timelength::ThreeSeconds => "3-sec"@,
            Timelength::FiveSeconds => "5-sec"@,
            Timelength::TenSeconds => "10-sec"@,
            Timelength::FifteenSeconds => "15-sec"@,
            Timelength::ThirtySeconds => "30-sec"@,
            Timelength::OneMinute => "1-min"@,
            Timelength::TwoMinutes => "2-min"@,
            Timelength::ThreeMinutes => "3-min"@,
            Timelength::FiveMinutes => "5-min"@,
            Timelength::TenMinutes => "10-min"@,
            Timelength::FifteenMinutes => "15-min"@,
            Timelength::ThirtyMinutes => "30-min"@,
            Timelength::OneHour => "1-hr"@,
            Timelength::TwoHours => "2-hr"@,
            Timelength::ThreeHours => "3-hr"@,
            Timelength::SixHours => "6-hr"@,
            Timelength::EightHours => "8-hr"@,
            Timelength::TwelveHours => "12-hr"@,
            Timelength::OneDay => "1-day"@,
            Timelength::TwoDays => "2-day"@,
            Timelength::ThreeDays => "3-day"@,
            Timelength::OneWeek => "1-wk"@,
            Timelength::TwoWeeks => "2-wk"@,
            Timelength::ThirtyDays => "30-day"@,
        }
    }

    /// The place of `self` in the catalog.
    pub open spec fn ordinal(self) -> int {
        match self {
            Timelength::OneSecond => 0,
            Timelength::TwoSeconds => 1,
            Timelength::ThreeSeconds => 2,
            Timelength::FiveSeconds => 3,
            Timelength::TenSeconds => 4,
            Timelength::FifteenSeconds => 5,
            Timelength::ThirtySeconds => 6,
            Timelength::OneMinute => 7,
            Timelength::TwoMinutes => 8,
            Timelength::ThreeMinutes => 9,
            Timelength::FiveMinutes => 10,
            Timelength::TenMinutes => 11,
            Timelength::FifteenMinutes => 12,
            Timelength::ThirtyMinutes => 13,
            Timelength::OneHour => 14,
            Timelength::TwoHours => 15,
            Timelength::ThreeHours => 16,
            Timelength::SixHours => 17,
            Timelength::EightHours => 18,
            Timelength::TwelveHours => 19,
            Timelength::OneDay => 20,
            Timelength::TwoDays => 21,
            Timelength::ThreeDays => 22,
            Timelength::OneWeek => 23,
            Timelength::TwoWeeks => 24,
            Timelength::ThirtyDays => 25,
        }
    }

    /// The canonical token of `self`.
    pub fn as_str(&self) -> (token: &'static str)
        ensures
            token@ == self.token(),
    {
        match self {
            Timelength::OneSecond => "1-sec",
            Timelength::TwoSeconds => "2-sec",
            Timelength::ThreeSeconds => "3-sec",
            Timelength::FiveSeconds => "5-sec",
            Timelength::TenSeconds => "10-sec",
            Timelength::FifteenSeconds => "15-sec",
            Timelength::ThirtySeconds => "30-sec",
            Timelength::OneMinute => "1-min",
            Timelength::TwoMinutes => "2-min",
            Timelength::ThreeMinutes => "3-min",
            Timelength::FiveMinutes => "5-min",
            Timelength::TenMinutes => "10-min",
            Timelength::FifteenMinutes => "15-min",
            Timelength::ThirtyMinutes => "30-min",
            Timelength::OneHour => "1-hr",
            Timelength::TwoHours => "2-hr",
            Timelength::ThreeHours => "3-hr",
            Timelength::SixHours => "6-hr",
            Timelength::EightHours => "8-hr",
            Timelength::TwelveHours => "12-hr",
            Timelength::OneDay => "1-day",
            Timelength::TwoDays => "2-day",
            Timelength::ThreeDays => "3-day",
            Timelength::OneWeek => "1-wk",
            Timelength::TwoWeeks => "2-wk",
            Timelength::ThirtyDays => "30-day",
        }
    }

    /// The canonical token of `self`, as an owned string.
    pub fn to_string(&self) -> (token: String)
        ensures
            token@ == self.token(),
    {
        self.as_str().to_owned()
    }

    /// Every time length, shortest first.
    pub fn catalog() -> (all: Vec<Timelength>)
        ensures
            all@.len() == 26,
            forall|t: Timelength| 0 <= t.ordinal() < 26 && #[trigger] all@[t.ordinal()] == t,
    {
        vec![
            Timelength::OneSecond,
            Timelength::TwoSeconds,
            Timelength::ThreeSeconds,
            Timelength::FiveSeconds,
            Timelength::TenSeconds,
            Timelength::FifteenSeconds,
            Timelength::ThirtySeconds,
            Timelength::OneMinute,
            Timelength::TwoMinutes,
            Timelength::ThreeMinutes,
            Timelength::FiveMinutes,
            Timelength::TenMinutes,
            Timelength::FifteenMinutes,
            Timelength::ThirtyMinutes,
            Timelength::OneHour,
            Timelength::TwoHours,
            Timelength::ThreeHours,
            Timelength::SixHours,
            Timelength::EightHours,
            Timelength::TwelveHours,
            Timelength::OneDay,
            Timelength::TwoDays,
            Timelength::ThreeDays,
            Timelength::OneWeek,
            Timelength::TwoWeeks,
            Timelength::ThirtyDays,
        ]
    }

    /// Reads a canonical token. Tokens are matched exactly, letter case
    /// included; any other text is refused.
    pub fn from_token(text: &str) -> (parsed: Result<Timelength, ParseError>)
        ensures
            parsed == match parse_token(text@) {
                Some(t) => Ok::<Timelength, ParseError>(t),
                None => Err(ParseError::VariantNotFound),
            },
    {
        let all = Timelength::catalog();
        let mut i: usize = 0;
        while i < all.len()
            invariant
                i <= all@.len() == 26,
                forall|t: Timelength| 0 <= t.ordinal() < 26 && #[trigger] all@[t.ordinal()] == t,
                forall|j: int| 0 <= j < i ==> (#[trigger] all@[j]).token() != text@,
            decreases all@.len() - i,
        {
            let candidate = all[i];
            if same_text(candidate.as_str(), text) {
                proof {
                    lemma_token_round_trip(candidate);
                }
                return Ok(candidate);
            }
            i += 1;
        }
        proof {
            assert forall|t: Timelength| #[trigger] t.token() != text@ by {
                assert(all@[t.ordinal()] == t);
            }
        }
        Err(ParseError::VariantNotFound)
    }
}

/// Why a text was not read as a time length.
#[derive(Debug, PartialEq, Eq, Structural, Clone, Copy)]
pub enum ParseError {
    /// The text is the token of no time length.
    VariantNotFound,
}

/// The time length that `text` is the token of, if it is one.
pub open spec fn parse_token(text: Seq<char>) -> Option<Timelength> {
    if exists|t: Timelength| #[trigger] t.token() == text {
        Some(choose|t: Timelength| #[trigger] t.token() == text)
    } else {
        None
    }
}

/// What tells the tokens apart: the length and the first four characters.
spec fn token_key(token: Seq<char>) -> (int, char, char, char, char) {
    (token.len() as int, token[0], token[1], token[2], token[3])
}

/// No two time lengths share a token.
pub proof fn lemma_token_injective(a: Timelength, b: Timelength)
    requires
        a.token() == b.token(),
    ensures
        a == b,
{
    reveal_strlit("1-sec");
    assert(token_key("1-sec"@) == (5int, '1', '-', 's', 'e'));
    reveal_strlit("2-sec");
    assert(token_key("2-sec"@) == (5int, '2', '-', 's', 'e'));
    reveal_strlit("3-sec");
    assert(token_key("3-sec"@) == (5int, '3', '-', 's', 'e'));
    reveal_strlit("5-sec");
    assert(token_key("5-sec"@) == (5int, '5', '-', 's', 'e'));
    reveal_strlit("10-sec");
    assert(token_key("10-sec"@) == (6int, '1', '0', '-', 's'));
    reveal_strlit("15-sec");
    assert(token_key("15-sec"@) == (6int, '1', '5', '-', 's'));
    reveal_strlit("30-sec");
    assert(token_key("30-sec"@) == (6int, '3', '0', '-', 's'));
    reveal_strlit("1-min");
    assert(token_key("1-min"@) == (5int, '1', '-', 'm', 'i'));
    reveal_strlit("2-min");
    assert(token_key("2-min"@) == (5int, '2', '-', 'm', 'i'));
    reveal_strlit("3-min");
    assert(token_key("3-min"@) == (5int, '3', '-', 'm', 'i'));
    reveal_strlit("5-min");
    assert(token_key("5-min"@) == (5int, '5', '-', 'm', 'i'));
    reveal_strlit("10-min");
    assert(token_key("10-min"@) == (6int, '1', '0', '-', 'm'));
    reveal_strlit("15-min");
    assert(token_key("15-min"@) == (6int, '1', '5', '-', 'm'));
    reveal_strlit("30-min");
    assert(token_key("30-min"@) == (6int, '3', '0', '-', 'm'));
    reveal_strlit("1-hr");
    assert(token_key("1-hr"@) == (4int, '1', '-', 'h', 'r'));
    reveal_strlit("2-hr");
    assert(token_key("2-hr"@) == (4int, '2', '-', 'h', 'r'));
    reveal_strlit("3-hr");
    assert(token_key("3-hr"@) == (4int, '3', '-', 'h', 'r'));
    reveal_strlit("6-hr");
    assert(token_key("6-hr"@) == (4int, '6', '-', 'h', 'r'));
    reveal_strlit("8-hr");
    assert(token_key("8-hr"@) == (4int, '8', '-', 'h', 'r'));
    reveal_strlit("12-hr");
    assert(token_key("12-hr"@) == (5int, '1', '2', '-', 'h'));
    reveal_strlit("1-day");
    assert(token_key("1-day"@) == (5int, '1', '-', 'd', 'a'));
    reveal_strlit("2-day");
    assert(token_key("2-day"@) == (5int, '2', '-', 'd', 'a'));
    reveal_strlit("3-day");
    assert(token_key("3-day"@) == (5int, '3', '-', 'd', 'a'));
    reveal_strlit("1-wk");
    assert(token_key("1-wk"@) == (4int, '1', '-', 'w', 'k'));
    reveal_strlit("2-wk");
    assert(token_key("2-wk"@) == (4int, '2', '-', 'w', 'k'));
    reveal_strlit("30-day");
    assert(token_key("30-day"@) == (6int, '3', '0', '-', 'd'));
    assert(token_key(a.token()) == token_key(b.token()));
}

/// Reading the token of a time length gives that time length back.
pub proof fn lemma_token_round_trip(t: Timelength)
    ensures
        parse_token(t.token()) == Some(t),
{
    let found = choose|u: Timelength| #[trigger] u.token() == t.token();
    lemma_token_injective(found, t);
}

/// A text that reads as a time length is that time length's token, so writing
/// the token again gives the same text.
pub proof fn lemma_parse_then_token(text: Seq<char>)
    ensures
        parse_token(text) matches Some(t) ==> t.token() == text,
{
}

/// Whether two strings hold the same characters.
fn same_text(a: &str, b: &str) -> (same: bool)
    ensures
        same == (a@ == b@),
{
    let n: usize = a.unicode_len();
    if n != b.unicode_len() {
        return false;
    }
    let mut i: usize = 0;
    while i < n
        invariant
            i <= n == a@.len() == b@.len(),
            forall|j: int| 0 <= j < i ==> a@[j] == b@[j],
        decreases n - i,
    {
        if a.get_char(i) != b.get_char(i) {
            return false;
        }
        i += 1;
    }
    assert(a@ =~= b@);
    true
}

/// Every time length lasts a positive whole number of seconds, and none lasts
/// longer than thirty days.
pub proof fn lemma_millis_whole_seconds(timelength: Timelength)
    ensures
        timelength.millis() > 0,
        timelength.millis() % 1000 == 0,
        timelength.millis() <= 2_592_000_000,
{
}

/// The catalog runs from the shortest time length to the longest: a later
/// place means a longer duration.
pub proof fn lemma_ordinal_orders_by_duration(a: Timelength, b: Timelength)
    ensures
        a.ordinal() < b.ordinal() <==> a.millis() < b.millis(),
        a.ordinal() == b.ordinal() <==> a == b,
{
}

/// Converts a timelength into milliseconds.
pub fn get_timelength_in_ms(timelength: Timelength) -> (ms: u128)
    ensures
        ms == timelength.millis(),
        ms > 0,
        ms % 1000 == 0,
{
    match timelength {
        Timelength::OneSecond => ONE_SECOND_MS,
        Timelength::TwoSeconds => TWO_SECONDS_MS,
        Timelength::ThreeSeconds => THREE_SECONDS_MS,
        Timelength::FiveSeconds => FIVE_SECONDS_MS,
        Timelength::TenSeconds => TEN_SECONDS_MS,
        Timelength::FifteenSeconds => FIFTEEN_SECONDS_MS,
        Timelength::ThirtySeconds => THIRTY_SECONDS_MS,
        Timelength::OneMinute => ONE_MIN_MS,
        Timelength::TwoMinutes => TWO_MINS_MS,
        Timelength::ThreeMinutes => THREE_MINS_MS,
        Timelength::FiveMinutes => FIVE_MINS_MS,
        Timelength::TenMinutes => TEN_MINS_MS,
        Timelength::FifteenMinutes => FIFTEEN_MINS_MS,
        Timelength::ThirtyMinutes => THIRTY_MINS_MS,
        Timelength::OneHour => ONE_HOUR_MS,
        Timelength::TwoHours => TWO_HOURS_MS,
        Timelength::ThreeHours => THREE_HOURS_MS,
        Timelength::SixHours => SIX_HOURS_MS,
        Timelength::EightHours => EIGHT_HOURS_MS,
        Timelength::TwelveHours => TWELVE_HOURS_MS,
        Timelength::OneDay => ONE_DAY_MS,
        Timelength::TwoDays => TWO_DAYS_MS,
        Timelength::ThreeDays => THREE_DAYS_MS,
        Timelength::OneWeek => ONE_WEEK_MS,
        Timelength::TwoWeeks => TWO_WEEKS_MS,
        Timelength::ThirtyDays => THIRTY_DAYS_MS,
    }
}

} // verus!
