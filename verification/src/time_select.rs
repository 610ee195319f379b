//! Time-range expressions: parsing of `now`, relative (`<n><unit>`) and
//! absolute time texts, and resolution of a start/end pair into a concrete
//! epoch-seconds window. A relative bound is anchored to the resolved value
//! of the opposite bound, so at most one bound may be relative.
use vstd::prelude::*;
use vstd::string::*;

verus! {

/// Unit of a relative time expression.
#[derive(Clone, Copy, PartialEq, Eq, Structural, Debug)]
pub enum RelativeUnit {
    Seconds,
    Minutes,
    Hours,
    Days,
}

/// One bound of a time range: a duration offset against the other bound,
/// an absolute instant (epoch seconds), or the current wall clock.
#[derive(Clone, Copy, PartialEq, Eq, Structural, Debug)]
pub enum Time {
    Relative(RelativeUnit, u32),
    Specific(i64),
    Now,
}

/// Why a time text was rejected, or why a start/end pair does not resolve.
#[derive(Clone, Copy, PartialEq, Eq, Structural, Debug)]
pub enum TimeError {
    /// The digits before the unit letter are missing or exceed `u32`.
    InvalidNumber(RelativeUnit),
    /// A unit letter appeared somewhere other than the final position.
    InvalidSuffix,
    /// The text looked like a date but no supported format accepted it.
    BadSpecific,
    /// A character that fits neither a relative nor a date expression.
    UnknownChar,
    /// The text ended before a unit letter or date separator appeared.
    Incomplete,
    /// Both bounds are relative, so neither provides an anchor.
    BothRelative,
}

impl TimeError {
    /// The user-facing description of the error.
    pub fn message(&self) -> (r: &'static str)
        ensures
            r@ == spec_message(*self),
    {
        match self {
            TimeError::InvalidNumber(RelativeUnit::Seconds) => "Invalid number of seconds",
            TimeError::InvalidNumber(RelativeUnit::Minutes) => "Invalid number of minutes",
            TimeError::InvalidNumber(RelativeUnit::Hours) => "Invalid number of hours",
            TimeError::InvalidNumber(RelativeUnit::Days) => "Invalid number of days",
            TimeError::InvalidSuffix => "Invalid relative suffix",
            TimeError::BadSpecific => "Could not parse specific datetime",
            TimeError::UnknownChar => "Could not parse relative or specific datetime",
            TimeError::Incomplete => "Something wrong",
            TimeError::BothRelative => "Both start and end time can't be relative",
        }
    }
}

pub open spec fn spec_message(e: TimeError) -> Seq<char> {
    match e {
        TimeError::InvalidNumber(RelativeUnit::Seconds) => "Invalid number of seconds"@,
        TimeError::InvalidNumber(RelativeUnit::Minutes) => "Invalid number of minutes"@,
        TimeError::InvalidNumber(RelativeUnit::Hours) => "Invalid number of hours"@,
        TimeError::InvalidNumber(RelativeUnit::Days) => "Invalid number of days"@,
        TimeError::InvalidSuffix => "Invalid relative suffix"@,
        TimeError::BadSpecific => "Could not parse specific datetime"@,
        TimeError::UnknownChar => "Could not parse relative or specific datetime"@,
        TimeError::Incomplete => "Something wrong"@,
        TimeError::BothRelative => "Both start and end time can't be relative"@,
    }
}

// ---------------------------------------------------------------------------
// Trusted boundary: the `time` crate parses and formats absolute instants,
// std folds case, trims whitespace and reads the wall clock. Each result
// below is a function of the arguments alone and is given a name that the
// wrapper's contract applies.
// ---------------------------------------------------------------------------

/// The text with leading and trailing whitespace removed.
pub uninterp spec fn trimmed_of(s: Seq<char>) -> Seq<char>;

/// Relies on str::trim: the trimmed text depends on the characters alone.
#[verifier::external_body]
fn trim_str(s: &str) -> (r: &str)
    ensures
        r@ == trimmed_of(s@),
{
    s.trim()
}

/// The text folded to lower case.
pub uninterp spec fn lower_of(s: Seq<char>) -> Seq<char>;

/// Relies on str::to_lowercase: the result depends on the characters alone.
#[verifier::external_body]
fn lowercase(s: &str) -> (r: String)
    ensures
        r@ == lower_of(s@),
{
    s.to_lowercase()
}

/// The epoch seconds denoted by the text as an RFC 3339 timestamp, if the
/// text is one.
pub uninterp spec fn rfc3339_epoch(s: Seq<char>) -> Option<i64>;

/// Relies on time's OffsetDateTime::parse with the RFC 3339 well-known
/// format and on unix_timestamp: acceptance and value depend on the
/// characters alone.
#[verifier::external_body]
fn parse_rfc3339_epoch(s: &str) -> (r: Option<i64>)
    ensures
        r == rfc3339_epoch(s@),
{
    time::OffsetDateTime::parse(s, &time::format_description::well_known::Rfc3339)
        .ok()
        .map(|dt| dt.unix_timestamp())
}

/// The epoch seconds denoted by the text as a `YYYY-MM-DD HH:MM:SS` wall
/// time read as UTC, if the text is one.
pub uninterp spec fn datetime_epoch(s: Seq<char>) -> Option<i64>;

/// Relies on time's format_description::parse (on a fixed, valid pattern),
/// PrimitiveDateTime::parse, assume_utc and unix_timestamp: acceptance and
/// value depend on the characters alone.
#[verifier::external_body]
fn parse_datetime_epoch(s: &str) -> (r: Option<i64>)
    ensures
        r == datetime_epoch(s@),
{
    let pattern =
        time::format_description::parse("[year]-[month]-[day] [hour]:[minute]:[second]").unwrap();
    time::PrimitiveDateTime::parse(s, &pattern)
        .ok()
        .map(|dt| dt.assume_utc().unix_timestamp())
}

/// The epoch seconds of midnight UTC on the date denoted by the text as a
/// `YYYY-MM-DD` calendar date, if the text is one.
pub uninterp spec fn date_epoch(s: Seq<char>) -> Option<i64>;

/// Relies on time's format_description::parse (on a fixed, valid pattern),
/// Date::parse, midnight, assume_utc and unix_timestamp: acceptance and
/// value depend on the characters alone.
#[verifier::external_body]
fn parse_date_epoch(s: &str) -> (r: Option<i64>)
    ensures
        r == date_epoch(s@),
{
    let pattern = time::format_description::parse("[year]-[month]-[day]").unwrap();
    time::Date::parse(s, &pattern)
        .ok()
        .map(|d| d.midnight().assume_utc().unix_timestamp())
}

/// The RFC 3339 rendering of the instant, where the `time` crate can
/// represent and format it.
pub uninterp spec fn rfc3339_of(t: i64) -> Option<Seq<char>>;

/// Relies on time's OffsetDateTime::from_unix_timestamp and format with the
/// RFC 3339 well-known format: the rendering depends on the value alone.
#[verifier::external_body]
fn format_rfc3339(t: i64) -> (r: Option<String>)
    ensures
        r is Some <==> rfc3339_of(t) is Some,
        r is Some ==> r->0@ == rfc3339_of(t)->0,
{
    time::OffsetDateTime::from_unix_timestamp(t)
        .ok()
        .and_then(|dt| dt.format(&time::format_description::well_known::Rfc3339).ok())
}

/// Seconds elapsed since the Unix epoch, by the system wall clock.
///
/// Relies on std's SystemTime::now and duration_since: the result is
/// nonnegative (a clock reading earlier than the epoch is reported as zero).
#[verifier::external_body]
pub fn now() -> (r: i64)
    ensures
        0 <= r,
{
    match std::time::SystemTime::now().duration_since(std::time::UNIX_EPOCH) {
        Ok(d) => i64::try_from(d.as_secs()).unwrap_or(i64::MAX),
        Err(_) => 0,
    }
}

// ---------------------------------------------------------------------------
// Parsing
// ---------------------------------------------------------------------------

pub open spec fn is_digit(c: char) -> bool {
    48 <= c as u32 <= 57
}

pub open spec fn digit_val(c: char) -> int {
    c as u32 - 48
}

/// Value of a digit string, most significant digit first.
pub open spec fn digits_val(s: Seq<char>) -> int
    decreases s.len(),
{
    if s.len() == 0 {
        0
    } else {
        digits_val(s.drop_last()) * 10 + digit_val(s.last())
    }
}

/// Index of the first character that is not a decimal digit (the length if
/// every character is one).
pub open spec fn first_non_digit(s: Seq<char>) -> int
    decreases s.len(),
{
    if s.len() == 0 {
        0
    } else if !is_digit(s[0]) {
        0
    } else {
        1 + first_non_digit(s.subrange(1, s.len() as int))
    }
}

pub open spec fn unit_of_char(c: char) -> Option<RelativeUnit> {
    if c == 's' {
        Some(RelativeUnit::Seconds)
    } else if c == 'm' {
        Some(RelativeUnit::Minutes)
    } else if c == 'h' {
        Some(RelativeUnit::Hours)
    } else if c == 'd' {
        Some(RelativeUnit::Days)
    } else {
        None
    }
}

/// Result of parsing an already-normalized (trimmed, lower-case) time text.
///
/// `now` names the wall clock; `<digits><unit>` with the unit letter in the
/// final position is a relative expression; a text whose first non-digit
/// character is `-` is tried as an absolute date, first as RFC 3339, then
/// `YYYY-MM-DD HH:MM:SS` (UTC), then `YYYY-MM-DD` (midnight UTC); anything
/// else is rejected with an error naming what went wrong.
pub open spec fn spec_parse(s: Seq<char>) -> Result<Time, TimeError> {
    if s == "now"@ {
        Ok(Time::Now)
    } else {
        let j = first_non_digit(s);
        if j == s.len() {
            Err(TimeError::Incomplete)
        } else {
            let c = s[j];
            match unit_of_char(c) {
                Some(u) => if j == s.len() - 1 {
                    if 0 < j && digits_val(s.take(j)) <= u32::MAX {
                        Ok(Time::Relative(u, digits_val(s.take(j)) as u32))
                    } else {
                        Err(TimeError::InvalidNumber(u))
                    }
                } else {
                    Err(TimeError::InvalidSuffix)
                },
                None => if c == '-' {
                    spec_parse_specific(s)
                } else {
                    Err(TimeError::UnknownChar)
                },
            }
        }
    }
}

/// The three absolute formats, attempted in order; the first success wins.
pub open spec fn spec_parse_specific(s: Seq<char>) -> Result<Time, TimeError> {
    if rfc3339_epoch(s) is Some {
        Ok(Time::Specific(rfc3339_epoch(s)->0))
    } else if datetime_epoch(s) is Some {
        Ok(Time::Specific(datetime_epoch(s)->0))
    } else if date_epoch(s) is Some {
        Ok(Time::Specific(date_epoch(s)->0))
    } else {
        Err(TimeError::BadSpecific)
    }
}

/// The normalization every time text goes through before parsing.
pub open spec fn normalized(s: Seq<char>) -> Seq<char> {
    lower_of(trimmed_of(s))
}

proof fn lemma_first_non_digit_at(s: Seq<char>, j: int)
    requires
        0 <= j <= s.len(),
        forall|k: int| 0 <= k < j ==> is_digit(s[k]),
        j < s.len() ==> !is_digit(s[j]),
    ensures
        first_non_digit(s) == j,
    decreases s.len(),
{
    if j == 0 {
        if s.len() > 0 {
            assert(!is_digit(s[0]));
        }
    } else {
        let t = s.subrange(1, s.len() as int);
        assert(forall|k: int| 0 <= k < j - 1 ==> is_digit(t[k]));
        lemma_first_non_digit_at(t, j - 1);
    }
}

proof fn lemma_digits_val_nonneg(s: Seq<char>)
    requires
        forall|k: int| 0 <= k < s.len() ==> is_digit(s[k]),
    ensures
        digits_val(s) >= 0,
    decreases s.len(),
{
    if s.len() > 0 {
        lemma_digits_val_nonneg(s.drop_last());
    }
}

proof fn lemma_digits_val_step(s: Seq<char>, k: int)
    requires
        0 <= k < s.len(),
    ensures
        digits_val(s.take(k + 1)) == digits_val(s.take(k)) * 10 + digit_val(s[k]),
{
    assert(s.take(k + 1).drop_last() =~= s.take(k));
    assert(s.take(k + 1).last() == s[k]);
}

proof fn lemma_digits_val_monotone(s: Seq<char>, a: int, b: int)
    requires
        0 <= a <= b <= s.len(),
        forall|k: int| 0 <= k < s.len() ==> is_digit(s[k]),
    ensures
        digits_val(s.take(a)) <= digits_val(s.take(b)),
    decreases b - a,
{
    if a < b {
        lemma_digits_val_monotone(s, a, b - 1);
        lemma_digits_val_step(s, b - 1);
        assert(forall|k: int| 0 <= k < s.take(b - 1).len() ==> is_digit(#[trigger] s.take(b - 1)[k]));
        lemma_digits_val_nonneg(s.take(b - 1));
        assert(digit_val(s[b - 1]) >= 0);
    }
}

/// Parses an already-normalized time text.
pub fn parse_time_text(s: &str) -> (r: Result<Time, TimeError>)
    ensures
        r == spec_parse(s@),
{
    let n = s.unicode_len();
    if n == 3 && s.get_char(0) == 'n' && s.get_char(1) == 'o' && s.get_char(2) == 'w' {
        proof {
            reveal_strlit("now");
            assert(s@ =~= "now"@);
        }
        return Ok(Time::Now);
    }
    proof {
        reveal_strlit("now");
        assert(s@ != "now"@) by {
            if s@ == "now"@ {
                assert(s@.len() == 3);
                assert(s@[0] == 'n' && s@[1] == 'o' && s@[2] == 'w');
            }
        }
    }
    // scan for the first character that is not a decimal digit
    let mut i: usize = 0;
    let mut stop: Option<char> = None;
    while i < n
        invariant_except_break
            stop is None,
        invariant
            0 <= i <= n,
            n == s@.len(),
            forall|k: int| 0 <= k < i ==> is_digit(s@[k]),
        ensures
            0 <= i <= n,
            n == s@.len(),
            forall|k: int| 0 <= k < i ==> is_digit(s@[k]),
            match stop {
                Some(c) => i < n && c == s@[i as int] && !is_digit(c),
                None => i == n,
            },
        decreases n - i,
    {
        let c = s.get_char(i);
        let u = c as u32;
        if 48 <= u && u <= 57 {
            i += 1;
        } else {
            stop = Some(c);
            break;
        }
    }
    match stop {
        None => {
            // every character is a digit: no unit letter, no date separator
            proof {
                lemma_first_non_digit_at(s@, n as int);
            }
            Err(TimeError::Incomplete)
        },
        Some(c) => {
            proof {
                lemma_first_non_digit_at(s@, i as int);
            }
            let unit = if c == 's' {
                Some(RelativeUnit::Seconds)
            } else if c == 'm' {
                Some(RelativeUnit::Minutes)
            } else if c == 'h' {
                Some(RelativeUnit::Hours)
            } else if c == 'd' {
                Some(RelativeUnit::Days)
            } else {
                None
            };
            match unit {
                Some(u) => {
                    if i + 1 < n {
                        return Err(TimeError::InvalidSuffix);
                    }
                    if i == 0 {
                        return Err(TimeError::InvalidNumber(u));
                    }
                    // accumulate the digit prefix, watching for u32 overflow
                    let mut acc: u32 = 0;
                    let mut k: usize = 0;
                    while k < i
                        invariant
                            0 <= k <= i <= n,
                            0 < i,
                            i + 1 == n,
                            n == s@.len(),
                            forall|m: int| 0 <= m < i ==> is_digit(s@[m]),
                            acc == digits_val(s@.take(k as int)),
                            first_non_digit(s@) == i as int,
                            unit_of_char(s@[i as int]) == Some(u),
                            s@ != "now"@,
                        decreases i - k,
                    {
                        let c2 = s.get_char(k);
                        let d = (c2 as u32) - 48;
                        let wide: u64 = (acc as u64) * 10 + (d as u64);
                        proof {
                            lemma_digits_val_step(s@, k as int);
                        }
                        if wide > u32::MAX as u64 {
                            proof {
                                assert(digit_val(s@[k as int]) == d as int);
                                assert(digits_val(s@.take(k + 1)) == wide as int);
                                assert(forall|m: int|
                                    0 <= m < s@.take(i as int).len() ==> is_digit(
                                        #[trigger] s@.take(i as int)[m],
                                    ));
                                assert(s@.take(i as int).take(k + 1) =~= s@.take(k + 1));
                                assert(s@.take(i as int).take(i as int) =~= s@.take(i as int));
                                lemma_digits_val_monotone(s@.take(i as int), k + 1, i as int);
                                assert(digits_val(s@.take(i as int)) > u32::MAX);
                            }
                            return Err(TimeError::InvalidNumber(u));
                        }
                        acc = wide as u32;
                        k += 1;
                    }
                    proof {
                        assert(s@.take(i as int).len() == i as int);
                    }
                    Ok(Time::Relative(u, acc))
                },
                None => {
                    if c == '-' {
                        if let Some(t) = parse_rfc3339_epoch(s) {
                            return Ok(Time::Specific(t));
                        }
                        if let Some(t) = parse_datetime_epoch(s) {
                            return Ok(Time::Specific(t));
                        }
                        if let Some(t) = parse_date_epoch(s) {
                            return Ok(Time::Specific(t));
                        }
                        Err(TimeError::BadSpecific)
                    } else {
                        Err(TimeError::UnknownChar)
                    }
                },
            }
        },
    }
}

/// Parses a user-entered time text: trimmed and folded to lower case, then
/// read as `now`, a relative expression or an absolute date.
pub fn to_time(text: &str) -> (r: Result<Time, TimeError>)
    ensures
        r == spec_parse(normalized(text@)),
{
    let trimmed = trim_str(text);
    let lowered = lowercase(trimmed);
    parse_time_text(lowered.as_str())
}

// ---------------------------------------------------------------------------
// Display
// ---------------------------------------------------------------------------

pub open spec fn spec_unit_char(u: RelativeUnit) -> char {
    match u {
        RelativeUnit::Seconds => 's',
        RelativeUnit::Minutes => 'm',
        RelativeUnit::Hours => 'h',
        RelativeUnit::Days => 'd',
    }
}

pub open spec fn spec_digit_char(d: int) -> char {
    if d == 0 {
        '0'
    } else if d == 1 {
        '1'
    } else if d == 2 {
        '2'
    } else if d == 3 {
        '3'
    } else if d == 4 {
        '4'
    } else if d == 5 {
        '5'
    } else if d == 6 {
        '6'
    } else if d == 7 {
        '7'
    } else if d == 8 {
        '8'
    } else {
        '9'
    }
}

/// Decimal rendering of a nonnegative number, without leading zeros.
pub open spec fn spec_u32_digits(n: int) -> Seq<char>
    decreases n,
{
    if n < 10 {
        seq![spec_digit_char(n)]
    } else {
        spec_u32_digits(n / 10).push(spec_digit_char(n % 10))
    }
}

fn digit_char_of(d: u32) -> (c: char)
    requires
        d < 10,
    ensures
        c == spec_digit_char(d as int),
{
    if d == 0 {
        '0'
    } else if d == 1 {
        '1'
    } else if d == 2 {
        '2'
    } else if d == 3 {
        '3'
    } else if d == 4 {
        '4'
    } else if d == 5 {
        '5'
    } else if d == 6 {
        '6'
    } else if d == 7 {
        '7'
    } else if d == 8 {
        '8'
    } else {
        '9'
    }
}

fn u32_digits(n: u32) -> (r: String)
    ensures
        r@ == spec_u32_digits(n as int),
    decreases n,
{
    if n < 10 {
        let mut s = String::new();
        crate::text::push_char(&mut s, digit_char_of(n));
        proof {
            assert(s@ =~= seq![spec_digit_char(n as int)]);
        }
        s
    } else {
        let mut s = u32_digits(n / 10);
        crate::text::push_char(&mut s, digit_char_of(n % 10));
        s
    }
}

/// Canonical text of a time bound: `<n><unit>` for a relative expression,
/// `now` for the wall clock, the RFC 3339 rendering for an absolute instant
/// (blank where the instant lies outside the representable calendar).
pub open spec fn spec_display_time(t: Time) -> Seq<char> {
    match t {
        Time::Relative(u, n) => spec_u32_digits(n as int).push(spec_unit_char(u)),
        Time::Specific(ts) => match rfc3339_of(ts) {
            Some(s) => s,
            None => Seq::<char>::empty(),
        },
        Time::Now => "now"@,
    }
}

impl Time {
    pub fn is_relative(&self) -> (r: bool)
        ensures
            r == (*self is Relative),
    {
        match self {
            Time::Relative(_, _) => true,
            Time::Specific(_) => false,
            Time::Now => false,
        }
    }

    /// The canonical text of this bound.
    pub fn display(&self) -> (r: String)
        ensures
            r@ == spec_display_time(*self),
    {
        match self {
            Time::Relative(u, n) => {
                let mut s = u32_digits(*n);
                let c = match u {
                    RelativeUnit::Seconds => 's',
                    RelativeUnit::Minutes => 'm',
                    RelativeUnit::Hours => 'h',
                    RelativeUnit::Days => 'd',
                };
                crate::text::push_char(&mut s, c);
                s
            },
            Time::Specific(ts) => match format_rfc3339(*ts) {
                Some(s) => s,
                None => String::new(),
            },
            Time::Now => "now".to_owned(),
        }
    }
}

// ---------------------------------------------------------------------------
// Resolution
// ---------------------------------------------------------------------------

pub open spec fn spec_unit_seconds(u: RelativeUnit) -> int {
    match u {
        RelativeUnit::Seconds => 1,
        RelativeUnit::Minutes => 60,
        RelativeUnit::Hours => 3600,
        RelativeUnit::Days => 86400,
    }
}

/// Seconds spanned by a relative expression.
pub open spec fn spec_offset_seconds(u: RelativeUnit, n: u32) -> int {
    n * spec_unit_seconds(u)
}

/// Seconds spanned by a relative expression. The product always fits an
/// `i64`: at most `u32::MAX` times a day of seconds.
pub fn to_offset(unit: RelativeUnit, value: u32) -> (r: i64)
    ensures
        r == spec_offset_seconds(unit, value),
{
    match unit {
        RelativeUnit::Seconds => value as i64,
        RelativeUnit::Minutes => value as i64 * 60,
        RelativeUnit::Hours => value as i64 * 3600,
        RelativeUnit::Days => value as i64 * 86400,
    }
}

/// The value, pulled back into the representable `i64` range.
pub open spec fn clamp_i64(x: int) -> int {
    if x < i64::MIN {
        i64::MIN as int
    } else if x > i64::MAX {
        i64::MAX as int
    } else {
        x
    }
}

fn sat_add_i64(a: i64, b: i64) -> (r: i64)
    ensures
        r as int == clamp_i64(a + b),
{
    if b >= 0 {
        if a > i64::MAX - b {
            i64::MAX
        } else {
            a + b
        }
    } else {
        if a < i64::MIN - b {
            i64::MIN
        } else {
            a + b
        }
    }
}

fn sat_sub_i64(a: i64, b: i64) -> (r: i64)
    ensures
        r as int == clamp_i64(a - b),
{
    if b >= 0 {
        if a < i64::MIN + b {
            i64::MIN
        } else {
            a - b
        }
    } else {
        if a > i64::MAX + b {
            i64::MAX
        } else {
            a - b
        }
    }
}

/// The instant a non-relative bound denotes, given the current wall clock.
pub open spec fn spec_anchor(t: Time, now: i64) -> i64 {
    match t {
        Time::Specific(ts) => ts,
        Time::Now => now,
        Time::Relative(_, _) => 0,
    }
}

/// Resolution of a start/end pair against the wall-clock reading `now`.
///
/// With no relative bound each side resolves independently. With exactly one,
/// the other side anchors it: a relative start is the anchor minus the
/// offset, a relative end the anchor plus it (saturating at the `i64` range).
/// With two relative bounds there is no anchor and validation fails. An
/// inverted window (start above end) is passed through, not corrected.
pub open spec fn spec_resolve(start: Time, end: Time, now: i64) -> Result<(i64, i64), TimeError> {
    if start is Relative && end is Relative {
        Err(TimeError::BothRelative)
    } else {
        match start {
            Time::Relative(u, n) => {
                let a = spec_anchor(end, now);
                Ok((clamp_i64(a - spec_offset_seconds(u, n)) as i64, a))
            },
            _ => match end {
                Time::Relative(u, n) => {
                    let a = spec_anchor(start, now);
                    Ok((a, clamp_i64(a + spec_offset_seconds(u, n)) as i64))
                },
                _ => Ok((spec_anchor(start, now), spec_anchor(end, now))),
            },
        }
    }
}

fn anchor_value(t: &Time, now_secs: i64) -> (r: i64)
    requires
        !(*t is Relative),
    ensures
        r == spec_anchor(*t, now_secs),
{
    match t {
        Time::Specific(ts) => *ts,
        Time::Now => now_secs,
        Time::Relative(_, _) => 0,
    }
}

/// Resolves a start/end pair into concrete epoch seconds against the given
/// wall-clock reading.
pub fn resolve(start: &Time, end: &Time, now_secs: i64) -> (r: Result<(i64, i64), TimeError>)
    ensures
        r == spec_resolve(*start, *end, now_secs),
{
    if start.is_relative() && end.is_relative() {
        return Err(TimeError::BothRelative);
    }
    if let Time::Relative(u, n) = start {
        let a = anchor_value(end, now_secs);
        let off = to_offset(*u, *n);
        return Ok((sat_sub_i64(a, off), a));
    }
    if let Time::Relative(u, n) = end {
        let a = anchor_value(start, now_secs);
        let off = to_offset(*u, *n);
        return Ok((a, sat_add_i64(a, off)));
    }
    Ok((anchor_value(start, now_secs), anchor_value(end, now_secs)))
}

// ---------------------------------------------------------------------------
// The selector
// ---------------------------------------------------------------------------

/// Which edit buffer of the popup is active.
#[derive(Clone, Copy, PartialEq, Eq, Structural, Debug)]
pub enum TimeSelectorInput {
    Start,
    End,
}

/// The selected time range, its canonical texts, and the popup's edit state.
///
/// At most one of the two bounds is relative: a relative bound needs the
/// resolved value of the other as its anchor.
pub struct TimeSelector {
    pub selected_start: Time,
    pub selected_end: Time,
    pub popup: bool,
    pub selected_start_string: String,
    pub selected_end_string: String,
    pub edit_start: String,
    pub edit_end: String,
    pub input: TimeSelectorInput,
}

/// Abstract value of a selector.
#[verifier::ext_equal]
pub ghost struct TimeSelectorV {
    pub start: Time,
    pub end: Time,
    pub popup: bool,
    pub start_string: Seq<char>,
    pub end_string: Seq<char>,
    pub edit_start: Seq<char>,
    pub edit_end: Seq<char>,
    pub input: TimeSelectorInput,
}

impl View for TimeSelector {
    type V = TimeSelectorV;

    open spec fn view(&self) -> TimeSelectorV {
        TimeSelectorV {
            start: self.selected_start,
            end: self.selected_end,
            popup: self.popup,
            start_string: self.selected_start_string@,
            end_string: self.selected_end_string@,
            edit_start: self.edit_start@,
            edit_end: self.edit_end@,
            input: self.input,
        }
    }
}

/// At most one bound is relative.
pub open spec fn selector_wf(v: TimeSelectorV) -> bool {
    !(v.start is Relative && v.end is Relative)
}

/// The selector a pair of entered texts constructs: both must parse, and not
/// both may be relative; the entered texts become the canonical texts and
/// seed the edit buffers.
pub open spec fn spec_from_strings(sv: Seq<char>, ev: Seq<char>) -> Result<
    TimeSelectorV,
    TimeError,
> {
    match spec_parse(normalized(sv)) {
        Err(e) => Err(e),
        Ok(st) => match spec_parse(normalized(ev)) {
            Err(e) => Err(e),
            Ok(et) => if st is Relative && et is Relative {
                Err(TimeError::BothRelative)
            } else {
                Ok(
                    TimeSelectorV {
                        start: st,
                        end: et,
                        popup: false,
                        start_string: sv,
                        end_string: ev,
                        edit_start: sv,
                        edit_end: ev,
                        input: TimeSelectorInput::Start,
                    },
                )
            },
        },
    }
}

impl TimeSelector {
    /// At most one bound is relative.
    pub open spec fn wf(&self) -> bool {
        selector_wf(self@)
    }

    /// Builds a selector from two entered texts; rejects unparseable texts
    /// and a pair of two relative bounds, naming the reason.
    pub fn from_strings(start: &str, end: &str) -> (r: Result<Self, TimeError>)
        ensures
            match r {
                Ok(ts) => spec_from_strings(start@, end@) == Ok::<TimeSelectorV, TimeError>(ts@)
                    && ts.wf(),
                Err(e) => spec_from_strings(start@, end@) == Err::<TimeSelectorV, TimeError>(e),
            },
    {
        let start_time = match to_time(start) {
            Ok(t) => t,
            Err(e) => {
                return Err(e);
            },
        };
        let end_time = match to_time(end) {
            Ok(t) => t,
            Err(e) => {
                return Err(e);
            },
        };
        if start_time.is_relative() && end_time.is_relative() {
            return Err(TimeError::BothRelative);
        }
        Ok(
            Self {
                selected_start: start_time,
                selected_end: end_time,
                popup: false,
                selected_start_string: start.to_owned(),
                selected_end_string: end.to_owned(),
                edit_start: start.to_owned(),
                edit_end: end.to_owned(),
                input: TimeSelectorInput::Start,
            },
        )
    }

    /// The "start - end" text under which the selected range is shown.
    pub fn display_range(&self) -> (r: String)
        ensures
            r@ == spec_display_time(self.selected_start) + " - "@ + spec_display_time(
                self.selected_end,
            ),
    {
        let mut s = self.selected_start.display();
        s.append(" - ");
        let e = self.selected_end.display();
        s.append(e.as_str());
        s
    }

    /// Resolves the selected range against the wall clock read once now.
    pub fn to_timestamps(&self) -> (r: (i64, i64))
        requires
            self.wf(),
        ensures
            exists|t: i64|
                0 <= t && spec_resolve(self.selected_start, self.selected_end, t) == Ok::<
                    (i64, i64),
                    TimeError,
                >(r),
    {
        let t = now();
        let res = resolve(&self.selected_start, &self.selected_end, t);
        match res {
            Ok(p) => {
                proof {
                    assert(0 <= t && spec_resolve(self.selected_start, self.selected_end, t)
                        == Ok::<(i64, i64), TimeError>(p));
                }
                p
            },
            Err(_) => {
                proof {
                    assert(false);
                }
                (0, 0)
            },
        }
    }
}

/// The selector the application starts with: the hour up to now.
pub open spec fn spec_default_selector() -> TimeSelectorV {
    TimeSelectorV {
        start: Time::Relative(RelativeUnit::Hours, 1),
        end: Time::Now,
        popup: false,
        start_string: spec_display_time(Time::Relative(RelativeUnit::Hours, 1)),
        end_string: "now"@,
        edit_start: spec_display_time(Time::Relative(RelativeUnit::Hours, 1)),
        edit_end: "now"@,
        input: TimeSelectorInput::Start,
    }
}

impl Default for TimeSelector {
    fn default() -> (r: Self)
        ensures
            r@ == spec_default_selector(),
            r.wf(),
    {
        let start = Time::Relative(RelativeUnit::Hours, 1);
        let end = Time::Now;
        let ss = start.display();
        let es = end.display();
        let ss2 = ss.clone();
        let es2 = es.clone();
        Self {
            selected_start: start,
            selected_end: end,
            popup: false,
            selected_start_string: ss,
            selected_end_string: es,
            edit_start: ss2,
            edit_end: es2,
            input: TimeSelectorInput::Start,
        }
    }
}

// ---------------------------------------------------------------------------
// Laws
// ---------------------------------------------------------------------------

proof fn lemma_digit_char_val(d: int)
    requires
        0 <= d < 10,
    ensures
        is_digit(spec_digit_char(d)),
        digit_val(spec_digit_char(d)) == d,
{
}

proof fn lemma_u32_digits_wf(n: int)
    requires
        0 <= n,
    ensures
        spec_u32_digits(n).len() >= 1,
        forall|k: int| 0 <= k < spec_u32_digits(n).len() ==> is_digit(#[trigger] spec_u32_digits(n)[k]),
        digits_val(spec_u32_digits(n)) == n,
    decreases n,
{
    if n < 10 {
        lemma_digit_char_val(n);
        assert(spec_u32_digits(n).drop_last() =~= Seq::<char>::empty());
        assert(spec_u32_digits(n).last() == spec_digit_char(n));
        assert(digits_val(Seq::<char>::empty()) == 0);
        assert(digits_val(spec_u32_digits(n)) == digits_val(Seq::<char>::empty()) * 10
            + digit_val(spec_digit_char(n)));
    } else {
        lemma_u32_digits_wf(n / 10);
        lemma_digit_char_val(n % 10);
        let prev = spec_u32_digits(n / 10);
        let s = spec_u32_digits(n);
        assert(s.drop_last() =~= prev);
        assert(s.last() == spec_digit_char(n % 10));
        assert(digits_val(s) == digits_val(prev) * 10 + digit_val(spec_digit_char(n % 10)));
        assert(n / 10 * 10 + n % 10 == n);
        assert(forall|k: int| 0 <= k < s.len() ==> is_digit(#[trigger] s[k])) by {
            assert(forall|k: int| 0 <= k < prev.len() ==> is_digit(#[trigger] prev[k]));
            assert(s.last() == spec_digit_char(n % 10));
            assert(forall|k: int| 0 <= k < s.len() - 1 ==> s[k] == prev[k]);
        }
    }
}

/// Any well-formed relative expression — one or more digits followed by a
/// unit letter — parses to that unit with the digits' value, whenever the
/// value fits a `u32`.
pub proof fn lemma_parse_relative_form(s: Seq<char>, u: RelativeUnit)
    requires
        s.len() >= 2,
        forall|k: int| 0 <= k < s.len() - 1 ==> is_digit(s[k]),
        s.last() == spec_unit_char(u),
        digits_val(s.take(s.len() - 1)) <= u32::MAX,
    ensures
        spec_parse(s) == Ok::<Time, TimeError>(
            Time::Relative(u, digits_val(s.take(s.len() - 1)) as u32),
        ),
{
    reveal_strlit("now");
    assert(is_digit(s[0]));
    assert(!is_digit('n'));
    assert(s != "now"@) by {
        if s == "now"@ {
            assert(s[0] == 'n');
        }
    }
    assert(!is_digit(spec_unit_char(u))) by {
        match u {
            RelativeUnit::Seconds => assert(!is_digit('s')),
            RelativeUnit::Minutes => assert(!is_digit('m')),
            RelativeUnit::Hours => assert(!is_digit('h')),
            RelativeUnit::Days => assert(!is_digit('d')),
        }
    }
    lemma_first_non_digit_at(s, s.len() - 1);
    assert(unit_of_char(spec_unit_char(u)) == Some(u));
}

/// A well-formed relative expression round-trips: parsing the canonical
/// display text `<n><unit>` gives back the same expression.
pub proof fn lemma_relative_display_round_trip(u: RelativeUnit, n: u32)
    ensures
        spec_parse(spec_display_time(Time::Relative(u, n))) == Ok::<Time, TimeError>(
            Time::Relative(u, n),
        ),
{
    let digits = spec_u32_digits(n as int);
    let s = spec_display_time(Time::Relative(u, n));
    lemma_u32_digits_wf(n as int);
    assert(s.len() == digits.len() + 1);
    assert(s.last() == spec_unit_char(u));
    assert(forall|k: int| 0 <= k < s.len() - 1 ==> s[k] == digits[k]);
    assert(s.take(s.len() - 1) =~= digits);
    lemma_parse_relative_form(s, u);
}

/// Two relative bounds always fail validation, whatever their units and
/// magnitudes and whatever the clock reads: neither side has an anchor.
pub proof fn lemma_both_relative_never_resolves(
    su: RelativeUnit,
    sn: u32,
    eu: RelativeUnit,
    en: u32,
    now: i64,
)
    ensures
        spec_resolve(Time::Relative(su, sn), Time::Relative(eu, en), now) == Err::<
            (i64, i64),
            TimeError,
        >(TimeError::BothRelative),
{
}

proof fn lemma_offset_in_range(u: RelativeUnit, n: u32)
    ensures
        0 <= spec_offset_seconds(u, n) <= 0x5_4600_0000_0000,
{
    match u {
        RelativeUnit::Seconds => assert(n * spec_unit_seconds(RelativeUnit::Seconds) == n * 1),
        RelativeUnit::Minutes => assert(n * spec_unit_seconds(RelativeUnit::Minutes) == n * 60),
        RelativeUnit::Hours => assert(n * spec_unit_seconds(RelativeUnit::Hours) == n * 3600),
        RelativeUnit::Days => assert(n * spec_unit_seconds(RelativeUnit::Days) == n * 86400),
    }
}

/// A relative start against a `now` end resolves to the window that ends at
/// the clock reading and starts the expression's offset earlier.
pub proof fn lemma_relative_start_window(u: RelativeUnit, n: u32, now: i64)
    requires
        0 <= now,
    ensures
        spec_resolve(Time::Relative(u, n), Time::Now, now) == Ok::<(i64, i64), TimeError>(
            ((now - spec_offset_seconds(u, n)) as i64, now),
        ),
{
    lemma_offset_in_range(u, n);
    assert(clamp_i64(now - spec_offset_seconds(u, n)) == now - spec_offset_seconds(u, n));
}

/// The hour-long window: a one-hour relative start against a `now` end ends
/// at the clock reading and starts 3600 seconds earlier.
pub proof fn lemma_hour_window(now: i64)
    requires
        0 <= now,
    ensures
        spec_resolve(Time::Relative(RelativeUnit::Hours, 1), Time::Now, now) == Ok::<
            (i64, i64),
            TimeError,
        >(((now - 3600) as i64, now)),
{
    lemma_relative_start_window(RelativeUnit::Hours, 1, now);
}

} // verus!
