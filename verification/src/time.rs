//! Instants, time spans, and the `ScheduleTime` specifier.
//!
//! An `Instant` is a point on the wall clock, counted in nanoseconds since the
//! Unix epoch; a `Span` is a length of time in nanoseconds.  A `ScheduleTime`
//! says when a job should run: either after a relative delay or at an absolute
//! instant; it is resolved against "now" exactly once, when a schedule is
//! built.

use vstd::prelude::*;
use vstd::string::StrSliceExecFns;
use vstd::string::StringExecFns;

verus! {

/// Nanoseconds in one second.
pub const NANOS_PER_SEC: u128 = 1_000_000_000;

/// A length of time, counted in nanoseconds.
#[derive(Clone, Copy, Debug, PartialEq, Eq, Structural)]
pub struct Span {
    pub nanos: u128,
}

/// A point in wall-clock time, counted in nanoseconds since the Unix epoch.
#[derive(Clone, Copy, Debug, PartialEq, Eq, Structural)]
pub struct Instant {
    pub nanos: u128,
}

/// `a + b` capped at `u128::MAX`: instants past the cap are so far in the
/// future that a schedule carrying one never comes due.
pub open spec fn sat_add(a: u128, b: u128) -> u128 {
    if a + b > u128::MAX {
        u128::MAX
    } else {
        (a + b) as u128
    }
}

impl Span {
    /// A span of the given number of whole seconds.
    pub fn from_secs(secs: u64) -> (r: Span)
        ensures
            r.nanos == secs * NANOS_PER_SEC,
    {
        Span { nanos: (secs as u128) * NANOS_PER_SEC }
    }

    /// A span of the given number of milliseconds.
    pub fn from_millis(millis: u64) -> (r: Span)
        ensures
            r.nanos == millis * 1_000_000,
    {
        Span { nanos: (millis as u128) * 1_000_000 }
    }

    /// A span of the given number of nanoseconds.
    pub fn from_nanos(nanos: u128) -> (r: Span)
        ensures
            r.nanos == nanos,
    {
        Span { nanos }
    }
}

impl Instant {
    /// The instant the given number of nanoseconds after the Unix epoch.
    pub fn from_nanos(nanos: u128) -> (r: Instant)
        ensures
            r.nanos == nanos,
    {
        Instant { nanos }
    }

    /// This instant moved forward by `s`, capped at the far-future limit.
    pub fn plus(self, s: Span) -> (r: Instant)
        ensures
            r.nanos == sat_add(self.nanos, s.nanos),
    {
        Instant { nanos: self.nanos.saturating_add(s.nanos) }
    }
}

/// Why a schedule-time string could not be parsed.
#[derive(Debug)]
pub enum ScheduleTimeError {
    /// The string has no `tag:value` shape.
    InvalidFormat,
    /// The tag is neither `delay` nor `at`; carries the offending tag,
    /// lower-cased.
    UnknownTag(String),
    /// The value after `delay:` is not a valid duration; carries the parser's
    /// message.
    DurationParseError(String),
    /// The value after `at:` is not a valid timestamp; carries the parser's
    /// message.
    TimestampParseError(String),
}

/// The descriptive text of a `ScheduleTimeError`.
pub open spec fn schedule_time_error_text(e: ScheduleTimeError) -> Seq<char> {
    match e {
        ScheduleTimeError::InvalidFormat => "Invalid format: expected 'delay:<duration>' or 'at:<timestamp>'"@,
        ScheduleTimeError::UnknownTag(t) => "Unknown schedule type tag: '"@ + t@ + "'"@,
        ScheduleTimeError::DurationParseError(m) => "Failed to parse duration: "@ + m@,
        ScheduleTimeError::TimestampParseError(m) => "Failed to parse timestamp: "@ + m@,
    }
}

impl ScheduleTimeError {
    /// The descriptive text of this error.
    pub fn message(&self) -> (r: String)
        ensures
            r@ == schedule_time_error_text(*self),
    {
        match self {
            ScheduleTimeError::InvalidFormat => String::from_str(
                "Invalid format: expected 'delay:<duration>' or 'at:<timestamp>'",
            ),
            ScheduleTimeError::UnknownTag(t) => String::from_str("Unknown schedule type tag: '")
                .concat(t.as_str())
                .concat("'"),
            ScheduleTimeError::DurationParseError(m) => String::from_str(
                "Failed to parse duration: ",
            ).concat(m.as_str()),
            ScheduleTimeError::TimestampParseError(m) => String::from_str(
                "Failed to parse timestamp: ",
            ).concat(m.as_str()),
        }
    }
}


/// The largest span the duration formatter accepts: the whole-second part
/// must fit the formatter's 64-bit seconds.
pub const MAX_FORMAT_DURATION_NANOS: u128 = 18_446_744_073_709_551_615_999_999_999;

/// The last representable second of the timestamp formatter's calendar.
pub const MAX_TIMESTAMP_SECS: u64 = 253_402_300_799;

/// The largest instant the timestamp formatter accepts.
pub const MAX_FORMAT_TIMESTAMP_NANOS: u128 = 253_402_300_799_999_999_999;

/// The duration, as whole seconds and a sub-second nanosecond part, that the
/// duration grammar gives to a string, where it accepts the string at all.
pub uninterp spec fn dur_of_str(s: Seq<char>) -> Option<(u64, u32)>;

/// The canonical text of a duration given as whole seconds and a sub-second
/// nanosecond part.
pub uninterp spec fn dur_str_of(secs: u64, nanos: u32) -> Seq<char>;

/// The instant, as whole seconds and a sub-second nanosecond part since the
/// Unix epoch, that the timestamp grammar gives to a string, where it accepts
/// the string at all.
pub uninterp spec fn ts_of_str(s: Seq<char>) -> Option<(u64, u32)>;

/// The canonical text of an instant given as whole seconds and a sub-second
/// nanosecond part since the Unix epoch.
pub uninterp spec fn ts_str_of(secs: u64, nanos: u32) -> Seq<char>;

/// Relies on humantime's `parse_duration`: parsing is a function of the
/// string alone; a parsed duration's sub-second part is below one second.
#[verifier::external_body]
fn parse_duration_str(s: &str) -> (r: Result<(u64, u32), String>)
    ensures
        r matches Ok(d) ==> dur_of_str(s@) == Some(d),
        r is Err ==> dur_of_str(s@) is None,
        r matches Ok(d) ==> d.1 < 1_000_000_000,
{
    match humantime::parse_duration(s) {
        Ok(d) => Ok((d.as_secs(), d.subsec_nanos())),
        Err(e) => Err(format!("{}", e)),
    }
}

/// Relies on humantime's `format_duration`: the text it produces is a pure
/// function of the duration; it is documented to parse back, via
/// `parse_duration`, to the same value; and, as its source shows, it starts
/// with a digit and ends with a unit letter.
#[verifier::external_body]
fn format_duration_str(secs: u64, nanos: u32) -> (r: String)
    requires
        nanos < 1_000_000_000,
    ensures
        r@ == dur_str_of(secs, nanos),
        dur_of_str(r@) == Some((secs, nanos)),
        r@.len() > 0,
        '0' <= r@[0] && r@[0] <= '9',
        'a' <= r@[r@.len() - 1] && r@[r@.len() - 1] <= 'z',
{
    humantime::format_duration(std::time::Duration::new(secs, nanos)).to_string()
}

/// Relies on humantime's `Timestamp` parsing (the RFC3339-like grammar):
/// parsing is a function of the string alone; an accepted instant lies
/// between the Unix epoch and the last second of the formatter's calendar,
/// with a sub-second part below one second.
#[verifier::external_body]
fn parse_timestamp_str(s: &str) -> (r: Result<(u64, u32), String>)
    ensures
        r matches Ok(d) ==> ts_of_str(s@) == Some(d),
        r is Err ==> ts_of_str(s@) is None,
        r matches Ok(d) ==> d.0 <= MAX_TIMESTAMP_SECS && d.1 < 1_000_000_000,
{
    match s.parse::<humantime::Timestamp>() {
        Ok(ts) => {
            let st: std::time::SystemTime = ts.into();
            match st.duration_since(std::time::UNIX_EPOCH) {
                Ok(d) => Ok((d.as_secs(), d.subsec_nanos())),
                Err(e) => Err(format!("{}", e)),
            }
        },
        Err(e) => Err(format!("{}", e)),
    }
}

/// Relies on humantime's `format_rfc3339`: the text it produces is a pure
/// function of the instant; instants past the year-9999 calendar are refused
/// by the formatter, so they are kept out here.
#[verifier::external_body]
fn format_timestamp_str(secs: u64, nanos: u32) -> (r: String)
    requires
        secs <= MAX_TIMESTAMP_SECS,
        nanos < 1_000_000_000,
    ensures
        r@ == ts_str_of(secs, nanos),
{
    humantime::format_rfc3339(
        std::time::UNIX_EPOCH + std::time::Duration::new(secs, nanos),
    ).to_string()
}

/// The whitespace stripped from the edges of a tag or value.
pub open spec fn is_space(c: char) -> bool {
    c == ' ' || c == '\t' || c == '\n' || c == '\r'
}

/// An ASCII capital letter folded to its small form; any other character is
/// kept.  Tags are matched ASCII-case-insensitively.
pub open spec fn lower_char(c: char) -> char {
    if 'A' <= c && c <= 'Z' {
        (((c as u8) + 32) as u8) as char
    } else {
        c
    }
}

/// `s` with every ASCII capital letter folded to its small form.
pub open spec fn spec_lower(s: Seq<char>) -> Seq<char> {
    s.map_values(|c: char| lower_char(c))
}

/// `s` without its leading whitespace.
pub open spec fn spec_trim_front(s: Seq<char>) -> Seq<char>
    decreases s.len(),
{
    if s.len() == 0 {
        s
    } else if is_space(s[0]) {
        spec_trim_front(s.drop_first())
    } else {
        s
    }
}

/// `s` without its trailing whitespace.
pub open spec fn spec_trim_back(s: Seq<char>) -> Seq<char>
    decreases s.len(),
{
    if s.len() == 0 {
        s
    } else if is_space(s[s.len() - 1]) {
        spec_trim_back(s.drop_last())
    } else {
        s
    }
}

/// `s` without its leading and trailing whitespace.
pub open spec fn spec_trim(s: Seq<char>) -> Seq<char> {
    spec_trim_back(spec_trim_front(s))
}

/// The position of the first colon in `s`, where it has one.
pub open spec fn spec_first_colon(s: Seq<char>) -> Option<int>
    decreases s.len(),
{
    if s.len() == 0 {
        None
    } else if s[0] == ':' {
        Some(0int)
    } else {
        match spec_first_colon(s.drop_first()) {
            Some(i) => Some(i + 1),
            None => None,
        }
    }
}

/// A colon at `i` with none before it is the first colon.
pub proof fn lemma_first_colon_at(s: Seq<char>, i: int)
    requires
        0 <= i < s.len(),
        s[i] == ':',
        forall|t: int| 0 <= t < i ==> s[t] != ':',
    ensures
        spec_first_colon(s) == Some(i),
    decreases i,
{
    if i > 0 {
        lemma_first_colon_at(s.drop_first(), i - 1);
    }
}

/// A string without a colon has no first colon.
pub proof fn lemma_first_colon_none(s: Seq<char>)
    requires
        forall|t: int| 0 <= t < s.len() ==> s[t] != ':',
    ensures
        spec_first_colon(s) is None,
    decreases s.len(),
{
    if s.len() > 0 {
        lemma_first_colon_none(s.drop_first());
    }
}

/// Dropping exactly the leading whitespace is what `spec_trim_front` does.
pub proof fn lemma_trim_front_skip(s: Seq<char>, a: int)
    requires
        0 <= a <= s.len(),
        forall|t: int| 0 <= t < a ==> is_space(s[t]),
        a < s.len() ==> !is_space(s[a]),
    ensures
        spec_trim_front(s) =~= s.skip(a),
    decreases a,
{
    if a > 0 {
        lemma_trim_front_skip(s.drop_first(), a - 1);
    }
}

/// Dropping exactly the trailing whitespace is what `spec_trim_back` does.
pub proof fn lemma_trim_back_take(s: Seq<char>, b: int)
    requires
        0 <= b <= s.len(),
        forall|t: int| b <= t < s.len() ==> is_space(s[t]),
        b > 0 ==> !is_space(s[b - 1]),
    ensures
        spec_trim_back(s) =~= s.take(b),
    decreases s.len() - b,
{
    if b < s.len() {
        lemma_trim_back_take(s.drop_last(), b);
    }
}

/// Whether `c` is edge whitespace.
fn is_space_char(c: char) -> (r: bool)
    ensures
        r == is_space(c),
{
    c == ' ' || c == '\t' || c == '\n' || c == '\r'
}

/// An ASCII capital letter folded to its small form.
fn lower_char_exec(c: char) -> (r: char)
    ensures
        r == lower_char(c),
{
    if 'A' <= c && c <= 'Z' {
        ((c as u8) + 32) as char
    } else {
        c
    }
}

/// Relies on std's `String::push`: appends one character.
#[verifier::external_body]
fn push_char(s: &mut String, c: char)
    ensures
        final(s)@ == old(s)@.push(c),
{
    s.push(c);
}

/// `s` with every ASCII capital letter folded to its small form.
fn lower_string(s: &str) -> (r: String)
    ensures
        r@ == spec_lower(s@),
{
    let n = s.unicode_len();
    let mut out = String::new();
    let mut i: usize = 0;
    while i < n
        invariant
            n == s@.len(),
            i <= n,
            out@.len() == i,
            forall|t: int| 0 <= t < i ==> #[trigger] out@[t] == lower_char(s@[t]),
        decreases n - i,
    {
        let c = s.get_char(i);
        let lc = lower_char_exec(c);
        push_char(&mut out, lc);
        i = i + 1;
    }
    proof {
        assert(out@ =~= spec_lower(s@));
    }
    out
}

/// The position of the first colon in `s`, where it has one.
fn find_colon(s: &str) -> (r: Option<usize>)
    ensures
        r matches Some(i) ==> i < s@.len() && s@[i as int] == ':' && (forall|t: int|
            0 <= t < i ==> s@[t] != ':'),
        r is None ==> forall|t: int| 0 <= t < s@.len() ==> s@[t] != ':',
{
    let n = s.unicode_len();
    let mut i: usize = 0;
    while i < n
        invariant
            n == s@.len(),
            i <= n,
            forall|t: int| 0 <= t < i ==> s@[t] != ':',
        decreases n - i,
    {
        let c = s.get_char(i);
        if c == ':' {
            return Some(i);
        }
        i = i + 1;
    }
    None
}

/// `s` without its leading and trailing whitespace.
fn trim_str(s: &str) -> (r: &str)
    ensures
        r@ == spec_trim(s@),
{
    let n = s.unicode_len();
    let mut a: usize = 0;
    while a < n
        invariant
            n == s@.len(),
            a <= n,
            forall|t: int| 0 <= t < a ==> is_space(s@[t]),
        ensures
            a <= n,
            forall|t: int| 0 <= t < a ==> is_space(s@[t]),
            a < n ==> !is_space(s@[a as int]),
        decreases n - a,
    {
        let c = s.get_char(a);
        if !is_space_char(c) {
            break;
        }
        a = a + 1;
    }
    let mut b: usize = n;
    while b > a
        invariant
            n == s@.len(),
            a <= b <= n,
            forall|t: int| b <= t < n ==> is_space(s@[t]),
        ensures
            a <= b <= n,
            forall|t: int| b <= t < n ==> is_space(s@[t]),
            b > a ==> !is_space(s@[b - 1]),
        decreases b,
    {
        let c = s.get_char(b - 1);
        if !is_space_char(c) {
            break;
        }
        b = b - 1;
    }
    let r = s.substring_char(a, b);
    proof {
        lemma_trim_front_skip(s@, a as int);
        lemma_trim_back_take(s@.skip(a as int), b - a);
        assert(s@.skip(a as int).take(b - a) =~= s@.subrange(a as int, b as int));
    }
    r
}

/// When a job should run: either after a relative delay or at an absolute
/// instant.
#[derive(Clone, Copy, Debug, PartialEq, Eq, Structural)]
pub enum ScheduleTime {
    /// Run after the given span has passed.
    Delay(Span),
    /// Run at the given instant.
    At(Instant),
}

/// The instant a `ScheduleTime` denotes, resolved against `now`: an absolute
/// time stands as it is, a delay is measured from `now`.
pub open spec fn resolve_spec(t: ScheduleTime, now: u128) -> u128 {
    match t {
        ScheduleTime::At(i) => i.nanos,
        ScheduleTime::Delay(s) => sat_add(now, s.nanos),
    }
}

impl ScheduleTime {
    /// Resolve this specifier against `now`.  Resolution happens once, at
    /// schedule construction; a delay means "this long after construction",
    /// never "this long after the latest query".
    pub fn resolve(self, now: Instant) -> (r: Instant)
        ensures
            r.nanos == resolve_spec(self, now.nanos),
    {
        match self {
            ScheduleTime::At(i) => i,
            ScheduleTime::Delay(s) => now.plus(s),
        }
    }
}


/// The schedule time that `s` parses to, where the grammar accepts `s` at
/// all: the text before the first colon, trimmed and case-folded, names the
/// kind; the text after it, trimmed, carries a duration or a timestamp.
pub open spec fn parse_ok(s: Seq<char>) -> Option<ScheduleTime> {
    match spec_first_colon(s) {
        None => None,
        Some(i) => {
            let tag = spec_lower(spec_trim(s.take(i)));
            let value = spec_trim(s.skip(i + 1));
            if tag == "delay"@ {
                match dur_of_str(value) {
                    Some(d) => Some(
                        ScheduleTime::Delay(
                            Span { nanos: (d.0 * NANOS_PER_SEC + d.1) as u128 },
                        ),
                    ),
                    None => None,
                }
            } else if tag == "at"@ {
                match ts_of_str(value) {
                    Some(d) => Some(
                        ScheduleTime::At(
                            Instant { nanos: (d.0 * NANOS_PER_SEC + d.1) as u128 },
                        ),
                    ),
                    None => None,
                }
            } else {
                None
            }
        },
    }
}

/// The canonical text of a schedule time: the kind's tag, a colon, and the
/// canonical duration or timestamp text.
pub open spec fn format_spec(t: ScheduleTime) -> Seq<char> {
    match t {
        ScheduleTime::Delay(sp) => "delay:"@ + dur_str_of(
            (sp.nanos / NANOS_PER_SEC) as u64,
            (sp.nanos % NANOS_PER_SEC) as u32,
        ),
        ScheduleTime::At(i) => "at:"@ + ts_str_of(
            (i.nanos / NANOS_PER_SEC) as u64,
            (i.nanos % NANOS_PER_SEC) as u32,
        ),
    }
}

impl ScheduleTime {
    /// Parse a schedule-time string: `delay:` before a human-readable
    /// duration, or `at:` before an RFC3339-like timestamp.  The tag is
    /// matched ASCII-case-insensitively and both parts are trimmed.  Each
    /// failure names its cause: no colon at all, an unknown tag, or a value
    /// the duration or timestamp grammar rejects.
    pub fn parse_str(s: &str) -> (r: Result<ScheduleTime, ScheduleTimeError>)
        ensures
            r matches Ok(t) ==> parse_ok(s@) == Some(t),
            parse_ok(s@) matches Some(t) ==> r == Ok::<ScheduleTime, ScheduleTimeError>(t),
            spec_first_colon(s@) is None ==> r == Err::<ScheduleTime, ScheduleTimeError>(
                ScheduleTimeError::InvalidFormat,
            ),
            spec_first_colon(s@) matches Some(i) ==> {
                let tag = spec_lower(spec_trim(s@.take(i)));
                let value = spec_trim(s@.skip(i + 1));
                &&& (tag != "delay"@ && tag != "at"@) ==> (r matches Err(
                    ScheduleTimeError::UnknownTag(t),
                ) && t@ == tag)
                &&& (tag == "delay"@ && dur_of_str(value) is None) ==> (r matches Err(
                    ScheduleTimeError::DurationParseError(_),
                ))
                &&& (tag == "at"@ && ts_of_str(value) is None) ==> (r matches Err(
                    ScheduleTimeError::TimestampParseError(_),
                ))
            },
    {
        let colon = find_colon(s);
        let i = match colon {
            Some(i) => i,
            None => {
                proof {
                    lemma_first_colon_none(s@);
                }
                return Err(ScheduleTimeError::InvalidFormat);
            },
        };
        proof {
            lemma_first_colon_at(s@, i as int);
        }
        let n = s.unicode_len();
        let tag_part = s.substring_char(0, i);
        let value_part = s.substring_char(i + 1, n);
        let tag_trimmed = trim_str(tag_part);
        let value = trim_str(value_part);
        let tag = lower_string(tag_trimmed);
        proof {
            assert(s@.subrange(0, i as int) =~= s@.take(i as int));
            assert(s@.subrange(i + 1, n as int) =~= s@.skip(i + 1));
            assert(tag@ == spec_lower(spec_trim(s@.take(i as int))));
            assert(value@ == spec_trim(s@.skip(i as int + 1)));
            reveal_strlit("delay");
            reveal_strlit("at");
        }
        if tag.eq(&String::from_str("delay")) {
            proof {
                assert(tag@ =~= "delay"@);
            }
            match parse_duration_str(value) {
                Ok(d) => {
                    let nanos: u128 = (d.0 as u128) * NANOS_PER_SEC + (d.1 as u128);
                    Ok(ScheduleTime::Delay(Span { nanos }))
                },
                Err(msg) => Err(ScheduleTimeError::DurationParseError(msg)),
            }
        } else if tag.eq(&String::from_str("at")) {
            proof {
                assert(tag@ =~= "at"@);
            }
            match parse_timestamp_str(value) {
                Ok(d) => {
                    let nanos: u128 = (d.0 as u128) * NANOS_PER_SEC + (d.1 as u128);
                    Ok(ScheduleTime::At(Instant { nanos }))
                },
                Err(msg) => Err(ScheduleTimeError::TimestampParseError(msg)),
            }
        } else {
            Err(ScheduleTimeError::UnknownTag(tag))
        }
    }

    /// The canonical text of this schedule time.  A formatted delay parses
    /// back to the very same delay: formatting never loses the value.  The
    /// formatters cannot take a span whose whole seconds overflow their
    /// 64-bit calendar, so such far-out values are kept out.
    pub fn to_string(&self) -> (r: String)
        requires
            *self matches ScheduleTime::Delay(sp) ==> sp.nanos <= MAX_FORMAT_DURATION_NANOS,
            *self matches ScheduleTime::At(t) ==> t.nanos <= MAX_FORMAT_TIMESTAMP_NANOS,
        ensures
            r@ == format_spec(*self),
            *self matches ScheduleTime::Delay(_) ==> parse_ok(r@) == Some(*self),
    {
        match self {
            ScheduleTime::Delay(sp) => {
                let secs: u64 = (sp.nanos / NANOS_PER_SEC) as u64;
                let sub: u32 = (sp.nanos % NANOS_PER_SEC) as u32;
                let fmt = format_duration_str(secs, sub);
                let r = String::from_str("delay:").concat(fmt.as_str());
                proof {
                    lemma_delay_text_parses_back(r@, fmt@, secs, sub);
                    assert(sp.nanos == secs * NANOS_PER_SEC + sub);
                }
                r
            },
            ScheduleTime::At(t) => {
                let secs: u64 = (t.nanos / NANOS_PER_SEC) as u64;
                let sub: u32 = (t.nanos % NANOS_PER_SEC) as u32;
                let fmt = format_timestamp_str(secs, sub);
                String::from_str("at:").concat(fmt.as_str())
            },
        }
    }
}

impl std::str::FromStr for ScheduleTime {
    type Err = ScheduleTimeError;

    fn from_str(s: &str) -> Result<ScheduleTime, ScheduleTimeError> {
        ScheduleTime::parse_str(s)
    }
}

/// The canonical delay text parses back to the delay it was formatted from:
/// the colon after the tag is the first colon, the tag folds to `delay`, the
/// value is already trimmed because the duration text starts with a digit and
/// ends with a letter, and the duration text itself parses back to its value.
proof fn lemma_delay_text_parses_back(s: Seq<char>, fmt: Seq<char>, secs: u64, sub: u32)
    requires
        s == "delay:"@ + fmt,
        fmt == dur_str_of(secs, sub),
        dur_of_str(fmt) == Some((secs, sub)),
        fmt.len() > 0,
        '0' <= fmt[0] && fmt[0] <= '9',
        'a' <= fmt[fmt.len() - 1] && fmt[fmt.len() - 1] <= 'z',
    ensures
        parse_ok(s) == Some(
            ScheduleTime::Delay(Span { nanos: (secs * NANOS_PER_SEC + sub) as u128 }),
        ),
{
    reveal_strlit("delay:");
    reveal_strlit("delay");
    assert(s.len() == 6 + fmt.len());
    assert(s[5] == ':');
    assert(forall|t: int| 0 <= t < 5 ==> s[t] != ':');
    lemma_first_colon_at(s, 5);
    let tag_raw = s.take(5);
    assert(tag_raw =~= "delay"@);
    assert(spec_trim_front("delay"@) == "delay"@);
    assert(spec_trim("delay"@) == "delay"@);
    assert(spec_lower("delay"@) =~= "delay"@);
    let value_raw = s.skip(6);
    assert(value_raw =~= fmt);
    assert(!is_space(fmt[0]));
    assert(!is_space(fmt[fmt.len() - 1]));
    assert(spec_trim_front(fmt) == fmt);
    assert(spec_trim_back(fmt) == fmt);
    assert(spec_trim(fmt) == fmt);
}

} // verus!
