//! Points in time as the store writes them down, and the lenient reading of
//! the three textual encodings that its rows may hold.

use vstd::prelude::*;
use vstd::string::StringExecFns;
use vstd::string::StringSliceAdditionalSpecFns;
use vstd::utf8::encode_utf8;

verus! {

/// The format of a timestamp with whole seconds.
pub const CURRENT_TIMESTAMP_FMT: &'static str = "%Y-%m-%d %H:%M:%S";

/// The format of a timestamp with nine fractional digits.
pub const SQLITE_DATETIME_FMT: &'static str = "%Y-%m-%d %H:%M:%S.%N";

/// The older format: a colon before the fraction, and an offset at the end.
pub const SQLITE_DATETIME_FMT_LEGACY: &'static str = "%Y-%m-%d %H:%M:%S:%N %z";

/// What is appended to a timestamp with milliseconds to make nine
/// fractional digits of it.
pub const MILLISECOND_PADDING: &'static str = "000000";

/// What `time::PrimitiveDateTime::parse` makes of `text` under `format`,
/// read as a time in UTC: seconds since the epoch and the nanoseconds
/// within the second, or `None` where the text does not fit the format.
pub uninterp spec fn parsed_primitive(text: Seq<char>, format: Seq<char>) -> Option<(i64, u32)>;

/// What `time::OffsetDateTime::parse` makes of `text` under `format`:
/// seconds since the epoch and the nanoseconds within the second, or `None`
/// where the text does not fit the format.
pub uninterp spec fn parsed_offset(text: Seq<char>, format: Seq<char>) -> Option<(i64, u32)>;

/// What `time::OffsetDateTime::format` makes, under `format`, of the time
/// in UTC that lies `nanoseconds` after the epoch.
pub uninterp spec fn formatted_utc(nanoseconds: i128, format: Seq<char>) -> Seq<char>;

/// The greatest distance from the epoch, in seconds, of a time that is
/// written down: some ninety-five thousand years, which keeps every such
/// time within the years -100000 to 100000.
pub const WRITTEN_SECONDS: i64 = 3_000_000_000_000;

/// The nanoseconds in a second.
pub const NANOS_PER_SECOND: u32 = 1_000_000_000;

/// The error of the parsers of the `time` crate, carried through unread.
#[verifier::external_type_specification]
#[verifier::external_body]
pub struct ExParseError(time::ParseError);

/// Calls `time::PrimitiveDateTime::parse` and reads the result as UTC.
/// Claimed: the outcome is a function of the text and the format alone.
/// The format must be one of the two this module knows to be well formed:
/// the parser panics on a malformed format.
#[verifier::external_body]
fn parse_primitive(text: &str, format: &str) -> (parts: Result<(i64, u32), time::ParseError>)
    requires
        format@ == CURRENT_TIMESTAMP_FMT@ || format@ == SQLITE_DATETIME_FMT@,
    ensures
        match parts {
            Ok(p) => parsed_primitive(text@, format@) == Some(p),
            Err(_) => parsed_primitive(text@, format@) is None,
        },
{
    let parsed = time::PrimitiveDateTime::parse(text, format)?.assume_utc();
    Ok((parsed.unix_timestamp(), parsed.nanosecond()))
}

/// Calls `time::OffsetDateTime::parse`. Claimed: the outcome is a function
/// of the text and the format alone. The format must be the legacy one,
/// which is well formed: the parser panics on a malformed format. The text
/// must not name the year 100000 before or after the year 0: the crate
/// holds no year beyond, and panics where the offset moves a time of that
/// year over the edge. Only a year with a sign has that many digits.
#[verifier::external_body]
fn parse_offset(text: &str, format: &str) -> (parts: Result<(i64, u32), time::ParseError>)
    requires
        format@ == SQLITE_DATETIME_FMT_LEGACY@,
        !year_at_the_edge(text.spec_bytes()),
    ensures
        match parts {
            Ok(p) => parsed_offset(text@, format@) == Some(p),
            Err(_) => parsed_offset(text@, format@) is None,
        },
{
    let parsed = time::OffsetDateTime::parse(text, format)?;
    Ok((parsed.unix_timestamp(), parsed.nanosecond()))
}

/// Calls `time::OffsetDateTime::from_unix_timestamp_nanos` and
/// `time::OffsetDateTime::format`. Claimed: the text is a function of the
/// time and the format alone. The format must be the one with
/// nanoseconds, which is well formed, and the time must lie within
/// [`WRITTEN_SECONDS`] of the epoch: the crate panics on a malformed
/// format, and on a time outside the years -100000 to 100000.
#[verifier::external_body]
fn format_utc(nanoseconds: i128, format: &str) -> (text: String)
    requires
        format@ == SQLITE_DATETIME_FMT@,
        -WRITTEN_SECONDS * NANOS_PER_SECOND <= nanoseconds < (WRITTEN_SECONDS + 1)
            * NANOS_PER_SECOND,
    ensures
        text@ == formatted_utc(nanoseconds, format@),
{
    time::OffsetDateTime::from_unix_timestamp_nanos(nanoseconds).format(format)
}

/// The encoding that a timestamp of a given length is taken to be in.
#[derive(Clone, Copy, Debug, PartialEq, Eq, Structural)]
pub enum TimestampForm {
    /// 19 bytes: whole seconds.
    Seconds,
    /// 23 bytes: milliseconds, padded to nanoseconds before it is read.
    Milliseconds,
    /// Any other length: nanoseconds, or else the legacy encoding.
    Nanoseconds,
}

/// A timestamp fitted none of the encodings tried for its length.
#[derive(Clone, Copy, Debug, PartialEq, Eq, Structural)]
pub struct TimestampError {
    /// The encoding whose reading failed first.
    pub expected: TimestampForm,
}

/// A point in time: seconds since 1970-01-01 00:00:00 UTC, and the
/// nanoseconds within that second.
#[derive(Clone, Copy, Debug, PartialEq, Eq, Hash, PartialOrd, Ord, Structural)]
pub struct DateTime {
    pub seconds: i64,
    pub nanos: u32,
}

/// The byte `+`.
pub const PLUS: u8 = 43;

/// The byte `-`.
pub const MINUS: u8 = 45;

/// Whether a text of these bytes begins with a sign.
pub open spec fn signed(bytes: Seq<u8>) -> bool {
    bytes.len() > 0 && (bytes[0] == PLUS || bytes[0] == MINUS)
}

/// The byte `0`.
pub const ZERO: u8 = 48;

/// The byte `1`.
pub const ONE: u8 = 49;

/// How many zeros after the first byte the parser of a year skips as
/// padding: those that follow it one upon the other, and at most three.
pub open spec fn skipped_zeros(bytes: Seq<u8>) -> int {
    if bytes.len() > 1 && bytes[1] == ZERO {
        if bytes.len() > 2 && bytes[2] == ZERO {
            if bytes.len() > 3 && bytes[3] == ZERO {
                3
            } else {
                2
            }
        } else {
            1
        }
    } else {
        0
    }
}

/// Whether a text of these bytes begins with the year 100000 before or
/// after the year 0: with a sign, the padding that the parser skips, and
/// the digits `100000`.
pub open spec fn year_at_the_edge(bytes: Seq<u8>) -> bool {
    let at = 1 + skipped_zeros(bytes);
    &&& signed(bytes)
    &&& bytes.len() >= at + 6
    &&& bytes[at] == ONE
    &&& bytes[at + 1] == ZERO
    &&& bytes[at + 2] == ZERO
    &&& bytes[at + 3] == ZERO
    &&& bytes[at + 4] == ZERO
    &&& bytes[at + 5] == ZERO
}

/// What the legacy parser makes of a text: nothing where the text begins
/// with the year 100000 before or after the year 0.
pub open spec fn legacy_reading(text: Seq<char>) -> Option<(i64, u32)> {
    if year_at_the_edge(encode_utf8(text)) {
        None
    } else {
        parsed_offset(text, SQLITE_DATETIME_FMT_LEGACY@)
    }
}

/// The nanoseconds within a second that `nanos` count as.
pub open spec fn within_second(nanos: u32) -> u32 {
    if nanos >= NANOS_PER_SECOND {
        (NANOS_PER_SECOND - 1) as u32
    } else {
        nanos
    }
}

/// The time that lies `secs` seconds and `nanos` nanoseconds after the
/// epoch, or before it where `before` is set: told in the seconds since the
/// epoch, rounded down, and the nanoseconds into that second.
pub open spec fn offset_from_epoch(before: bool, secs: u64, nanos: u32) -> DateTime {
    if !before {
        if secs > i64::MAX {
            DateTime { seconds: i64::MAX, nanos: (NANOS_PER_SECOND - 1) as u32 }
        } else {
            DateTime { seconds: secs as i64, nanos: within_second(nanos) }
        }
    } else if secs >= i64::MAX {
        DateTime { seconds: i64::MIN, nanos: 0 }
    } else if within_second(nanos) == 0 {
        DateTime { seconds: (-secs) as i64, nanos: 0 }
    } else {
        DateTime {
            seconds: (-secs - 1) as i64,
            nanos: (NANOS_PER_SECOND - within_second(nanos)) as u32,
        }
    }
}

/// The encoding tried for a text of `len` bytes.
pub open spec fn form_of(len: int) -> TimestampForm {
    if len == 19 {
        TimestampForm::Seconds
    } else if len == 23 {
        TimestampForm::Milliseconds
    } else {
        TimestampForm::Nanoseconds
    }
}

/// The result of reading a timestamp, given what each parser made of it:
/// the first reading where it succeeded; for the nanosecond form the legacy
/// reading where the first failed; else the error of the first.
pub open spec fn resolved(
    form: TimestampForm,
    first: Option<(i64, u32)>,
    legacy: Option<(i64, u32)>,
) -> Result<DateTime, TimestampError> {
    match first {
        Some(p) => Ok(DateTime { seconds: p.0, nanos: p.1 }),
        None => match legacy {
            Some(p) if form is Nanoseconds => Ok(DateTime { seconds: p.0, nanos: p.1 }),
            _ => Err(TimestampError { expected: form }),
        },
    }
}

/// What the first parser makes of a text in the encoding its length selects.
pub open spec fn first_reading(text: Seq<char>, len: int) -> Option<(i64, u32)> {
    match form_of(len) {
        TimestampForm::Seconds => parsed_primitive(text, CURRENT_TIMESTAMP_FMT@),
        TimestampForm::Milliseconds => parsed_primitive(
            text + MILLISECOND_PADDING@,
            SQLITE_DATETIME_FMT@,
        ),
        TimestampForm::Nanoseconds => parsed_primitive(text, SQLITE_DATETIME_FMT@),
    }
}

/// The result of reading `text`, whose encoding is `len` bytes long.
pub open spec fn reading(text: Seq<char>, len: int) -> Result<DateTime, TimestampError> {
    resolved(form_of(len), first_reading(text, len), legacy_reading(text))
}

impl DateTime {
    /// Whether the time can be written down: it lies within
    /// [`WRITTEN_SECONDS`] of the epoch, and its nanoseconds are less than
    /// a second.
    pub open spec fn written(self) -> bool {
        -WRITTEN_SECONDS <= self.seconds <= WRITTEN_SECONDS && self.nanos < NANOS_PER_SECOND
    }

    /// The nanoseconds from the epoch to the time.
    pub open spec fn since_epoch(self) -> int {
        self.seconds * NANOS_PER_SECOND + self.nanos
    }

    /// Writes the time down as the store holds it: in UTC, with nine
    /// fractional digits. There is no text for a time that cannot be
    /// written down.
    pub fn to_sql(&self) -> (text: Option<String>)
        ensures
            match text {
                Some(t) => self.written() && t@ == formatted_utc(
                    self.since_epoch() as i128,
                    SQLITE_DATETIME_FMT@,
                ),
                None => !self.written(),
            },
    {
        if self.seconds < -WRITTEN_SECONDS || self.seconds > WRITTEN_SECONDS || self.nanos
            >= NANOS_PER_SECOND {
            None
        } else {
            assert(-WRITTEN_SECONDS * NANOS_PER_SECOND <= self.seconds * NANOS_PER_SECOND
                <= WRITTEN_SECONDS * NANOS_PER_SECOND) by (nonlinear_arith)
                requires
                    -WRITTEN_SECONDS <= self.seconds <= WRITTEN_SECONDS,
            ;
            let total: i128 = self.seconds as i128 * NANOS_PER_SECOND as i128 + self.nanos as i128;
            Some(format_utc(total, SQLITE_DATETIME_FMT))
        }
    }

    /// The time that lies `secs` seconds and `nanos` nanoseconds after the
    /// epoch, or before it where `before` is set. Nanoseconds that make a
    /// second or more count as the last nanosecond of the second; a time
    /// too far from the epoch to be told in seconds is the farthest that
    /// can be told.
    pub fn from_epoch_offset(before: bool, secs: u64, nanos: u32) -> (t: DateTime)
        ensures
            t == offset_from_epoch(before, secs, nanos),
            t.nanos < NANOS_PER_SECOND,
            secs < i64::MAX ==> t.since_epoch() == if before {
                -(secs * NANOS_PER_SECOND + within_second(nanos))
            } else {
                secs * NANOS_PER_SECOND + within_second(nanos)
            },
    {
        let nanos = if nanos >= NANOS_PER_SECOND {
            NANOS_PER_SECOND - 1
        } else {
            nanos
        };
        if !before {
            if secs > i64::MAX as u64 {
                DateTime { seconds: i64::MAX, nanos: NANOS_PER_SECOND - 1 }
            } else {
                DateTime { seconds: secs as i64, nanos }
            }
        } else if secs >= i64::MAX as u64 {
            DateTime { seconds: i64::MIN, nanos: 0 }
        } else if nanos == 0 {
            DateTime { seconds: -(secs as i64), nanos: 0 }
        } else {
            let t = DateTime { seconds: -(secs as i64) - 1, nanos: NANOS_PER_SECOND - nanos };
            assert(t.since_epoch() == -(secs * NANOS_PER_SECOND + nanos)) by (nonlinear_arith)
                requires
                    t.seconds == -(secs as int) - 1,
                    t.nanos == NANOS_PER_SECOND - nanos,
                    t.since_epoch() == t.seconds * NANOS_PER_SECOND + t.nanos,
            ;
            t
        }
    }

    /// The start of the epoch.
    pub fn unix_epoch() -> (t: DateTime)
        ensures
            t == (DateTime { seconds: 0, nanos: 0 }),
    {
        DateTime { seconds: 0, nanos: 0 }
    }

    /// Whole seconds since the epoch; negative before it.
    pub fn unix_timestamp(&self) -> (s: i64)
        ensures
            s == self.seconds,
    {
        self.seconds
    }

    /// The encoding tried for a text of `len` bytes.
    pub fn form(len: usize) -> (form: TimestampForm)
        ensures
            form == form_of(len as int),
    {
        if len == 19 {
            TimestampForm::Seconds
        } else if len == 23 {
            TimestampForm::Milliseconds
        } else {
            TimestampForm::Nanoseconds
        }
    }

    /// Decides the result of reading a timestamp from what the parsers made
    /// of it: `first` under the encoding that the length selects, `legacy`
    /// under the legacy encoding.
    pub fn resolve(
        form: TimestampForm,
        first: Option<(i64, u32)>,
        legacy: Option<(i64, u32)>,
    ) -> (r: Result<DateTime, TimestampError>)
        ensures
            r == resolved(form, first, legacy),
    {
        match first {
            Some(p) => Ok(DateTime { seconds: p.0, nanos: p.1 }),
            None => match (form, legacy) {
                (TimestampForm::Nanoseconds, Some(p)) => Ok(DateTime { seconds: p.0, nanos: p.1 }),
                _ => Err(TimestampError { expected: form }),
            },
        }
    }

    /// Whether `text` begins with a sign.
    pub fn begins_with_sign(text: &str) -> (sign: bool)
        ensures
            sign == signed(text.spec_bytes()),
    {
        let bytes = text.as_bytes();
        bytes.len() > 0 && (bytes[0] == PLUS || bytes[0] == MINUS)
    }

    /// Whether `text` begins with the year 100000 before or after the
    /// year 0.
    pub fn begins_at_the_edge(text: &str) -> (edge: bool)
        ensures
            edge == year_at_the_edge(text.spec_bytes()),
    {
        if !DateTime::begins_with_sign(text) {
            return false;
        }
        let bytes = text.as_bytes();
        let mut at: usize = 1;
        if bytes.len() > 1 && bytes[1] == ZERO {
            at = 2;
            if bytes.len() > 2 && bytes[2] == ZERO {
                at = 3;
                if bytes.len() > 3 && bytes[3] == ZERO {
                    at = 4;
                }
            }
        }
        bytes.len() >= at + 6 && bytes[at] == ONE && bytes[at + 1] == ZERO && bytes[at + 2]
            == ZERO && bytes[at + 3] == ZERO && bytes[at + 4] == ZERO && bytes[at + 5] == ZERO
    }

    /// Reads a timestamp in any of the encodings the store may hold. A text
    /// of 19 bytes is read as whole seconds; one of 23 bytes as milliseconds,
    /// after six zeros are appended; any other as nanoseconds and, where that
    /// fails, in the legacy encoding, unless it begins with the year
    /// 100000 before or after the year 0. Times are in UTC.
    pub fn parse(text: &str) -> (r: Result<DateTime, TimestampError>)
        ensures
            r == reading(text@, text.len() as int),
    {
        let form = DateTime::form(text.len());
        let first = match form {
            TimestampForm::Seconds => parse_primitive(text, CURRENT_TIMESTAMP_FMT),
            TimestampForm::Milliseconds => {
                let mut padded = String::from_str(text);
                padded.append(MILLISECOND_PADDING);
                parse_primitive(padded.as_str(), SQLITE_DATETIME_FMT)
            },
            TimestampForm::Nanoseconds => parse_primitive(text, SQLITE_DATETIME_FMT),
        };
        match first {
            Ok(p) => DateTime::resolve(form, Some(p), None),
            Err(_) => match form {
                TimestampForm::Nanoseconds => {
                    if DateTime::begins_at_the_edge(text) {
                        DateTime::resolve(form, None, None)
                    } else {
                        match parse_offset(text, SQLITE_DATETIME_FMT_LEGACY) {
                            Ok(p) => DateTime::resolve(form, None, Some(p)),
                            Err(_) => DateTime::resolve(form, None, None),
                        }
                    }
                },
                _ => DateTime::resolve(form, None, None),
            },
        }
    }
}

impl Default for DateTime {
    fn default() -> (t: DateTime)
        ensures
            t == (DateTime { seconds: 0, nanos: 0 }),
    {
        DateTime { seconds: 0, nanos: 0 }
    }
}

/// When a row was created.
#[derive(Clone, Copy, Debug, PartialEq, Eq, Hash, PartialOrd, Ord, Structural)]
pub struct CreatedTime(pub DateTime);

/// When a row was last modified.
#[derive(Clone, Copy, Debug, PartialEq, Eq, Hash, PartialOrd, Ord, Structural)]
pub struct LastModifiedTime(pub DateTime);

impl Default for CreatedTime {
    fn default() -> (t: CreatedTime)
        ensures
            t == CreatedTime(DateTime { seconds: 0, nanos: 0 }),
    {
        CreatedTime(DateTime { seconds: 0, nanos: 0 })
    }
}

impl Default for LastModifiedTime {
    fn default() -> (t: LastModifiedTime)
        ensures
            t == LastModifiedTime(DateTime { seconds: 0, nanos: 0 }),
    {
        LastModifiedTime(DateTime { seconds: 0, nanos: 0 })
    }
}

} // verus!
