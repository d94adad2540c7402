//! Identifiers and timestamps, between their wire text and their stored values.
use vstd::prelude::*;

verus! {

/// A stored identifier: the 128-bit value of a UUID.
#[derive(Clone, Copy, Debug, PartialEq, Eq, Structural)]
pub struct StorageId {
    pub value: u128,
}

/// A UTC instant, counted in milliseconds since 1970-01-01T00:00:00Z.
#[derive(Clone, Copy, Debug, PartialEq, Eq, Structural)]
pub struct Timestamp {
    pub millis: i64,
}

/// Earliest instant the date library represents (-262143-01-01T00:00:00Z).
pub const MIN_MILLIS: i64 = -8334601228800000;

/// Latest instant the date library represents (262142-12-31T23:59:59.999Z).
pub const MAX_MILLIS: i64 = 8210266876799999;

/// First instant with a four-digit year (0000-01-01T00:00:00Z).
pub const FIRST_WIRE_MILLIS: i64 = -62167219200000;

/// Last instant with a four-digit year (9999-12-31T23:59:59.999Z).
pub const LAST_WIRE_MILLIS: i64 = 253402300799999;

/// Why a wire value was rejected.
#[derive(Clone, Copy, Debug, PartialEq, Eq, Structural)]
pub enum CodecError {
    InvalidIdentifier,
    InvalidTimestamp,
}

pub open spec fn representable(ms: int) -> bool {
    MIN_MILLIS <= ms <= MAX_MILLIS
}

/// Instants whose RFC 3339 text has a four-digit year.
pub open spec fn wire_range(ms: int) -> bool {
    FIRST_WIRE_MILLIS <= ms <= LAST_WIRE_MILLIS
}

impl Timestamp {
    pub open spec fn wf(self) -> bool {
        representable(self.millis as int)
    }

    /// The instant `millis`, where the date library can represent it.
    pub fn from_millis(millis: i64) -> (r: Option<Timestamp>)
        ensures
            r is Some <==> representable(millis as int),
            r matches Some(t) ==> t.millis == millis,
    {
        if MIN_MILLIS <= millis && millis <= MAX_MILLIS {
            Some(Timestamp { millis })
        } else {
            None
        }
    }

    pub fn is_valid(&self) -> (r: bool)
        ensures
            r == self.wf(),
    {
        MIN_MILLIS <= self.millis && self.millis <= MAX_MILLIS
    }
}

pub open spec fn hex_char(n: int) -> char {
    seq!['0', '1', '2', '3', '4', '5', '6', '7', '8', '9', 'a', 'b', 'c', 'd', 'e', 'f'][n]
}

/// The `j`-th hexadecimal digit of `v`, most significant first.
pub open spec fn nibble(v: u128, j: int) -> int {
    (v as int / vstd::arithmetic::power::pow(16, (31 - j) as nat)) % 16
}

pub open spec fn is_dash_position(i: int) -> bool {
    i == 8 || i == 13 || i == 18 || i == 23
}

/// How many digits precede text position `i` of the hyphenated form.
pub open spec fn digit_index(i: int) -> int {
    if i > 23 {
        i - 4
    } else if i > 18 {
        i - 3
    } else if i > 13 {
        i - 2
    } else if i > 8 {
        i - 1
    } else {
        i
    }
}

/// The hyphenated lower-case text of a UUID, `xxxxxxxx-xxxx-xxxx-xxxx-xxxxxxxxxxxx`.
pub open spec fn uuid_text(v: u128) -> Seq<char> {
    Seq::new(
        36,
        |i: int|
            if is_dash_position(i) {
                '-'
            } else {
                hex_char(nibble(v, digit_index(i)))
            },
    )
}

/// What the UUID parser makes of a text.
pub uninterp spec fn uuid_parse_of(s: Seq<char>) -> Option<u128>;

/// The RFC 3339 text, with milliseconds and `Z`, of an instant.
pub uninterp spec fn wire_text_of(ms: i64) -> Seq<char>;

/// What the RFC 3339 parser makes of a text, as milliseconds since the epoch.
pub uninterp spec fn wire_parse_of(s: Seq<char>) -> Option<i64>;

/// Relies on `uuid::Uuid`'s `Display`: the hyphenated lower-case form, which
/// `Uuid::parse_str` documents that it reads back.
#[verifier::external_body]
fn format_uuid(v: u128) -> (r: String)
    ensures
        r@ == uuid_text(v),
        uuid_parse_of(r@) == Some(v),
{
    uuid::Uuid::from_u128(v).to_string()
}

/// A text of the length of one of the UUID forms: simple (32 characters),
/// hyphenated (36), braced (38) or URN (45), all in ASCII.
pub open spec fn has_uuid_shape(s: Seq<char>) -> bool {
    &&& (s.len() == 32 || s.len() == 36 || s.len() == 38 || s.len() == 45)
    &&& forall|i: int| 0 <= i < s.len() ==> (#[trigger] s[i] as u32) < 128
}

/// Relies on `uuid::Uuid::parse_str` and `Uuid::as_u128`. The parser accepts
/// only inputs of 32, 36, 38 or 45 bytes made of hexadecimal digits, hyphens,
/// braces and the `urn:uuid:` prefix, which are all ASCII.
#[verifier::external_body]
fn parse_uuid(s: &str) -> (r: Option<u128>)
    ensures
        r == uuid_parse_of(s@),
        r is Some ==> has_uuid_shape(s@),
{
    match uuid::Uuid::parse_str(s) {
        Ok(u) => Some(u.as_u128()),
        Err(_) => None,
    }
}

/// A version-4 (random) UUID of the RFC 4122 variant: version nibble 4 and
/// variant bits `10`.
pub open spec fn is_random_uuid(v: u128) -> bool {
    (v >> 76u128) & 0xfu128 == 4 && (v >> 62u128) & 0x3u128 == 2
}

/// Relies on `uuid::Uuid::new_v4`, which masks random bits into the version
/// and variant of a random UUID; the other 122 bits are random.
#[verifier::external_body]
fn random_uuid() -> (r: u128)
    ensures
        is_random_uuid(r),
{
    uuid::Uuid::new_v4().as_u128()
}

/// Relies on `chrono::Utc::now` and `DateTime::timestamp_millis`: `now` counts
/// from the Unix epoch (it panics on a system clock set before 1970), and every
/// `DateTime<Utc>` lies between `DateTime::MIN_UTC` and `DateTime::MAX_UTC`.
#[verifier::external_body]
fn clock_millis() -> (r: i64)
    ensures
        0 <= r,
        representable(r as int),
{
    chrono::Utc::now().timestamp_millis()
}

/// Relies on `chrono::DateTime::from_timestamp_millis`, which succeeds on every
/// representable instant, and `DateTime::to_rfc3339_opts` with millisecond
/// seconds and `Z`.
#[verifier::external_body]
fn format_rfc3339(ms: i64) -> (r: String)
    requires
        representable(ms as int),
    ensures
        r@ == wire_text_of(ms),
{
    chrono::DateTime::from_timestamp_millis(ms).unwrap().to_rfc3339_opts(
        chrono::SecondsFormat::Millis,
        true,
    )
}

/// Relies on `chrono::DateTime::parse_from_rfc3339` and `DateTime::timestamp_millis`.
/// The parser reads every valid RFC 3339 text, and `to_rfc3339_opts` writes one
/// for an instant with a four-digit year (other years get a sign and more digits).
#[verifier::external_body]
fn parse_rfc3339(s: &str) -> (r: Option<i64>)
    ensures
        r == wire_parse_of(s@),
        forall|ms: i64| wire_range(ms as int) && #[trigger] wire_text_of(ms) == s@ ==> r == Some(ms),
{
    match chrono::DateTime::parse_from_rfc3339(s) {
        Ok(d) => Some(d.timestamp_millis()),
        Err(_) => None,
    }
}

/// What `parse_identifier` returns for a text.
pub open spec fn parsed_identifier(s: Seq<char>) -> Result<StorageId, CodecError> {
    match uuid_parse_of(s) {
        Some(v) => Ok(StorageId { value: v }),
        None => Err(CodecError::InvalidIdentifier),
    }
}

/// Reads a wire identifier.
pub fn parse_identifier(wire: &str) -> (r: Result<StorageId, CodecError>)
    ensures
        r == parsed_identifier(wire@),
        r is Ok ==> has_uuid_shape(wire@),
{
    match parse_uuid(wire) {
        Some(v) => Ok(StorageId { value: v }),
        None => Err(CodecError::InvalidIdentifier),
    }
}

/// A fresh random identifier for a new record.
pub fn mint_identifier() -> (r: StorageId)
    ensures
        is_random_uuid(r.value),
{
    StorageId { value: random_uuid() }
}

impl StorageId {
    /// The wire text of the identifier; the parser reads it back to the same value.
    pub fn to_wire(&self) -> (r: String)
        ensures
            r@ == uuid_text(self.value),
            parsed_identifier(r@) == Ok::<StorageId, CodecError>(*self),
    {
        format_uuid(self.value)
    }
}

/// The current time.
pub fn now() -> (r: Timestamp)
    ensures
        r.wf(),
        0 <= r.millis,
{
    Timestamp { millis: clock_millis() }
}

/// The RFC 3339 text of an instant, where it is representable.
pub fn to_wire_timestamp(t: Timestamp) -> (r: Option<String>)
    ensures
        r is Some <==> t.wf(),
        r matches Some(s) ==> s@ == wire_text_of(t.millis),
{
    if t.is_valid() {
        Some(format_rfc3339(t.millis))
    } else {
        None
    }
}

/// A text is a wire timestamp at millisecond precision when it is the text of
/// an instant with a four-digit year.
pub open spec fn is_wire_timestamp(s: Seq<char>) -> bool {
    exists|ms: i64| wire_range(ms as int) && #[trigger] wire_text_of(ms) == s
}

/// Reads an RFC 3339 timestamp. The texts that `to_wire_timestamp` writes for
/// four-digit years read back to their instant, so writing what was read gives
/// the text back.
pub fn parse_wire_timestamp(wire: &str) -> (r: Result<Timestamp, CodecError>)
    ensures
        r == (match wire_parse_of(wire@) {
            Some(ms) => if representable(ms as int) {
                Ok(Timestamp { millis: ms })
            } else {
                Err(CodecError::InvalidTimestamp)
            },
            None => Err(CodecError::InvalidTimestamp),
        }),
        is_wire_timestamp(wire@) ==> (r matches Ok(t) && t.wf() && wire_text_of(t.millis) == wire@),
{
    let r = match parse_rfc3339(wire) {
        Some(ms) => match Timestamp::from_millis(ms) {
            Some(t) => Ok(t),
            None => Err(CodecError::InvalidTimestamp),
        },
        None => Err(CodecError::InvalidTimestamp),
    };
    r
}

} // verus!
