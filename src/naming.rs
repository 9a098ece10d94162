//! Names of saved recordings and data URLs for serving saved files.
use vstd::prelude::*;
use base64::Engine;

verus! {

/// The standard base64 alphabet; character `v` stands for the 6-bit value `v`.
pub open spec fn base64_alphabet() -> Seq<char> {
    "ABCDEFGHIJKLMNOPQRSTUVWXYZabcdefghijklmnopqrstuvwxyz0123456789+/"@
}

/// The character for the 6-bit value `v`.
pub open spec fn b64(v: int) -> char {
    base64_alphabet()[v]
}

/// The base64 text of `data` in the standard alphabet: each group of three
/// bytes, read as 24 bits from the most significant end, gives four
/// characters of six bits each; a last group of one or two bytes is padded
/// with zero bits and completed with `=` to four characters.
pub open spec fn base64_of(data: Seq<u8>) -> Seq<char>
    decreases data.len(),
{
    if data.len() == 0 {
        seq![]
    } else if data.len() == 1 {
        let x = data[0] as int;
        seq![b64(x / 4), b64((x % 4) * 16), '=', '=']
    } else if data.len() == 2 {
        let x = data[0] as int;
        let y = data[1] as int;
        seq![b64(x / 4), b64((x % 4) * 16 + y / 16), b64((y % 16) * 4), '=']
    } else {
        let x = data[0] as int;
        let y = data[1] as int;
        let z = data[2] as int;
        seq![b64(x / 4), b64((x % 4) * 16 + y / 16), b64((y % 16) * 4 + z / 64), b64(z % 64)]
            + base64_of(data.subrange(3, data.len() as int))
    }
}

/// Relies on base64's `STANDARD.encode`: the standard alphabet with `=`
/// padding. It panics only when the output length overflows `usize`.
#[verifier::external_body]
fn base64_standard(data: &[u8]) -> (r: String)
    requires
        data@.len() <= usize::MAX / 4 * 3,
    ensures
        r@ == base64_of(data@),
{
    base64::engine::general_purpose::STANDARD.encode(data)
}

/// An ASCII decimal digit.
pub open spec fn is_digit(c: char) -> bool {
    '0' <= c <= '9'
}

/// The shape of a local time written as `YYYYmmdd_HHMMSS`: it ends in
/// eight digits, an underscore and six digits. A year past 9999 (or before
/// year 0) adds more digits (or a sign) in front.
pub open spec fn stamp_shape(s: Seq<char>) -> bool {
    &&& s.len() >= 15
    &&& s[s.len() - 7] == '_'
    &&& forall|i: int|
        s.len() - 15 <= i < s.len() && i != s.len() - 7 ==> is_digit(#[trigger] s[i])
}

/// A local date and time of day, to the second, as read from the host clock.
#[derive(Clone, Copy, Debug, PartialEq, Eq, Structural)]
pub struct LocalTime {
    pub year: i32,
    pub month: u32,
    pub day: u32,
    pub hour: u32,
    pub minute: u32,
    pub second: u32,
}

/// Whether `y` is a leap year of the Gregorian calendar.
pub open spec fn is_leap_year(y: int) -> bool {
    y % 4 == 0 && (y % 100 != 0 || y % 400 == 0)
}

/// Days in month `m` (1 to 12) of year `y`.
pub open spec fn days_in_month(y: int, m: int) -> int {
    if m == 2 {
        if is_leap_year(y) {
            29
        } else {
            28
        }
    } else if m == 4 || m == 6 || m == 9 || m == 11 {
        30
    } else {
        31
    }
}

/// A real calendar date and time of day, with a four-digit year.
pub open spec fn plain_local_time(t: LocalTime) -> bool {
    &&& 0 <= t.year <= 9999
    &&& 1 <= t.month <= 12
    &&& 1 <= t.day <= days_in_month(t.year as int, t.month as int)
    &&& t.hour < 24
    &&& t.minute < 60
    &&& t.second < 60
}

/// The decimal digit for `v` (0 to 9).
pub open spec fn digit(v: int) -> char {
    "0123456789"@[v]
}

/// `v` (0 to 99) as two digits.
pub open spec fn two_digits(v: int) -> Seq<char> {
    seq![digit(v / 10), digit(v % 10)]
}

/// `t` written as `YYYYmmdd_HHMMSS`, for a year of at most four digits.
pub open spec fn stamp_text(t: LocalTime) -> Seq<char> {
    let y = t.year as int;
    seq![digit(y / 1000), digit(y / 100 % 10), digit(y / 10 % 10), digit(y % 10)] + two_digits(
        t.month as int,
    ) + two_digits(t.day as int) + seq!['_'] + two_digits(t.hour as int) + two_digits(
        t.minute as int,
    ) + two_digits(t.second as int)
}

/// Relies on chrono's `NaiveDate::from_ymd_opt`, `NaiveDate::and_hms_opt` and
/// `format` with `%Y%m%d_%H%M%S`. The first two return `None` for a date or
/// time that does not exist (or a year outside chrono's range) and succeed
/// on every real one. The format writes the year zero-padded to four digits
/// (with a sign and more digits outside 0 to 9999) and every other field as
/// two digits. No time zone is consulted.
#[verifier::external_body]
fn format_local_time(t: &LocalTime) -> (r: Option<String>)
    ensures
        plain_local_time(*t) ==> r is Some,
        r is Some ==> stamp_shape(r->Some_0@),
        r is Some && 0 <= t.year <= 9999 ==> r->Some_0@ == stamp_text(*t),
{
    let date = chrono::NaiveDate::from_ymd_opt(t.year, t.month, t.day)?;
    let time = date.and_hms_opt(t.hour, t.minute, t.second)?;
    Some(time.format("%Y%m%d_%H%M%S").to_string())
}

/// Prefix of every recording's file name.
pub open spec fn recording_prefix() -> Seq<char> {
    "REC_"@
}

/// Extension of every recording's file name.
pub open spec fn recording_extension() -> Seq<char> {
    ".wav"@
}

/// The file name of a recording saved at time `stamp`.
pub fn recording_filename(stamp: &str) -> (r: String)
    ensures
        r@ == recording_prefix() + stamp@ + recording_extension(),
{
    let name = String::from_str("REC_");
    let name = name.concat(stamp);
    name.concat(".wav")
}

/// The file name of a recording saved at local time `t`: the prefix, `t`
/// as `YYYYmmdd_HHMMSS`, and the extension. `None` when `t` is not a real
/// date and time.
pub fn recording_filename_at(t: &LocalTime) -> (r: Option<String>)
    ensures
        plain_local_time(*t) ==> r is Some,
        r is Some ==> exists|stamp: Seq<char>|
            stamp_shape(stamp) && r->Some_0@ == recording_prefix() + stamp + recording_extension(),
        r is Some && 0 <= t.year <= 9999 ==> r->Some_0@ == recording_prefix() + stamp_text(*t)
            + recording_extension(),
{
    match format_local_time(t) {
        Some(stamp) => {
            let r = recording_filename(stamp.as_str());
            assert(r@ == recording_prefix() + stamp@ + recording_extension());
            Some(r)
        },
        None => None,
    }
}

/// Prefix of the data URL of a saved recording.
pub open spec fn audio_url_prefix() -> Seq<char> {
    "data:audio/wav;base64,"@
}

/// Prefix of the data URL of a gallery image.
pub open spec fn image_url_prefix() -> Seq<char> {
    "data:image/jpeg;base64,"@
}

/// The data URL of a WAV file whose base64 text is `encoded`.
pub fn audio_url_of(encoded: &str) -> (r: String)
    ensures
        r@ == audio_url_prefix() + encoded@,
{
    String::from_str("data:audio/wav;base64,").concat(encoded)
}

/// The data URL of an image whose base64 text is `encoded`.
pub fn image_url_of(encoded: &str) -> (r: String)
    ensures
        r@ == image_url_prefix() + encoded@,
{
    String::from_str("data:image/jpeg;base64,").concat(encoded)
}

/// A `data:` URL holding a WAV file's bytes.
pub fn audio_data_url(data: &[u8]) -> (r: String)
    requires
        data@.len() <= usize::MAX / 4 * 3,
    ensures
        r@ == audio_url_prefix() + base64_of(data@),
{
    let encoded = base64_standard(data);
    audio_url_of(encoded.as_str())
}

/// A `data:` URL holding an image file's bytes.
pub fn image_data_url(data: &[u8]) -> (r: String)
    requires
        data@.len() <= usize::MAX / 4 * 3,
    ensures
        r@ == image_url_prefix() + base64_of(data@),
{
    let encoded = base64_standard(data);
    image_url_of(encoded.as_str())
}

} // verus!
