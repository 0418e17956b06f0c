//! The queue's calls into the clock, the random source, the process table,
//! path joining and a few of std's character facts, each with what the called
//! code's source or documentation says of its result.
use vstd::prelude::*;
use sysinfo::{Pid, Process, ProcessesToUpdate, System};
use chrono::{DateTime, Utc};

verus! {

/// A lower-case hexadecimal digit.
pub open spec fn is_lower_hex(c: char) -> bool {
    ('0' <= c && c <= '9') || ('a' <= c && c <= 'f')
}

/// The hyphenated lower-case text of a version 4, RFC 4122 variant UUID:
/// `xxxxxxxx-xxxx-4xxx-Yxxx-xxxxxxxxxxxx` with `Y` one of `8 9 a b`.
pub open spec fn is_uuid_v4_text(s: Seq<char>) -> bool {
    &&& s.len() == 36
    &&& s[8] == '-' && s[13] == '-' && s[18] == '-' && s[23] == '-'
    &&& forall|i: int|
        0 <= i < 36 && i != 8 && i != 13 && i != 18 && i != 23 ==> is_lower_hex(#[trigger] s[i])
    &&& s[14] == '4'
    &&& (s[19] == '8' || s[19] == '9' || s[19] == 'a' || s[19] == 'b')
}

/// What `char::is_alphanumeric` answers for `c` (the Unicode `Alphabetic` or
/// `Numeric` property).
pub uninterp spec fn char_alphanumeric(c: char) -> bool;

/// An ASCII letter or digit.
pub open spec fn is_ascii_alphanumeric(c: char) -> bool {
    ('a' <= c && c <= 'z') || ('A' <= c && c <= 'Z') || ('0' <= c && c <= '9')
}

/// A character that ends a path component before a file name: a separator of
/// some platform (`/`, `\`) or the colon of a Windows drive prefix.
pub open spec fn is_path_boundary(c: char) -> bool {
    c == '/' || c == '\\' || c == ':'
}

/// A plain file name: not empty, and holding no path boundary character, so
/// that it is one relative component on every platform.
pub open spec fn is_plain_name(f: Seq<char>) -> bool {
    f.len() > 0 && forall|i: int| 0 <= i < f.len() ==> !is_path_boundary(#[trigger] f[i])
}

/// A directory that does not begin with `\\?`, so that no Windows verbatim
/// prefix (`\\?\`) applies to it.
pub open spec fn plain_dir(d: Seq<char>) -> bool {
    !(d.len() >= 3 && d[0] == '\\' && d[1] == '\\' && d[2] == '?')
}

/// `p` is the directory `dir` followed by the name `file`, either directly (the
/// directory is empty or already ends with a separator or a drive prefix) or,
/// after a directory that is not empty, one separator character.
pub open spec fn joins_as(p: Seq<char>, dir: Seq<char>, file: Seq<char>) -> bool {
    ||| p == dir + file
    ||| {
        &&& dir.len() > 0
        &&& p.len() == dir.len() + 1 + file.len()
        &&& is_path_boundary(p[dir.len() as int])
        &&& p == dir + seq![p[dir.len() as int]] + file
    }
}

/// What `std::path::Path::join` makes of the directory `dir` and the name `file`.
pub uninterp spec fn joined_path(dir: Seq<char>, file: Seq<char>) -> Seq<char>;

/// What `chrono` reads from an RFC 3339 text: the instant, as whole seconds after
/// the Unix epoch (`timestamp`) and the nanoseconds past that second
/// (`timestamp_subsec_nanos`), or `None` when the text does not parse.
pub uninterp spec fn rfc3339_instant(text: Seq<char>) -> Option<(i64, u32)>;

/// The seconds of an instant that RFC 3339 can write: a date of the years 0000
/// to 9999, shifted by an offset of less than a day.
pub open spec fn rfc3339_secs(s: int) -> bool {
    -62_167_305_600 <= s <= 253_402_387_199
}

/// The seconds of a UTC instant of the years 0000 to 9999.
pub open spec fn four_digit_year_secs(s: int) -> bool {
    -62_167_219_200 <= s <= 253_402_300_799
}

/// `sysinfo::System`, a snapshot of the machine, carried through opaquely.
#[verifier::external_type_specification]
#[verifier::external_body]
pub struct ExSystem(System);

/// `sysinfo::Process`, one process of a snapshot, carried through opaquely.
#[verifier::external_type_specification]
#[verifier::external_body]
pub struct ExProcess(Process);

/// `uuid::Uuid::new_v4`, as its hyphenated text (`to_string`). The source masks
/// the random bits to set version 4 and the RFC 4122 variant, and `Display`
/// writes the hyphenated lower-case form. Which UUID comes out is chance.
#[verifier::external_body]
pub(crate) fn new_uuid_v4() -> (r: String)
    ensures
        is_uuid_v4_text(r@),
{
    uuid::Uuid::new_v4().to_string()
}

/// A decimal digit.
pub open spec fn is_digit(c: char) -> bool {
    '0' <= c && c <= '9'
}

/// The RFC 3339 text that chrono writes for a UTC instant of the years 0 to 9999:
/// `YYYY-MM-DDTHH:MM:SS`, then a fraction of 3, 6 or 9 digits unless the
/// instant falls on a whole second, then the offset `+00:00`.
pub open spec fn is_utc_rfc3339(t: Seq<char>) -> bool {
    let n = t.len() as int;
    &&& (n == 25 || n == 29 || n == 32 || n == 35)
    &&& t[4] == '-' && t[7] == '-' && t[10] == 'T' && t[13] == ':' && t[16] == ':'
    &&& forall|i: int| 0 <= i < 19 && i != 4 && i != 7 && i != 10 && i != 13 && i != 16 ==> is_digit(#[trigger] t[i])
    &&& (n > 25 ==> t[19] == '.' && forall|i: int| 20 <= i < n - 6 ==> is_digit(#[trigger] t[i]))
    &&& t.subrange(n - 6, n) == "+00:00"@
}

/// A text that the UTC clock gives: it ends with the offset `+00:00`, and when it
/// reads back as an instant (the years 0000 to 9999) it is written as
/// `is_utc_rfc3339` says.
pub open spec fn clock_text(t: Seq<char>) -> bool {
    &&& crate::text::ends_with(t, "+00:00"@)
    &&& rfc3339_instant(t) is Some ==> is_utc_rfc3339(t)
}

/// A reading of the UTC clock: the instant as whole seconds after the Unix epoch
/// and nanoseconds past that second, and as RFC 3339 text.
pub(crate) struct UtcNow {
    pub secs: i64,
    pub subsec: u32,
    pub text: String,
}

/// `chrono::Utc::now`, converted with `timestamp`, `timestamp_subsec_nanos` and
/// `to_rfc3339`. Which instant comes out depends on the clock. What holds of
/// every reading: the clock's nanoseconds are below one second; `to_rfc3339`
/// writes a year of 0000 to 9999 with four digits, then the time, a fraction of
/// 3, 6 or 9 digits unless it is zero, and the offset `+00:00`, so that
/// `parse_from_rfc3339` reads the same instant back; any other year it writes
/// with a sign, which `parse_from_rfc3339` refuses.
#[verifier::external_body]
pub(crate) fn utc_now() -> (r: UtcNow)
    ensures
        r.subsec < 1_000_000_000,
        four_digit_year_secs(r.secs as int) ==> rfc3339_instant(r.text@) == Some((r.secs, r.subsec)),
        four_digit_year_secs(r.secs as int) ==> is_utc_rfc3339(r.text@),
        !four_digit_year_secs(r.secs as int) ==> rfc3339_instant(r.text@) is None,
        crate::text::ends_with(r.text@, "+00:00"@),
{
    let t = Utc::now();
    UtcNow { secs: t.timestamp(), subsec: t.timestamp_subsec_nanos(), text: t.to_rfc3339() }
}

/// `std::path::Path::join` of the directory `dir` and the relative name `file`,
/// as text (the parts are text, so the joined path is too). The separator is the
/// one of the platform the crate is built for; the result is named, not spelled
/// out, but for its shape: as `PathBuf::push` shows, a relative name is
/// appended to the directory as it stands, after one separator unless the
/// directory is empty or ends with a separator or a bare drive prefix. (Under a
/// Windows verbatim prefix `\\?\` the whole path is rebuilt from its components,
/// so the shape is stated only for a directory that does not begin with `\\?`.)
#[verifier::external_body]
pub(crate) fn join_path(dir: &str, file: &str) -> (r: String)
    ensures
        r@ == joined_path(dir@, file@),
        plain_dir(dir@) && is_plain_name(file@) ==> joins_as(r@, dir@, file@),
{
    std::path::Path::new(dir).join(file).to_string_lossy().into_owned()
}

/// `chrono::DateTime::parse_from_rfc3339`, the instant read as seconds since the
/// epoch (`timestamp`) and nanoseconds past that second (`timestamp_subsec_nanos`).
/// Its result is named, not spelled out, beyond what the parser's source shows of
/// its range: the year has four digits and the offset is less than a day, and
/// the nanoseconds stay below two seconds' worth (a leap second adds one).
#[verifier::external_body]
pub(crate) fn parse_rfc3339(text: &str) -> (r: Option<(i64, u32)>)
    ensures
        r == rfc3339_instant(text@),
        r matches Some((s, n)) ==> rfc3339_secs(s as int) && n < 2_000_000_000,
{
    match DateTime::parse_from_rfc3339(text) {
        Ok(t) => Some((t.timestamp(), t.timestamp_subsec_nanos())),
        Err(_) => None,
    }
}

/// `char::is_alphanumeric`. Its answer is named, not spelled out, beyond what
/// the Unicode properties give for ASCII: letters and digits are alphanumeric,
/// and the punctuation `.`, `?`, `/`, `\` and `:` is not.
#[verifier::external_body]
pub(crate) fn is_alphanumeric(c: char) -> (r: bool)
    ensures
        r == char_alphanumeric(c),
        is_ascii_alphanumeric(c) ==> r,
        (c == '.' || c == '?' || is_path_boundary(c)) ==> !r,
{
    c.is_alphanumeric()
}

/// `sysinfo::System::new_all`: a snapshot of the machine with every process
/// loaded, or `None` where `sysinfo` cannot read the machine. It depends on the
/// machine, so nothing is stated of it.
#[verifier::external_body]
pub(crate) fn system_with_all() -> (r: Option<System>) {
    System::new_all().ok()
}

/// `sysinfo::System::new`: an empty snapshot, or `None` where `sysinfo` cannot
/// read the machine.
#[verifier::external_body]
pub(crate) fn system_empty() -> (r: Option<System>) {
    System::new().ok()
}

/// `sysinfo::System::refresh_processes` for the one process `pid`, dropping it
/// from the snapshot when it is dead. What the snapshot then holds depends on the
/// machine.
#[verifier::external_body]
pub(crate) fn refresh_process(sys: &mut System, pid: u32) {
    let pids = [Pid::from_u32(pid)];
    sys.refresh_processes(ProcessesToUpdate::Some(&pids), true);
}

/// `sysinfo::System::process`: the process `pid` in the snapshot, if it is there.
#[verifier::external_body]
pub(crate) fn find_process(sys: &System, pid: u32) -> (r: Option<&Process>) {
    sys.process(Pid::from_u32(pid))
}

/// `sysinfo::Process::start_time`: seconds from the epoch at which the process
/// started, as the machine reports it.
#[verifier::external_body]
pub(crate) fn process_start_time(p: &Process) -> (r: u64) {
    p.start_time()
}

} // verus!
