//! A snapshot of the data file: its text and the day of its last change.

use chrono::DateTime;
use chrono::Utc;
use vstd::prelude::*;
use vstd::utf8::decode_utf8;
use vstd::utf8::valid_utf8;

verus! {

/// Why no snapshot of the data file could be taken.
#[derive(Clone, Copy, Debug, PartialEq, Eq, Structural)]
pub enum SnapshotError {
    /// The file, or its metadata, could not be read.
    Unreadable,
    /// The file's bytes are not UTF-8 text.
    NotText,
    /// The modification time lies outside the calendar that dates are taken from.
    TimeOutOfRange,
}

/// The data file as one request saw it.
#[derive(Debug)]
pub struct Snapshot {
    /// The whole text of the file.
    pub contents: String,
    /// The UTC day of the last modification, as `YYYY-MM-DD`.
    pub modified: String,
}

/// The mathematical value of a [`Snapshot`].
pub struct SnapshotView {
    pub contents: Seq<char>,
    pub modified: Seq<char>,
}

impl View for Snapshot {
    type V = SnapshotView;

    open spec fn view(&self) -> SnapshotView {
        SnapshotView { contents: self.contents@, modified: self.modified@ }
    }
}

/// A modification time as a file system gives it: a distance from the Unix
/// epoch, in whole seconds and nanoseconds beyond them, and the side of the
/// epoch on which the time lies.
#[derive(Clone, Copy, Debug, PartialEq, Eq, Structural)]
pub struct FileTime {
    /// Whether the time lies before the epoch.
    pub before_epoch: bool,
    /// The whole seconds between the time and the epoch.
    pub secs: u64,
    /// The nanoseconds beyond the whole seconds.
    pub nanos: u32,
}

impl FileTime {
    /// The second in which the time falls, counted from the Unix epoch: the
    /// time in seconds, rounded down.
    pub open spec fn epoch_seconds(self) -> int {
        if !self.before_epoch {
            self.secs as int
        } else if self.nanos == 0 {
            -(self.secs as int)
        } else {
            -(self.secs as int) - 1
        }
    }

    /// The time `secs` whole seconds after the epoch.
    pub fn after_epoch(secs: u64) -> (t: FileTime)
        ensures
            t == (FileTime { before_epoch: false, secs, nanos: 0 }),
            t.epoch_seconds() == secs,
    {
        FileTime { before_epoch: false, secs, nanos: 0 }
    }

    /// The second in which the time falls, where a signed 64-bit number
    /// holds it.
    pub fn whole_seconds(&self) -> (r: Option<i64>)
        ensures
            r == if i64::MIN <= self.epoch_seconds() <= i64::MAX {
                Some(self.epoch_seconds() as i64)
            } else {
                None
            },
    {
        if !self.before_epoch {
            if self.secs <= 0x7fff_ffff_ffff_ffff {
                Some(self.secs as i64)
            } else {
                None
            }
        } else if self.nanos == 0 {
            if self.secs < 0x8000_0000_0000_0000 {
                Some(-(self.secs as i64))
            } else if self.secs == 0x8000_0000_0000_0000 {
                Some(i64::MIN)
            } else {
                None
            }
        } else {
            if self.secs <= 0x7fff_ffff_ffff_ffff {
                Some(-(self.secs as i64) - 1)
            } else {
                None
            }
        }
    }
}

/// The UTC calendar day that holds the instant `secs` seconds after the Unix
/// epoch, written as year, month and day with hyphens between them; `None`
/// where the day lies outside the calendar's range.
pub uninterp spec fn utc_date_text(secs: int) -> Option<Seq<char>>;

/// Trusted: `chrono::DateTime::<Utc>::from_timestamp` followed by
/// `DateTime::format` with the pattern `%F`. The contract claims only that the
/// outcome is a function of `secs`: the same instant gives the same text, or
/// the same refusal, whatever the machine's time zone.
#[verifier::external_body]
fn utc_date(secs: i64) -> (date: Option<String>)
    ensures
        match date {
            Some(text) => utc_date_text(secs as int) == Some(text@),
            None => utc_date_text(secs as int) is None,
        },
{
    match DateTime::<Utc>::from_timestamp(secs, 0) {
        Some(instant) => Some(instant.format("%F").to_string()),
        None => None,
    }
}

/// Trusted: `String::from_utf8`. The contract claims that the conversion
/// succeeds exactly on well-formed UTF-8 and then yields the characters that
/// the bytes encode.
#[verifier::external_body]
fn text_of_bytes(bytes: Vec<u8>) -> (text: Option<String>)
    ensures
        match text {
            Some(decoded) => valid_utf8(bytes@) && decoded@ == decode_utf8(bytes@),
            None => !valid_utf8(bytes@),
        },
{
    match String::from_utf8(bytes) {
        Ok(s) => Some(s),
        Err(_) => None,
    }
}

/// What [`date_or_error`] returns for a date that was, or was not, found.
pub open spec fn date_outcome(date: Option<Seq<char>>) -> Result<Seq<char>, SnapshotError> {
    match date {
        Some(text) => Ok(text),
        None => Err(SnapshotError::TimeOutOfRange),
    }
}

/// The day of a file time: that of the second in which it falls, where a
/// signed 64-bit number holds that second and the calendar reaches it.
pub open spec fn time_outcome(t: FileTime) -> Result<Seq<char>, SnapshotError> {
    if i64::MIN <= t.epoch_seconds() <= i64::MAX {
        date_outcome(utc_date_text(t.epoch_seconds()))
    } else {
        Err(SnapshotError::TimeOutOfRange)
    }
}

/// What [`decode_contents`] returns for the given bytes.
pub open spec fn contents_outcome(bytes: Seq<u8>) -> Result<Seq<char>, SnapshotError> {
    if valid_utf8(bytes) {
        Ok(decode_utf8(bytes))
    } else {
        Err(SnapshotError::NotText)
    }
}

/// The snapshot that follows from what reading the file gave: its bytes and
/// its modification time, each absent where the read failed.
pub open spec fn snapshot_outcome(contents: Option<Seq<u8>>, modified: Option<FileTime>) -> Result<
    SnapshotView,
    SnapshotError,
> {
    match (modified, contents) {
        (None, _) => Err(SnapshotError::Unreadable),
        (Some(t), _) if time_outcome(t) is Err => Err(SnapshotError::TimeOutOfRange),
        (Some(_), None) => Err(SnapshotError::Unreadable),
        (Some(_), Some(bytes)) if !valid_utf8(bytes) => Err(SnapshotError::NotText),
        (Some(t), Some(bytes)) => Ok(
            SnapshotView { contents: decode_utf8(bytes), modified: time_outcome(t).unwrap() },
        ),
    }
}

/// The view of a text result.
pub open spec fn text_result_view(r: Result<String, SnapshotError>) -> Result<
    Seq<char>,
    SnapshotError,
> {
    match r {
        Ok(s) => Ok(s@),
        Err(e) => Err(e),
    }
}

/// The view of a snapshot result.
pub open spec fn snapshot_result_view(r: Result<Snapshot, SnapshotError>) -> Result<
    SnapshotView,
    SnapshotError,
> {
    match r {
        Ok(s) => Ok(s@),
        Err(e) => Err(e),
    }
}

/// Turns the outcome of a date lookup into a result: the text where there is
/// one, `TimeOutOfRange` where there is none.
pub fn date_or_error(date: Option<String>) -> (r: Result<String, SnapshotError>)
    ensures
        match date {
            Some(text) => r == Ok::<String, SnapshotError>(text),
            None => r == Err::<String, SnapshotError>(SnapshotError::TimeOutOfRange),
        },
{
    match date {
        Some(text) => Ok(text),
        None => Err(SnapshotError::TimeOutOfRange),
    }
}

/// The UTC day on which a file was last modified, given that time as seconds
/// since the Unix epoch, in the form `YYYY-MM-DD`.
pub fn modified_date(secs: i64) -> (r: Result<String, SnapshotError>)
    ensures
        text_result_view(r) == date_outcome(utc_date_text(secs as int)),
{
    date_or_error(utc_date(secs))
}

/// Reads the file's bytes as text. Nothing is trimmed or replaced: the text
/// is the bytes, decoded.
pub fn decode_contents(bytes: Vec<u8>) -> (r: Result<String, SnapshotError>)
    ensures
        text_result_view(r) == contents_outcome(bytes@),
{
    match text_of_bytes(bytes) {
        Some(text) => Ok(text),
        None => Err(SnapshotError::NotText),
    }
}

/// The view of bytes that may be absent.
pub open spec fn bytes_view(contents: Option<Vec<u8>>) -> Option<Seq<u8>> {
    match contents {
        Some(bytes) => Some(bytes@),
        None => None,
    }
}

/// The UTC day of a file's modification time, in the form `YYYY-MM-DD`.
pub fn modified_day(t: FileTime) -> (r: Result<String, SnapshotError>)
    ensures
        text_result_view(r) == time_outcome(t),
{
    match t.whole_seconds() {
        Some(secs) => modified_date(secs),
        None => Err(SnapshotError::TimeOutOfRange),
    }
}

/// Assembles a snapshot from what one read of the data file gave.
///
/// `modified` is the file's modification time, `contents` its bytes; each is
/// `None` where the file system refused. A missing time or missing bytes give
/// `Unreadable`, a time beyond the calendar `TimeOutOfRange`, bytes that are
/// not UTF-8 `NotText`. The time is looked at first.
pub fn take_snapshot(contents: Option<Vec<u8>>, modified: Option<FileTime>) -> (r: Result<
    Snapshot,
    SnapshotError,
>)
    ensures
        snapshot_result_view(r) == snapshot_outcome(bytes_view(contents), modified),
{
    let time = match modified {
        Some(t) => t,
        None => { return Err(SnapshotError::Unreadable); },
    };
    let day = modified_day(time)?;
    let bytes = match contents {
        Some(bytes) => bytes,
        None => { return Err(SnapshotError::Unreadable); },
    };
    let text = decode_contents(bytes)?;
    Ok(Snapshot { contents: text, modified: day })
}

} // verus!
