use vstd::prelude::*;

use chrono::{DateTime, NaiveDateTime, Utc};

use crate::civil::{
    civil_seconds, first_rfc3339_second, is_rfc3339_text, is_utc_text, last_rfc3339_second,
    lemma_utc_text_reads_back, rfc3339_seconds, utc_fields_in, utc_fields_of, utc_text, valid_utc, UtcFields,
};
use crate::decimal::{decimal_string, decimal_text};
use crate::error::{Error, ErrorModel};
use crate::path_value::{
    option_model, path_named, string_entry, string_of, values_model, Path, PathAwareValue,
    PathModel, QueryResult, ValueModel,
};

verus! {

// ----------------------------------------------------------------------------
// The range of instants that chrono represents
// ----------------------------------------------------------------------------

/// The first second that chrono represents: -262143-01-01T00:00:00 UTC.
pub const MIN_EPOCH_SECONDS: i64 = -8334601228800;

/// The last whole second that chrono represents: +262142-12-31T23:59:59 UTC.
pub const MAX_EPOCH_SECONDS: i64 = 8210266876799;

/// Whether `seconds` since the Unix epoch names an instant that chrono represents.
pub open spec fn seconds_in_range(seconds: int) -> bool {
    MIN_EPOCH_SECONDS <= seconds <= MAX_EPOCH_SECONDS
}

// ----------------------------------------------------------------------------
// Calls into chrono
// ----------------------------------------------------------------------------

/// What chrono makes of an RFC 3339 text: the Unix timestamp, in whole seconds, of
/// the instant it denotes, or the text of the error with which chrono refuses it.
pub uninterp spec fn rfc3339_parse(text: Seq<char>) -> Result<i64, Seq<char>>;

/// Whether chrono reads `text`, where it is the RFC 3339 UTC text of a date and
/// time of the years 0000 to 9999, as the timestamp of that date and time.
pub open spec fn reads_utc_text(text: Seq<char>) -> bool {
    is_utc_text(text) ==> rfc3339_parse(text) == Ok::<i64, Seq<char>>(
        civil_seconds(utc_fields_in(text)) as i64,
    )
}

/// Whether chrono reads `text`, where it is an RFC 3339 text of the years 0000 to
/// 9999, as the instant it names.
pub open spec fn reads_rfc3339_text(text: Seq<char>) -> bool {
    is_rfc3339_text(text) ==> rfc3339_parse(text) == Ok::<i64, Seq<char>>(
        rfc3339_seconds(text) as i64,
    )
}

/// Reads `text` with chrono's `DateTime::parse_from_rfc3339`, moves the instant to
/// UTC with `with_timezone(&Utc)` and takes its `timestamp()`; an error becomes its
/// text (`to_string`).
///
/// Trusted:
/// - the result is `rfc3339_parse` of the text: chrono's parser and the text of its
///   errors depend on the text alone;
/// - a timestamp that chrono computes lies in the range it represents (chrono's
///   `DateTime` always holds an in-range UTC date and time, and its `timestamp`
///   counts the days and seconds of that date and time);
/// - the text `YYYY-MM-DDTHH:MM:SSZ` of a valid date and time of the years 0000 to
///   9999 reads as that date and time: chrono's parser takes the four year digits,
///   month, day, hour, minute and second from their places, builds the date with
///   `NaiveDate::from_ymd_opt`, takes `Z` as offset zero, and `timestamp` counts
///   the days of the proleptic Gregorian calendar since 1970-01-01;
/// - more generally, any RFC 3339 text of such a date and time, with separator `T`,
///   `t` or a space, an optional fraction of one or more digits and a zone `Z`, `z`
///   or `+HH:MM` / `-HH:MM` (`HH` at most 23, `MM` at most 59), reads as its
///   wall-clock date and time less its offset: the parser scans the fraction with
///   `scan::nanosecond` (the nanoseconds do not enter `timestamp`), the zone with
///   `scan::timezone_offset`, builds the instant with `and_local_timezone`, which
///   subtracts the offset, and `with_timezone(&Utc)` keeps that instant.
#[verifier::external_body]
fn rfc3339_timestamp(text: &str) -> (res: Result<i64, String>)
    ensures
        rfc3339_parse(text@) == (match res {
            Ok(t) => Ok(t),
            Err(msg) => Err(msg@),
        }),
        res matches Ok(t) ==> seconds_in_range(t as int),
        res is Err ==> !is_utc_text(text@),
        res matches Ok(t) ==> (is_utc_text(text@) ==> t == civil_seconds(utc_fields_in(text@))),
        res is Err ==> !is_rfc3339_text(text@),
        res matches Ok(t) ==> (is_rfc3339_text(text@) ==> t == rfc3339_seconds(text@)),
{
    match DateTime::parse_from_rfc3339(text) {
        Ok(datetime) => Ok(datetime.with_timezone(&Utc).timestamp()),
        Err(e) => Err(e.to_string()),
    }
}

/// Builds chrono's `NaiveDateTime::from_timestamp_opt(seconds, 0)` and, where it
/// exists, reads it back as a UTC `DateTime` with `DateTime::from_utc` and
/// `timestamp()`.
///
/// Trusted: chrono's source shows that `from_timestamp_opt` gives a date and time
/// exactly when the number of days lies in its date range, -262143-01-01 to
/// +262142-12-31, and that `timestamp` gives the seconds back unchanged.
#[verifier::external_body]
#[allow(deprecated)]
fn utc_timestamp_from_seconds(seconds: i64) -> (res: Option<i64>)
    ensures
        res == (if seconds_in_range(seconds as int) {
            Some(seconds)
        } else {
            None::<i64>
        }),
{
    match NaiveDateTime::from_timestamp_opt(seconds, 0) {
        Some(naive) => Some(DateTime::<Utc>::from_utc(naive, Utc).timestamp()),
        None => None,
    }
}

/// The current time as chrono's `Utc::now()`, read with `timestamp()`.
///
/// Trusted: only what holds of every outcome. chrono builds the instant from the
/// system clock's distance to the Unix epoch (it panics before the epoch) with
/// `DateTime::from_timestamp(..).unwrap()`, so the timestamp is not negative and
/// lies in the range chrono represents. Which second it is, is left unsaid.
#[verifier::external_body]
fn utc_now_timestamp() -> (res: i64)
    ensures
        0 <= res,
        seconds_in_range(res as int),
{
    Utc::now().timestamp()
}

// ----------------------------------------------------------------------------
// Messages and results
// ----------------------------------------------------------------------------

/// The message of a value that is no RFC 3339 date and time.
pub open spec fn datetime_failure_text(value: Seq<char>, at: Seq<char>, reason: Seq<char>) -> Seq<
    char,
> {
    "Failed to parse datetime: "@ + value + " at "@ + at + ": "@ + reason
}

/// The message of a number of seconds that names no instant chrono represents.
pub open spec fn seconds_failure_text(seconds: int) -> Seq<char> {
    "Failed to create NaiveDateTime from seconds: "@ + decimal_text(seconds)
}

/// Model of what a rule function returns.
pub open spec fn results_model(r: Result<Vec<Option<PathAwareValue>>, Error>) -> Result<
    Seq<Option<ValueModel>>,
    ErrorModel,
> {
    match r {
        Ok(out) => Ok(values_model(out@)),
        Err(e) => Err(e@),
    }
}

/// What `epoch_from_seconds` returns: the seconds themselves, at the path
/// `epoch_from_seconds`, where chrono represents that instant.
pub open spec fn epoch_from_seconds_model(seconds: i64) -> Result<
    Seq<Option<ValueModel>>,
    ErrorModel,
> {
    if seconds_in_range(seconds as int) {
        Ok(seq![Some(ValueModel::Int(path_named("epoch_from_seconds"@), seconds))])
    } else {
        Err(ErrorModel::ParseError(seconds_failure_text(seconds as int)))
    }
}

/// Whether `epoch_from_seconds` gives the epoch `t` back unchanged.
pub open spec fn round_trips(t: i64) -> bool {
    epoch_from_seconds_model(t) == Ok::<Seq<Option<ValueModel>>, ErrorModel>(
        seq![Some(ValueModel::Int(path_named("epoch_from_seconds"@), t))],
    )
}

/// The message for `value`, found at `at`, that is no RFC 3339 date and time.
fn datetime_failure_message(value: &str, at: &Path, reason: &str) -> (res: String)
    ensures
        res@ == datetime_failure_text(value@, at.pointer@, reason@),
{
    let mut msg: String = "Failed to parse datetime: ".to_owned();
    msg.append(value);
    msg.append(" at ");
    msg.append(at.pointer.as_str());
    msg.append(": ");
    msg.append(reason);
    msg
}

// ----------------------------------------------------------------------------
// parse_epoch
// ----------------------------------------------------------------------------

/// Whether a query result carries a string that chrono refuses as RFC 3339.
pub open spec fn epoch_unreadable(q: QueryResult) -> bool {
    string_of(q) matches Some((_, s)) && rfc3339_parse(s) is Err
}

/// Whether a query result carries the string `text`.
pub open spec fn carries_text(q: QueryResult, text: Seq<char>) -> bool {
    string_of(q) matches Some((_, s)) && s == text
}

/// What `parse_epoch` makes of one query result: the epoch of the date and time it
/// carries, at the path `parse_epoch`, or nothing where it carries no string.
pub open spec fn epoch_entry_model(q: QueryResult) -> Option<ValueModel> {
    match string_of(q) {
        Some((_, s)) => Some(
            ValueModel::Int(path_named("parse_epoch"@), rfc3339_parse(s)->Ok_0),
        ),
        None => None,
    }
}

/// What `parse_epoch` makes of each query result, in order.
pub open spec fn epoch_entries_model(args: Seq<QueryResult>) -> Seq<Option<ValueModel>> {
    args.map_values(|q: QueryResult| epoch_entry_model(q))
}

/// Whether `i` is the first of `args` that carries an unreadable date and time.
pub open spec fn first_unreadable(args: Seq<QueryResult>, i: int) -> bool {
    &&& 0 <= i < args.len()
    &&& epoch_unreadable(args[i])
    &&& forall|j: int| 0 <= j < i ==> !epoch_unreadable(#[trigger] args[j])
}

/// Whether `err` is the error that `parse_epoch` reports for `args` where the `i`-th
/// is the first that carries an unreadable date and time: its value, its path, and
/// the text of chrono's error. That value is no RFC 3339 UTC text of a date and time.
pub open spec fn epoch_failure(args: Seq<QueryResult>, i: int, err: ErrorModel) -> bool {
    &&& first_unreadable(args, i)
    &&& string_of(args[i]) matches Some((p, s))
    &&& err == ErrorModel::ParseError(
        datetime_failure_text(s, p.pointer, rfc3339_parse(s)->Err_0),
    )
    &&& !is_utc_text(s)
    &&& !is_rfc3339_text(s)
}

/// The error of `epoch_failure`, spelled out: the `i`-th argument carries a string
/// that chrono refuses, every string before it chrono reads, and the message names
/// the string, its path and chrono's reason.
proof fn lemma_failure_spelled(args: Seq<QueryResult>, i: int, err: ErrorModel)
    requires
        epoch_failure(args, i, err),
    ensures
        0 <= i < args.len(),
        string_of(args[i]) is Some,
        ({
            let (p, s) = string_of(args[i])->Some_0;
            &&& rfc3339_parse(s) is Err
            &&& forall|j: int|
                0 <= j < i ==> (#[trigger] string_of(args[j]) matches Some((_, r))
                    ==> rfc3339_parse(r) is Ok)
            &&& err == ErrorModel::ParseError(
                "Failed to parse datetime: "@ + s + " at "@ + p.pointer + ": "@ + rfc3339_parse(
                    s,
                )->Err_0,
            )
        }),
{
    assert forall|j: int| 0 <= j < i implies (#[trigger] string_of(args[j]) matches Some((_, r))
        ==> rfc3339_parse(r) is Ok) by {
        assert(!epoch_unreadable(args[j]));
    }
}

/// The value that `parse_epoch` makes of a string `value` at `at`, from what chrono
/// made of it: the epoch it read, or the text of its error.
pub fn epoch_entry(value: &str, at: &Path, parsed: Result<i64, String>) -> (res: Result<
    PathAwareValue,
    Error,
>)
    ensures
        match parsed {
            Ok(t) => res matches Ok(v) && v@ == ValueModel::Int(path_named("parse_epoch"@), t),
            Err(reason) => res matches Err(e) && e@ == ErrorModel::ParseError(
                datetime_failure_text(value@, at.pointer@, reason@),
            ),
        },
{
    match parsed {
        Ok(t) => {
            let new_path = Path::try_from("parse_epoch")?;
            Ok(PathAwareValue::Int((new_path, t)))
        },
        Err(reason) => Err(Error::ParseError(datetime_failure_message(value, at, reason.as_str()))),
    }
}

/// The Unix epoch, in seconds, of each argument that is an RFC 3339 date and time;
/// `None` for each argument that is no string. Fails on the first string that is
/// no RFC 3339 date and time.
pub fn parse_epoch(args: &[QueryResult]) -> (res: Result<Vec<Option<PathAwareValue>>, Error>)
    ensures
        res matches Ok(out) ==> {
            &&& forall|i: int| 0 <= i < args@.len() ==> !epoch_unreadable(#[trigger] args@[i])
            &&& values_model(out@) == epoch_entries_model(args@)
            &&& forall|i: int|
                0 <= i < out@.len() ==> (#[trigger] option_model(out@[i]) matches Some(
                    ValueModel::Int(_, t),
                ) ==> round_trips(t))
            &&& forall|i: int, f: UtcFields|
                0 <= i < args@.len() && valid_utc(f) && #[trigger] carries_text(
                    args@[i],
                    utc_text(f),
                ) ==> option_model(out@[i]) == Some(
                    ValueModel::Int(path_named("parse_epoch"@), civil_seconds(f) as i64),
                )
            &&& out@.len() == args@.len()
            &&& forall|i: int|
                0 <= i < args@.len() ==> (#[trigger] string_of(args@[i]) matches Some((_, s))
                    ==> option_model(out@[i]) == Some(
                    ValueModel::Int(path_named("parse_epoch"@), rfc3339_parse(s)->Ok_0),
                ))
            &&& forall|i: int|
                0 <= i < args@.len() && #[trigger] string_of(args@[i]) is None ==> out@[i] is None
            &&& forall|i: int, text: Seq<char>|
                0 <= i < args@.len() && #[trigger] carries_text(args@[i], text) && is_rfc3339_text(
                    text,
                ) ==> option_model(out@[i]) == Some(
                    ValueModel::Int(path_named("parse_epoch"@), rfc3339_seconds(text) as i64),
                )
        },
        res matches Err(e) ==> exists|i: int| #[trigger] epoch_failure(args@, i, e@),
        res matches Err(e) ==> exists|i: int|
            0 <= i < args@.len() && #[trigger] string_of(args@[i]) is Some && {
                let (p, s) = string_of(args@[i])->Some_0;
                &&& rfc3339_parse(s) is Err
                &&& forall|j: int|
                    0 <= j < i ==> (#[trigger] string_of(args@[j]) matches Some((_, r))
                        ==> rfc3339_parse(r) is Ok)
                &&& e@ == ErrorModel::ParseError(
                    "Failed to parse datetime: "@ + s + " at "@ + p.pointer + ": "@ + rfc3339_parse(
                        s,
                    )->Err_0,
                )
            },
{
    let mut aggr: Vec<Option<PathAwareValue>> = Vec::new();
    let mut i: usize = 0;
    while i < args.len()
        invariant
            0 <= i <= args@.len(),
            aggr@.len() == i,
            forall|j: int| 0 <= j < i ==> !epoch_unreadable(#[trigger] args@[j]),
            forall|j: int|
                0 <= j < i ==> #[trigger] option_model(aggr@[j]) == epoch_entry_model(args@[j]),
            forall|j: int|
                0 <= j < i ==> (#[trigger] option_model(aggr@[j]) matches Some(
                    ValueModel::Int(_, t),
                ) ==> round_trips(t)),
            forall|j: int|
                0 <= j < i ==> (#[trigger] string_of(args@[j]) matches Some((_, r))
                    ==> reads_utc_text(r) && reads_rfc3339_text(r)),
        decreases args@.len() - i,
    {
        match string_entry(&args[i]) {
            Some((path, val)) => {
                let parsed = rfc3339_timestamp(val.as_str());
                let ghost chrono_result = parsed;
                match epoch_entry(val.as_str(), path, parsed) {
                    Ok(v) => {
                        aggr.push(Some(v));
                    },
                    Err(e) => {
                        let result: Result<Vec<Option<PathAwareValue>>, Error> = Err(e);
                        proof {
                            assert(first_unreadable(args@, i as int));
                            assert(string_of(args@[i as int]) == Some((path@, val@)));
                            assert(result->Err_0 == e);
                            assert(epoch_failure(args@, i as int, result->Err_0@));
                            lemma_failure_spelled(args@, i as int, result->Err_0@);
                            assert(string_of(args@[i as int]) is Some);
                        }
                        return result;
                    },
                }
            },
            None => {
                aggr.push(None);
            },
        }
        i = i + 1;
    }
    assert(values_model(aggr@) =~= epoch_entries_model(args@));
    assert forall|k: int, f: UtcFields|
        0 <= k < args@.len() && valid_utc(f) && #[trigger] carries_text(
            args@[k],
            utc_text(f),
        ) implies option_model(aggr@[k]) == Some(
        ValueModel::Int(path_named("parse_epoch"@), civil_seconds(f) as i64),
    ) by {
        lemma_utc_text_reads_back(f);
        assert(option_model(aggr@[k]) == epoch_entry_model(args@[k]));
    }
    assert forall|k: int, text: Seq<char>|
        0 <= k < args@.len() && #[trigger] carries_text(args@[k], text) && is_rfc3339_text(
            text,
        ) implies option_model(aggr@[k]) == Some(
        ValueModel::Int(path_named("parse_epoch"@), rfc3339_seconds(text) as i64),
    ) by {
        assert(option_model(aggr@[k]) == epoch_entry_model(args@[k]));
    }
    assert forall|k: int|
        0 <= k < args@.len() implies (#[trigger] string_of(args@[k]) matches Some((_, s))
            ==> option_model(aggr@[k]) == Some(
            ValueModel::Int(path_named("parse_epoch"@), rfc3339_parse(s)->Ok_0),
        )) by {
        assert(option_model(aggr@[k]) == epoch_entry_model(args@[k]));
    }
    assert forall|k: int|
        0 <= k < args@.len() && #[trigger] string_of(args@[k]) is None implies aggr@[k] is None by {
        assert(option_model(aggr@[k]) == epoch_entry_model(args@[k]));
    }
    Ok(aggr)
}

// ----------------------------------------------------------------------------
// now and epoch_from_seconds
// ----------------------------------------------------------------------------

/// The single value that a function named `name` returns: the integer `value`.
fn single_int(name: &str, value: i64) -> (res: Result<Vec<Option<PathAwareValue>>, Error>)
    ensures
        res matches Ok(out) && values_model(out@) == seq![
            Some(ValueModel::Int(path_named(name@), value)),
        ],
{
    let path = Path::try_from(name)?;
    let mut out: Vec<Option<PathAwareValue>> = Vec::new();
    out.push(Some(PathAwareValue::Int((path, value))));
    assert(values_model(out@) =~= seq![Some(ValueModel::Int(path_named(name@), value))]);
    Ok(out)
}

/// What `now` returns when the clock reads `timestamp`: that timestamp, at the
/// path `now`.
pub fn now_at(timestamp: i64) -> (res: Result<Vec<Option<PathAwareValue>>, Error>)
    ensures
        res matches Ok(out) && values_model(out@) == seq![
            Some(ValueModel::Int(path_named("now"@), timestamp)),
        ],
{
    single_int("now", timestamp)
}

/// The current Unix time, in whole seconds, at the path `now`.
pub fn now() -> (res: Result<Vec<Option<PathAwareValue>>, Error>)
    ensures
        res matches Ok(out) && exists|t: i64|
            {
                &&& values_model(out@) == seq![Some(ValueModel::Int(path_named("now"@), t))]
                &&& 0 <= t
                &&& round_trips(t)
            },
{
    let timestamp: i64 = utc_now_timestamp();
    let res = now_at(timestamp);
    assert(round_trips(timestamp));
    res
}

/// The Unix epoch of the instant `seconds` after the epoch, at the path
/// `epoch_from_seconds`: `seconds` itself, where chrono represents that instant.
pub fn epoch_from_seconds(seconds: i64) -> (res: Result<Vec<Option<PathAwareValue>>, Error>)
    ensures
        results_model(res) == epoch_from_seconds_model(seconds),
        res is Ok <==> MIN_EPOCH_SECONDS <= seconds <= MAX_EPOCH_SECONDS,
        res matches Ok(out) ==> out@.len() == 1 && option_model(out@[0]) == Some(
            ValueModel::Int(path_named("epoch_from_seconds"@), seconds),
        ),
        res matches Err(e) ==> e@ == ErrorModel::ParseError(
            "Failed to create NaiveDateTime from seconds: "@ + decimal_text(seconds as int),
        ),
{
    let new_path = Path::try_from("epoch_from_seconds")?;
    match utc_timestamp_from_seconds(seconds) {
        Some(epoch) => {
            let mut out: Vec<Option<PathAwareValue>> = Vec::new();
            out.push(Some(PathAwareValue::Int((new_path, epoch))));
            assert(values_model(out@) =~= seq![
                Some(ValueModel::Int(path_named("epoch_from_seconds"@), seconds)),
            ]);
            Ok(out)
        },
        None => {
            let mut msg: String = "Failed to create NaiveDateTime from seconds: ".to_owned();
            msg.append(decimal_string(seconds).as_str());
            Err(Error::ParseError(msg))
        },
    }
}

/// `epoch_from_seconds` is idempotent: the epoch it reports, handed back to it,
/// gives the same result again.
pub proof fn lemma_epoch_from_seconds_idempotent(seconds: i64, at: PathModel, t: i64)
    requires
        epoch_from_seconds_model(seconds) == Ok::<Seq<Option<ValueModel>>, ErrorModel>(
            seq![Some(ValueModel::Int(at, t))],
        ),
    ensures
        epoch_from_seconds_model(t) == epoch_from_seconds_model(seconds),
        round_trips(t),
{
    let ours: Seq<Option<ValueModel>> = seq![Some(ValueModel::Int(at, t))];
    let made: Seq<Option<ValueModel>> = seq![
        Some(ValueModel::Int(path_named("epoch_from_seconds"@), seconds)),
    ];
    assert(seconds_in_range(seconds as int));
    assert(ours[0] == made[0]);
}

/// Every second from 0000-01-01T00:00:00Z to 9999-12-31T23:59:59Z has an RFC 3339
/// UTC text, `utc_text(f)`; `parse_epoch` reads that text as this very second (see its
/// `ensures`), and `epoch_from_seconds` gives the second back unchanged.
pub proof fn lemma_utc_text_round_trip(seconds: i64) -> (f: UtcFields)
    requires
        first_rfc3339_second() <= seconds <= last_rfc3339_second(),
    ensures
        valid_utc(f),
        civil_seconds(f) == seconds,
        is_utc_text(utc_text(f)),
        round_trips(seconds),
{
    let f = utc_fields_of(seconds as int);
    lemma_utc_text_reads_back(f);
    f
}

} // verus!
