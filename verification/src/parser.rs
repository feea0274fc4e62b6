//! From one line of the transfer tool's structured log to a progress event.
//!
//! The tool writes one JSON object per line. A line that carries a `stats` object
//! is a statistics record and gives an event; any other line is log text that
//! has nothing to do with progress and gives none.
//!
//! JSON is read by the crate serde_json. What a value of that crate holds is
//! modelled here as a [`Json`]; the few calls into the crate stand at the head of
//! this file, each with what it is taken to do.

use crate::format::{
    eta_text, format_eta, format_speed, lemma_percentage_bounds, percentage, percentage_of,
    speed_text,
};
use crate::progress::{ProgressView, RcloneProgress, TransferStatus, PERCENT_FULL};
use vstd::prelude::*;

verus! {

/// A JSON value of serde_json, of which nothing is seen but through the
/// functions below.
#[verifier::external_type_specification]
#[verifier::external_body]
pub struct ExJsonValue(serde_json::Value);

/// What a JSON value holds. Of a number it keeps the whole part: a negative
/// number counts as 0 and one beyond `u64` as the largest `u64`.
pub ghost enum Json {
    Null,
    Bool(bool),
    Number(u64),
    Text(Seq<char>),
    Array(Seq<Json>),
    Object(Map<Seq<char>, Json>),
}

/// What the JSON value `value` holds.
pub uninterp spec fn json_of(value: serde_json::Value) -> Json;

/// What the JSON reader makes of a line: the value that the line is, or nothing
/// where the line is not one JSON value.
pub uninterp spec fn json_in(line: Seq<char>) -> Option<Json>;

/// The member `key` of `json`, where `json` is an object that has it.
pub open spec fn member_of(json: Json, key: Seq<char>) -> Option<Json> {
    match json {
        Json::Object(members) => if members.contains_key(key) {
            Some(members[key])
        } else {
            None
        },
        _ => None,
    }
}

/// The whole number that `json` is, where it is a number.
pub open spec fn number_of(json: Json) -> Option<u64> {
    match json {
        Json::Number(n) => Some(n),
        _ => None,
    }
}

/// The text that `json` is, where it is a string.
pub open spec fn text_of(json: Json) -> Option<Seq<char>> {
    match json {
        Json::Text(t) => Some(t),
        _ => None,
    }
}

/// `serde_json::from_str`, for a `serde_json::Value`: the value that a line is,
/// none where the reader refuses the line. The contract names the outcome and
/// claims no more than that the same line always gives the same value.
#[verifier::external_body]
fn read_json(line: &str) -> (value: Option<serde_json::Value>)
    ensures
        match value {
            Some(v) => json_in(line@) == Some(json_of(v)),
            None => json_in(line@) is None,
        },
{
    serde_json::from_str::<serde_json::Value>(line).ok()
}

/// `serde_json::Value::get`, with a string for its index: the member of that
/// name where the value is an object that has it, none for any other value.
#[verifier::external_body]
fn member<'a>(value: &'a serde_json::Value, key: &str) -> (found: Option<&'a serde_json::Value>)
    ensures
        match found {
            Some(m) => member_of(json_of(*value), key@) == Some(json_of(*m)),
            None => member_of(json_of(*value), key@) is None,
        },
{
    value.get(key)
}

/// `serde_json::Value::as_f64`, cut to a whole number by a cast: the number
/// where the value is one, none for any other value.
#[verifier::external_body]
fn whole_number(value: &serde_json::Value) -> (number: Option<u64>)
    ensures
        number == number_of(json_of(*value)),
{
    value.as_f64().map(|x| x as u64)
}

/// `serde_json::Value::as_str`: the text where the value is a string, none for
/// any other value.
#[verifier::external_body]
fn text<'a>(value: &'a serde_json::Value) -> (found: Option<&'a str>)
    ensures
        match found {
            Some(t) => text_of(json_of(*value)) == Some(t@),
            None => text_of(json_of(*value)) is None,
        },
{
    value.as_str()
}

/// `serde_json::Value::is_object`: whether the value is an object.
#[verifier::external_body]
fn is_object(value: &serde_json::Value) -> (object: bool)
    ensures
        object == (json_of(*value) is Object),
{
    value.is_object()
}

/// The view of an event that may be absent.
pub open spec fn event_view(event: Option<RcloneProgress>) -> Option<ProgressView> {
    match event {
        Some(e) => Some(e@),
        None => None,
    }
}

/// The number that the statistics `stats` hold under `key`, if they hold one.
pub open spec fn stat_number(stats: Json, key: Seq<char>) -> Option<u64> {
    match member_of(stats, key) {
        Some(value) => number_of(value),
        None => None,
    }
}

/// The text that the statistics `stats` hold under `key`, if they hold one.
pub open spec fn stat_text(stats: Json, key: Seq<char>) -> Option<Seq<char>> {
    match member_of(stats, key) {
        Some(value) => text_of(value),
        None => None,
    }
}

/// The text of the time that is left: the member `eta`, formatted where it is a
/// number of seconds, as it stands where it is a string, and a dash where it is
/// neither or is not there.
pub open spec fn eta_of(stats: Json) -> Seq<char> {
    match stat_number(stats, "eta"@) {
        Some(s) => eta_text(s as nat),
        None => match stat_text(stats, "eta"@) {
            Some(t) => t,
            None => "-"@,
        },
    }
}

/// The text of the rate: the member `speed`, formatted where it is a number,
/// and empty where it is not.
pub open spec fn speed_of(stats: Json) -> Seq<char> {
    match stat_number(stats, "speed"@) {
        Some(n) => speed_text(n as nat),
        None => Seq::<char>::empty(),
    }
}

/// `number`, or 0 where there is none.
pub open spec fn or_zero(number: Option<u64>) -> nat {
    match number {
        Some(n) => n as nat,
        None => 0,
    }
}

/// The share that is done: the member `bytes` of the member `totalBytes`, each
/// taken as 0 where it is no number, so that the share is 0 where the total is
/// not known.
pub open spec fn share_done(stats: Json) -> nat {
    percentage_of(or_zero(stat_number(stats, "bytes"@)), or_zero(stat_number(stats, "totalBytes"@)))
}

/// The statistics of a JSON value: its member `stats`, where it has one and
/// that member is an object. A member `stats` of any other kind is none.
pub open spec fn statistics_of(json: Json) -> Option<Json> {
    match member_of(json, "stats"@) {
        Some(stats) => if stats is Object {
            Some(stats)
        } else {
            None
        },
        None => None,
    }
}

/// The event that a JSON value gives for the transfer `id`: none unless it holds
/// statistics, and with them a `Running` event that echoes the transfer's
/// identity.
pub open spec fn progress_of(
    json: Json,
    id: Seq<char>,
    op: Seq<char>,
    source: Seq<char>,
    dest: Seq<char>,
) -> Option<ProgressView> {
    match statistics_of(json) {
        None => None,
        Some(stats) => Some(
            ProgressView {
                id: id,
                op: op,
                source: source,
                destination: dest,
                percentage: share_done(stats),
                speed: speed_of(stats),
                eta: eta_of(stats),
                status: TransferStatus::Running,
            },
        ),
    }
}

/// The event that a line of the log gives: none where the line is not JSON.
pub open spec fn line_progress(
    line: Seq<char>,
    id: Seq<char>,
    op: Seq<char>,
    source: Seq<char>,
    dest: Seq<char>,
) -> Option<ProgressView> {
    match json_in(line) {
        None => None,
        Some(json) => progress_of(json, id, op, source, dest),
    }
}

fn number_under(stats: &serde_json::Value, key: &str) -> (number: Option<u64>)
    ensures
        number == stat_number(json_of(*stats), key@),
{
    match member(stats, key) {
        Some(value) => whole_number(value),
        None => None,
    }
}

fn eta_under(stats: &serde_json::Value) -> (eta: String)
    ensures
        eta@ == eta_of(json_of(*stats)),
{
    match number_under(stats, "eta") {
        Some(seconds) => format_eta(seconds),
        None => {
            let found = match member(stats, "eta") {
                Some(value) => text(value),
                None => None,
            };
            match found {
                Some(t) => t.to_owned(),
                None => "-".to_owned(),
            }
        },
    }
}

/// Makes the progress event of a JSON value, if it is a statistics record: an
/// object with a member `stats` that is an object too.
pub fn parse_progress(
    json: &serde_json::Value,
    transfer_id: &str,
    op: &str,
    source: &str,
    dest: &str,
) -> (event: Option<RcloneProgress>)
    ensures
        event_view(event) == progress_of(json_of(*json), transfer_id@, op@, source@, dest@),
{
    let stats = match member(json, "stats") {
        Some(stats) => stats,
        None => {
            return None;
        },
    };
    if !is_object(stats) {
        return None;
    }
    let total: u64 = match number_under(stats, "totalBytes") {
        Some(t) => t,
        None => 0,
    };
    let done: u64 = match number_under(stats, "bytes") {
        Some(b) => b,
        None => 0,
    };
    let speed = match number_under(stats, "speed") {
        Some(n) => format_speed(n),
        None => String::new(),
    };
    let eta = eta_under(stats);
    Some(
        RcloneProgress {
            id: transfer_id.to_owned(),
            op: op.to_owned(),
            source: source.to_owned(),
            destination: dest.to_owned(),
            percentage: percentage(done, total),
            speed,
            eta,
            status: TransferStatus::Running,
        },
    )
}

/// Makes the progress event of one line of the log. A line that is not JSON, or
/// holds no statistics, gives none: it is skipped, never an error.
pub fn parse_line(line: &str, transfer_id: &str, op: &str, source: &str, dest: &str) -> (event:
    Option<RcloneProgress>)
    ensures
        event_view(event) == line_progress(line@, transfer_id@, op@, source@, dest@),
{
    match read_json(line) {
        None => None,
        Some(json) => parse_progress(&json, transfer_id, op, source, dest),
    }
}

/// The share that statistics give is 0 where they hold no total, or hold 0 for
/// it; where they hold a total and no more is done than that, the share is the
/// bytes done by the total, in thousandths of a percent and rounded down, and
/// lies within 100 %.
pub proof fn lemma_share_done_bounds(stats: Json)
    ensures
        or_zero(stat_number(stats, "totalBytes"@)) == 0 ==> share_done(stats) == 0,
        ({
            let total = or_zero(stat_number(stats, "totalBytes"@));
            let bytes = or_zero(stat_number(stats, "bytes"@));
            total > 0 && bytes <= total ==> {
                &&& share_done(stats) <= PERCENT_FULL
                &&& share_done(stats) * total <= bytes * PERCENT_FULL < (share_done(stats) + 1)
                    * total
            }
        }),
        ({
            let total = or_zero(stat_number(stats, "totalBytes"@));
            let bytes = or_zero(stat_number(stats, "bytes"@));
            total > 0 && bytes == total ==> share_done(stats) == PERCENT_FULL
        }),
{
    lemma_percentage_bounds(
        or_zero(stat_number(stats, "bytes"@)),
        or_zero(stat_number(stats, "totalBytes"@)),
    );
}

} // verus!
