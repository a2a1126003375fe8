//! What the endpoints compute, apart from routing and extraction.

use crate::clock::{now, Timestamp};
use crate::text::{decimal, join3, number_text};
use vstd::prelude::*;

verus! {

/// The greeting for `name`: `Hello `, the name, `!`.
pub fn greet(name: &str) -> (greeting: String)
    ensures
        greeting@ == "Hello "@ + name@ + "!"@,
{
    join3("Hello ", name, "!")
}

/// The greeting for `name` with a comma: `Hello, `, the name, `!`.
pub fn greet_with_comma(name: &str) -> (greeting: String)
    ensures
        greeting@ == "Hello, "@ + name@ + "!"@,
{
    join3("Hello, ", name, "!")
}

/// Counts one more request and reports the new count: `Hello, count: ` and
/// the count in decimal.
pub fn count(counter: &mut u64) -> (report: String)
    requires
        *old(counter) < u64::MAX,
    ensures
        *final(counter) == *old(counter) + 1,
        report@ == "Hello, count: "@ + decimal(*final(counter) as nat),
{
    *counter = *counter + 1;
    let digits = number_text(*counter);
    let report = join3("Hello, count: ", digits.as_str(), "");
    proof {
        reveal_strlit("");
        assert("Hello, count: "@ + digits@ + ""@ =~= "Hello, count: "@ + digits@);
    }
    report
}

/// The payload of a request to create a record.
#[derive(Debug, PartialEq, Eq)]
pub struct CreateRecord {
    pub name: String,
}

/// A record that was created.
#[derive(Debug, PartialEq, Eq)]
pub struct RecordCreated {
    pub id: u64,
    pub name: String,
    pub ts: Timestamp,
}

/// The id every created record gets.
pub const RECORD_ID: u64 = 1234;

/// The record for `payload`, created at `ts`: the fixed id, the payload's
/// name, and that time.
pub fn record_at(payload: CreateRecord, ts: Timestamp) -> (record: RecordCreated)
    ensures
        record.id == RECORD_ID,
        record.name == payload.name,
        record.ts == ts,
{
    let CreateRecord { name } = payload;
    RecordCreated { id: RECORD_ID, name, ts }
}

/// The record for `payload`, created now.
pub fn create_record(payload: CreateRecord) -> (record: RecordCreated)
    ensures
        record.id == RECORD_ID,
        record.name == payload.name,
{
    let ts = now();
    record_at(payload, ts)
}

/// The payload of a request that says itself whether it is to succeed.
#[derive(Clone, Copy, Debug, PartialEq, Eq, Structural)]
pub struct TryBody {
    pub success: bool,
}

/// Why a request was turned down: the status code to answer with, and the
/// message.
#[derive(Debug, PartialEq, Eq)]
pub struct Rejection {
    pub status: u16,
    pub message: String,
}

/// The status code of a request that was turned down.
pub const BAD_REQUEST: u16 = 400;

/// Hands the payload back if it asks to succeed, and turns it down as a bad
/// request, with the message `request failed`, if it does not.
pub fn try_request(payload: TryBody) -> (out: Result<TryBody, Rejection>)
    ensures
        payload.success ==> out == Ok::<TryBody, Rejection>(payload),
        !payload.success ==> out is Err && out->Err_0.status == BAD_REQUEST
            && out->Err_0.message@ == "request failed"@,
{
    if payload.success {
        Ok(payload)
    } else {
        Err(Rejection { status: BAD_REQUEST, message: "request failed".to_owned() })
    }
}

} // verus!
