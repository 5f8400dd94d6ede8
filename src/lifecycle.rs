use vstd::prelude::*;
use crate::error::Error;
use crate::schema::Connection;

verus! {

/// The earliest instant chrono represents, 1 January of year -262143, in
/// milliseconds since the Unix epoch.
pub const MIN_TIMESTAMP_MILLIS: i64 = -8_334_601_228_800_000;

/// The last millisecond chrono represents, in the last second of 31 December
/// of year 262142.
pub const MAX_TIMESTAMP_MILLIS: i64 = 8_210_266_876_799_999;

/// A Unix time in milliseconds as whole seconds, rounded down; `None` where
/// the instant lies outside the range of dates chrono represents.
pub open spec fn chrono_seconds_of(millis: i64) -> Option<i64> {
    if MIN_TIMESTAMP_MILLIS <= millis <= MAX_TIMESTAMP_MILLIS {
        Some((millis as int / 1000) as i64)
    } else {
        None
    }
}

/// Relies on chrono::DateTime::from_timestamp_millis, which splits the
/// milliseconds by Euclidean division into seconds and a sub-second part and
/// fails where the date falls outside years -262143 to 262142, and on
/// DateTime::timestamp, which gives those seconds back.
#[verifier::external_body]
fn seconds_from_millis(millis: i64) -> (r: Option<i64>)
    ensures
        r == chrono_seconds_of(millis),
{
    chrono::DateTime::from_timestamp_millis(millis).map(|t| t.timestamp())
}

/// The registry record for a new connection, given its id and its start in
/// whole seconds. Either being absent is an error.
pub fn connection_record(connection_id: Option<String>, connected_at: Option<i64>) -> (r: Result<
    Connection,
    Error,
>)
    ensures
        connection_id is None ==> (r matches Err(Error::Custom(m)) && m@
            == "connection_id not found"@),
        connection_id is Some && connected_at is None ==> (r matches Err(Error::Custom(m)) && m@
            == "connected_at is invalid timestamp"@),
        connection_id is Some && connected_at is Some ==> (r matches Ok(c) && c.connection_id
            == connection_id->0 && c.connected_at == connected_at->0 && c.ttl is None),
{
    match connection_id {
        None => Err(Error::custom("connection_id not found")),
        Some(id) => match connected_at {
            None => Err(Error::custom("connected_at is invalid timestamp")),
            Some(s) => Ok(Connection { connection_id: id, connected_at: s, ttl: None }),
        },
    }
}

/// The registry record for a connect event, whose start time comes in
/// milliseconds since the Unix epoch. It succeeds exactly when the event has
/// a connection id and its time lies in chrono's range.
pub fn connect_record(connection_id: Option<String>, connected_at_millis: i64) -> (r: Result<
    Connection,
    Error,
>)
    ensures
        connection_id is None ==> (r matches Err(Error::Custom(m)) && m@
            == "connection_id not found"@),
        connection_id is Some && chrono_seconds_of(connected_at_millis) is None ==> (r matches Err(
            Error::Custom(m),
        ) && m@ == "connected_at is invalid timestamp"@),
        connection_id is Some && chrono_seconds_of(connected_at_millis) is Some ==> (r matches Ok(c)
            && c.connection_id == connection_id->0 && c.connected_at == chrono_seconds_of(
            connected_at_millis,
        )->0 && c.connected_at as int == connected_at_millis as int / 1000 && c.ttl is None),
{
    let secs = seconds_from_millis(connected_at_millis);
    connection_record(connection_id, secs)
}

/// The registry key that a disconnect event removes. An event without a
/// connection id is an error.
pub fn disconnect_key(connection_id: Option<String>) -> (r: Result<String, Error>)
    ensures
        connection_id matches Some(id) ==> r == Ok::<String, Error>(id),
        connection_id is None ==> (r matches Err(Error::Custom(m)) && m@
            == "connection_id not found"@),
{
    match connection_id {
        Some(id) => Ok(id),
        None => Err(Error::custom("connection_id not found")),
    }
}

} // verus!
