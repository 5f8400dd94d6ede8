use vstd::prelude::*;
use crate::codec::{append_bytes, encode_message, message_json_of};
use crate::error::Error;
use crate::schema::{Connection, Message, Response};

verus! {

/// Where a broadcast stands. A broadcast serialises the message once, takes a
/// snapshot of the registry, delivers to every connection in it at once, and
/// removes from the registry each connection that could not be reached.
pub enum Stage {
    /// Waiting for the body of the inbound event.
    Receiving,
    /// Waiting for the body to be decoded into a message.
    Decoding,
    /// The payload is fixed; waiting for the registry snapshot.
    Scanning { payload: Vec<u8> },
    /// Waiting for the outcome of one delivery to each target.
    Delivering { payload: Vec<u8>, targets: Vec<String> },
    /// Waiting for the removals of the connections that were not reached.
    Pruning,
    /// Nothing is left to do.
    Finished,
}

/// What the outside world reports back to a broadcast.
pub enum Event {
    /// The inbound event's body, if it had one.
    Received(Option<String>),
    /// The body decoded as a message, or why it could not be.
    Decoded(Result<Message, Error>),
    /// The registry snapshot, or why it could not be read.
    Scanned(Result<Vec<Connection>, Error>),
    /// For each target, in order, whether delivery succeeded.
    Delivered(Vec<bool>),
    /// For each removal, in order, how it went.
    Pruned(Vec<Result<(), Error>>),
}

/// What a broadcast asks the outside world to do next.
pub enum Action {
    /// Decode this body as a message.
    Decode(String),
    /// Read every record of the registry.
    Scan,
    /// Send this payload to each of these connections, all at once.
    Deliver { payload: Vec<u8>, targets: Vec<String> },
    /// Remove each of these connections from the registry, all at once.
    Prune { ids: Vec<String> },
    /// Report this outcome for the whole event.
    Finish(Result<Response, Error>),
}

/// The connection ids of a snapshot, in order.
pub open spec fn ids_of(conns: Seq<Connection>) -> Seq<Seq<char>> {
    conns.map_values(|c: Connection| c.connection_id@)
}

/// The contents of a sequence of strings.
pub open spec fn views_of(v: Seq<String>) -> Seq<Seq<char>> {
    v.map_values(|s: String| s@)
}

/// The targets whose delivery failed, in order.
pub open spec fn failed_ids(targets: Seq<Seq<char>>, delivered: Seq<bool>) -> Seq<Seq<char>>
    decreases targets.len(),
{
    if targets.len() == 0 || delivered.len() == 0 {
        Seq::empty()
    } else {
        let rest = failed_ids(targets.drop_last(), delivered.drop_last());
        if delivered.last() {
            rest
        } else {
            rest.push(targets.last())
        }
    }
}

/// The number of failed deliveries.
pub open spec fn failure_count(delivered: Seq<bool>) -> nat
    decreases delivered.len(),
{
    if delivered.len() == 0 {
        0
    } else {
        failure_count(delivered.drop_last()) + if delivered.last() {
            0nat
        } else {
            1nat
        }
    }
}

/// Which events a stage takes.
pub open spec fn accepts(stage: Stage, event: Event) -> bool {
    match stage {
        Stage::Receiving => event is Received,
        Stage::Decoding => event is Decoded,
        Stage::Scanning { .. } => event is Scanned,
        Stage::Delivering { targets, .. } => event matches Event::Delivered(d) && d@.len()
            == targets@.len(),
        Stage::Pruning => event is Pruned,
        Stage::Finished => false,
    }
}

fn copy_payload(p: &Vec<u8>) -> (r: Vec<u8>)
    ensures
        r@ == p@,
{
    let mut r: Vec<u8> = Vec::new();
    append_bytes(&mut r, p.as_slice());
    r
}

/// One delivery target per record of the snapshot, in the snapshot's order;
/// a connection id that occurs twice is a target twice.
pub fn delivery_targets(conns: &Vec<Connection>) -> (r: Vec<String>)
    ensures
        views_of(r@) == ids_of(conns@),
{
    let mut r: Vec<String> = Vec::new();
    let mut i: usize = 0;
    while i < conns.len()
        invariant
            0 <= i <= conns@.len(),
            views_of(r@) == ids_of(conns@.subrange(0, i as int)),
        decreases conns@.len() - i,
    {
        let ghost before = r@;
        r.push(conns[i].connection_id.clone());
        proof {
            assert(views_of(r@) =~= views_of(before).push(conns@[i as int].connection_id@));
            assert(ids_of(conns@.subrange(0, i + 1)) =~= ids_of(conns@.subrange(0, i as int)).push(
                conns@[i as int].connection_id@,
            ));
        }
        i = i + 1;
    }
    proof {
        assert(conns@.subrange(0, conns@.len() as int) == conns@);
    }
    r
}

/// The targets whose delivery failed, in order: the connections to remove.
pub fn failed_targets(targets: &Vec<String>, delivered: &Vec<bool>) -> (r: Vec<String>)
    requires
        delivered@.len() == targets@.len(),
    ensures
        views_of(r@) == failed_ids(views_of(targets@), delivered@),
{
    let mut r: Vec<String> = Vec::new();
    let mut i: usize = 0;
    while i < targets.len()
        invariant
            0 <= i <= targets@.len(),
            delivered@.len() == targets@.len(),
            views_of(r@) == failed_ids(
                views_of(targets@.subrange(0, i as int)),
                delivered@.subrange(0, i as int),
            ),
        decreases targets@.len() - i,
    {
        let ghost before = r@;
        if !delivered[i] {
            r.push(targets[i].clone());
            proof {
                assert(views_of(r@) =~= views_of(before).push(targets@[i as int]@));
            }
        }
        i = i + 1;
        proof {
            assert(views_of(targets@.subrange(0, i as int)).last() == targets@[i - 1]@);
            assert(views_of(targets@.subrange(0, i as int)).drop_last() == views_of(
                targets@.subrange(0, i - 1),
            ));
            assert(delivered@.subrange(0, i as int).drop_last() == delivered@.subrange(0, i - 1));
            assert(views_of(r@) == failed_ids(
                views_of(targets@.subrange(0, i as int)),
                delivered@.subrange(0, i as int),
            ));
        }
    }
    proof {
        assert(targets@.subrange(0, targets@.len() as int) == targets@);
        assert(delivered@.subrange(0, delivered@.len() as int) == delivered@);
    }
    r
}

/// The outcome of a broadcast once its removals are done: success when every
/// removal succeeded, else the error of the first that failed.
pub fn prune_outcome(results: Vec<Result<(), Error>>) -> (r: Result<Response, Error>)
    ensures
        (forall|k: int| 0 <= k < results@.len() ==> results@[k] is Ok) ==> (r matches Ok(resp)
            && resp.status_code == 200),
        (exists|k: int| 0 <= k < results@.len() && results@[k] is Err) ==> (exists|k: int|
            0 <= k < results@.len() && results@[k] == Err::<(), Error>(r->Err_0) && forall|j: int|
                0 <= j < k ==> results@[j] is Ok) && r is Err,
{
    let mut pending = results;
    let ghost all = pending@;
    let mut i: usize = 0;
    while i < pending.len()
        invariant
            pending@ == all,
            results@ == all,
            0 <= i <= all.len(),
            forall|j: int| 0 <= j < i ==> all[j] is Ok,
        decreases all.len() - i,
    {
        if pending[i].is_err() {
            let e = pending.swap_remove(i);
            match e {
                Ok(()) => {},
                Err(e) => {
                    assert(all[i as int] == Err::<(), Error>(e));
                    return Err(e);
                },
            }
        }
        i = i + 1;
    }
    Ok(Response::ok())
}

/// Advances a broadcast by one event: the stage it moves to, and what the
/// outside world is to do next.
pub fn step(stage: Stage, event: Event) -> (r: (Stage, Action))
    requires
        accepts(stage, event),
    ensures
        event matches Event::Received(body) ==> match body {
            Some(b) => r.0 is Decoding && r.1 == Action::Decode(b),
            None => r.0 is Finished && (r.1 matches Action::Finish(Err(Error::Custom(m))) && m@
                == "body not found"@),
        },
        event matches Event::Decoded(Err(e)) ==> r.0 is Finished && r.1 == Action::Finish(
            Err(e),
        ),
        event matches Event::Decoded(Ok(m)) ==> (r.0 matches Stage::Scanning { payload } && payload@
            == message_json_of(m) && r.1 is Scan),
        event matches Event::Scanned(Err(e)) ==> r.0 is Finished && r.1 == Action::Finish(
            Err(e),
        ),
        event matches Event::Scanned(Ok(conns)) && conns@.len() == 0 ==> r.0 is Finished && (
        r.1 matches Action::Finish(Ok(resp)) && resp.status_code == 200),
        stage matches Stage::Scanning { payload } ==> (event matches Event::Scanned(Ok(conns)) ==> (
        conns@.len() > 0 ==> (r.0 matches Stage::Delivering { payload: p, targets: t } && p@
            == payload@ && views_of(t@) == ids_of(conns@)) && (r.1 matches Action::Deliver {
            payload: q,
            targets: u,
        } && q@ == payload@ && views_of(u@) == ids_of(conns@)))),
        stage matches Stage::Delivering { targets, .. } ==> (event matches Event::Delivered(d) ==> {
            let failed = failed_ids(views_of(targets@), d@);
            &&& failed.len() == 0 ==> r.0 is Finished && (r.1 matches Action::Finish(Ok(resp))
                && resp.status_code == 200)
            &&& failed.len() > 0 ==> r.0 is Pruning && (r.1 matches Action::Prune { ids } && views_of(
                ids@,
            ) == failed)
        }),
        event matches Event::Pruned(results) ==> r.0 is Finished && (r.1 matches Action::Finish(
            outcome,
        ) && ((forall|k: int| 0 <= k < results@.len() ==> results@[k] is Ok) ==> (
        outcome matches Ok(resp) && resp.status_code == 200)) && ((exists|k: int|
            0 <= k < results@.len() && results@[k] is Err) ==> outcome is Err && exists|k: int|
            0 <= k < results@.len() && results@[k] == Err::<(), Error>(outcome->Err_0) && forall|
                j: int,
            |
                0 <= j < k ==> results@[j] is Ok)),
{
    match event {
        Event::Received(body) => match body {
            Some(b) => (Stage::Decoding, Action::Decode(b)),
            None => (Stage::Finished, Action::Finish(Err(Error::custom("body not found")))),
        },
        Event::Decoded(decoded) => match decoded {
            Err(e) => (Stage::Finished, Action::Finish(Err(e))),
            Ok(m) => match encode_message(&m) {
                Ok(payload) => (Stage::Scanning { payload }, Action::Scan),
                Err(e) => (Stage::Finished, Action::Finish(Err(e))),
            },
        },
        Event::Scanned(scanned) => match scanned {
            Err(e) => (Stage::Finished, Action::Finish(Err(e))),
            Ok(conns) => {
                if conns.len() == 0 {
                    (Stage::Finished, Action::Finish(Ok(Response::ok())))
                } else {
                    match stage {
                        Stage::Scanning { payload } => {
                            let targets = delivery_targets(&conns);
                            let sent = copy_payload(&payload);
                            let ids = delivery_targets(&conns);
                            (
                                Stage::Delivering { payload, targets },
                                Action::Deliver { payload: sent, targets: ids },
                            )
                        },
                        _ => vstd::pervasive::unreached(),
                    }
                }
            },
        },
        Event::Delivered(delivered) => match stage {
            Stage::Delivering { targets, .. } => {
                let ids = failed_targets(&targets, &delivered);
                if ids.len() == 0 {
                    (Stage::Finished, Action::Finish(Ok(Response::ok())))
                } else {
                    (Stage::Pruning, Action::Prune { ids })
                }
            },
            _ => vstd::pervasive::unreached(),
        },
        Event::Pruned(results) => (Stage::Finished, Action::Finish(prune_outcome(results))),
    }
}

} // verus!
