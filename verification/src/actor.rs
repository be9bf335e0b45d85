//! The transaction actor: one dedicated execution context owning exactly
//! one transaction, processing commands strictly one at a time, with a
//! nested command loop for the cursor sub-session on the same thread.
//! The host spawns a thread whose body is `run_write_actor` or
//! `run_read_actor`; everything the thread then does is verified here.
use vstd::prelude::*;
use crate::protocol::{
    Command, CommandReceiver, CursorCommand, CursorReceiver, Reply, ReplySender,
};
use crate::protocol::{recv_command, recv_cursor_command, send_reply};
use crate::store::{
    RangeCursor, StoreEnv, begin_read, begin_write, bind_read, bind_write, next_entry,
    open_default_db, open_range_cursor, take_entries, txn_get, txn_put,
};
use crate::store::{abort_read, abort_write, commit_write, StoreError};

verus! {

/// The reply a point lookup earns: the value when one was found, the
/// distinguished not-found outcome when none was.
pub fn reply_for_get(found: Option<String>) -> (r: Reply)
    ensures
        (match found {
            Option::Some(v) => r matches Reply::Value { value } && value == v,
            Option::None => r matches Reply::NotFound,
        }),
{
    match found {
        Option::Some(value) => Reply::Value { value },
        Option::None => Reply::NotFound,
    }
}

/// The reply one cursor step earns: the pair when an entry remained, the
/// end-of-cursor signal — sent exactly once, since it also ends the
/// session — when none did.
pub fn reply_for_next(stepped: Option<(String, String)>) -> (r: Reply)
    ensures
        (match stepped {
            Option::Some(kv) => r matches Reply::KeyValue { key, value } && key == kv.0 && value
                == kv.1,
            Option::None => r matches Reply::Done,
        }),
{
    match stepped {
        Option::Some(kv) => Reply::KeyValue { key: kv.0, value: kv.1 },
        Option::None => Reply::Done,
    }
}

/// The reply a batch collection earns: the batch itself when at least one
/// entry was collected, the end-of-cursor signal — never an empty batch —
/// when the cursor was already exhausted.
pub fn reply_for_take(batch: Vec<(String, String)>) -> (r: Reply)
    ensures
        batch@.len() == 0 ==> r matches Reply::Done,
        batch@.len() > 0 ==> (r matches Reply::KeyValueBatch { results } && results == batch),
{
    if batch.len() == 0 {
        Reply::Done
    } else {
        Reply::KeyValueBatch { results: batch }
    }
}

/// The fatal-failure signal owed for a storage failure: a reply distinct
/// from the not-found outcome, carrying the store's description of what
/// went wrong. The actor that sends it terminates without retrying.
pub fn reply_for_store_error(e: StoreError) -> (r: Reply)
    ensures
        (r matches Reply::Fatal { message } && message == e.message),
{
    Reply::Fatal { message: e.message }
}

/// The reply a `Get` earns for each outcome of the lookup: the value
/// when one was found, the distinguished not-found outcome when none
/// was, the fatal signal when the store failed.
pub fn reply_for_get_outcome(outcome: Result<Option<String>, StoreError>) -> (r: Reply)
    ensures
        (match outcome {
            Ok(found) => match found {
                Option::Some(v) => (r matches Reply::Value { value } && value == v),
                Option::None => r matches Reply::NotFound,
            },
            Err(e) => (r matches Reply::Fatal { message } && message == e.message),
        }),
{
    match outcome {
        Ok(found) => reply_for_get(found),
        Err(e) => reply_for_store_error(e),
    }
}

/// The acknowledgement an operation without a payload earns: success on
/// the store's success, the fatal signal on its failure. The `Put` row
/// of the command table, and the commit outcome behind `Done`.
pub fn reply_for_ack(outcome: Result<(), StoreError>) -> (r: Reply)
    ensures
        (match outcome {
            Ok(u) => r matches Reply::Okay,
            Err(e) => (r matches Reply::Fatal { message } && message == e.message),
        }),
{
    match outcome {
        Ok(_done) => Reply::Okay,
        Err(e) => reply_for_store_error(e),
    }
}

/// The `Range` row of the command table: success — sent as soon as the
/// cursor is open, before any session command is processed — when the
/// cursor could be opened, the fatal signal when it could not.
pub fn reply_for_range_open(failure: Option<StoreError>) -> (r: Reply)
    ensures
        (match failure {
            Option::None => r matches Reply::Okay,
            Option::Some(e) => (r matches Reply::Fatal { message } && message == e.message),
        }),
{
    match failure {
        Option::None => Reply::Okay,
        Option::Some(e) => reply_for_store_error(e),
    }
}

/// The session's explicit-`Done` row: ending a cursor sub-session by
/// request earns success, and control returns to the top-level loop.
pub fn reply_for_session_close() -> (r: Reply)
    ensures
        r matches Reply::Okay,
{
    Reply::Okay
}

/// Screen one top-level command: `Next` and `Take` have meaning only
/// inside a cursor sub-session, so at the top level they earn the
/// explicit rejection reply — a protocol violation is answered, never
/// silently discarded. Every other command passes through unchanged.
pub fn screen_top_command(cmd: Command) -> (r: Result<Command, Reply>)
    ensures
        (match cmd {
            Command::Next => (r matches Err(rejection) && rejection matches Reply::Rejected),
            Command::Take { .. } => (r matches Err(rejection)
                && rejection matches Reply::Rejected),
            _ => r == Result::<Command, Reply>::Ok(cmd),
        }),
{
    match cmd {
        Command::Next => Err(Reply::Rejected),
        Command::Take { count: _ } => Err(Reply::Rejected),
        passed => Ok(passed),
    }
}

/// Serve one cursor sub-session over its own rendezvous channel, on the
/// transaction's thread. Ends when the cursor is exhausted through
/// `Next` or `Take`, or explicitly through `Done`. True means the
/// session ended inside the protocol and the outer loop goes on; false
/// means the caller went away and the actor must wind down.
///
/// Every loop must be shown to terminate, and how long a session runs is
/// the caller's choice alone; the loop therefore carries an
/// astronomically large handoff budget and treats an exhausted budget
/// like a vanished caller.
fn cursor_session(it: &mut RangeCursor<'_>, rx: &CursorReceiver) -> bool {
    let mut budget: u64 = u64::MAX;
    while budget > 0
        decreases budget,
    {
        budget = budget - 1;
        match recv_cursor_command(rx) {
            Option::None => {
                return false;
            },
            Option::Some(handoff) => {
                let (cmd, reply) = handoff;
                match cmd {
                    CursorCommand::Next => {
                        match next_entry(it) {
                            Ok(stepped) => {
                                let ended = stepped.is_none();
                                if !send_reply(&reply, reply_for_next(stepped)) {
                                    return false;
                                }
                                if ended {
                                    return true;
                                }
                            },
                            Err(e) => {
                                let _delivered = send_reply(&reply, reply_for_store_error(e));
                                return false;
                            },
                        }
                    },
                    CursorCommand::Take { count } => {
                        match take_entries(it, count) {
                            Ok(batch) => {
                                let ended = batch.len() == 0;
                                if !send_reply(&reply, reply_for_take(batch)) {
                                    return false;
                                }
                                if ended {
                                    return true;
                                }
                            },
                            Err(e) => {
                                let _delivered = send_reply(&reply, reply_for_store_error(e));
                                return false;
                            },
                        }
                    },
                    CursorCommand::Done => {
                        return send_reply(&reply, reply_for_session_close());
                    },
                }
            },
        }
    }
    false
}

/// The command loop of a transaction actor: processes one handoff at a
/// time against the transaction's view. Hands back the reply channel of
/// the `Done` command, on which the caller is owed the outcome of the
/// commit or abort; nothing when the caller went away or the store
/// failed fatally, in which case the transaction must be aborted.
///
/// As in `cursor_session`, the loop carries a handoff budget far beyond
/// reach, and an exhausted budget counts as a vanished caller.
pub fn process(db: &mut lmdb_rs::Database<'_>, rx: &CommandReceiver) -> Option<ReplySender> {
    let mut budget: u64 = u64::MAX;
    while budget > 0
        decreases budget,
    {
        budget = budget - 1;
        match recv_command(rx) {
            Option::None => {
                return None;
            },
            Option::Some(handoff) => {
                let (received, reply) = handoff;
                match screen_top_command(received) {
                    Err(rejection) => {
                        if !send_reply(&reply, rejection) {
                            return None;
                        }
                    },
                    Ok(cmd) => match cmd {
                        Command::Get { key } => {
                            let outcome = txn_get(&*db, &key);
                            let fatal = outcome.is_err();
                            if !send_reply(&reply, reply_for_get_outcome(outcome)) {
                                return None;
                            }
                            if fatal {
                                return None;
                            }
                        },
                        Command::Put { key, value } => {
                            let outcome = txn_put(db, &key, &value);
                            let fatal = outcome.is_err();
                            if !send_reply(&reply, reply_for_ack(outcome)) {
                                return None;
                            }
                            if fatal {
                                return None;
                            }
                        },
                        Command::Range { start, end, receiver } => {
                            match open_range_cursor(&*db, &start, &end) {
                                Ok(mut it) => {
                                    if !send_reply(&reply, reply_for_range_open(None)) {
                                        return None;
                                    }
                                    if !cursor_session(&mut it, &receiver) {
                                        return None;
                                    }
                                },
                                Err(e) => {
                                    let _delivered = send_reply(
                                        &reply,
                                        reply_for_range_open(Some(e)),
                                    );
                                    return None;
                                },
                            }
                        },
                        Command::Next => unreached(),
                        Command::Take { count: _ } => unreached(),
                        Command::Done => {
                            return Some(reply);
                        },
                    },
                }
            },
        }
    }
    None
}

/// The body of a write-transaction actor thread. Begins the write
/// transaction, acknowledges readiness on `ready` only once it exists —
/// so the caller never holds a usable command channel before the
/// transaction does — then serves the command loop, and on `Done`
/// commits, reporting the outcome on the `Done` reply channel. Every
/// other way out aborts the transaction.
pub fn run_write_actor(env: &StoreEnv, rx: CommandReceiver, ready: ReplySender) {
    let mut txn = match begin_write(env) {
        Ok(t) => t,
        Err(e) => {
            let _delivered = send_reply(&ready, reply_for_store_error(e));
            return;
        },
    };
    let handle = match open_default_db(env) {
        Ok(h) => h,
        Err(e) => {
            let _delivered = send_reply(&ready, reply_for_store_error(e));
            abort_write(txn);
            return;
        },
    };
    if !send_reply(&ready, Reply::Okay) {
        abort_write(txn);
        return;
    }
    let mut db = bind_write(&mut txn, &handle);
    match process(&mut db, &rx) {
        Option::Some(reply) => {
            let _delivered = send_reply(&reply, reply_for_ack(commit_write(txn)));
        },
        Option::None => {
            abort_write(txn);
        },
    }
}

/// The body of a read-transaction actor thread. Begins the snapshot
/// transaction and serves the command loop; readers overlap freely, so
/// no readiness handshake is owed. On `Done` the snapshot is released
/// and the caller told so; every other way out releases it silently.
pub fn run_read_actor(env: &StoreEnv, rx: CommandReceiver) {
    let mut txn = match begin_read(env) {
        Ok(t) => t,
        Err(_e) => {
            return;
        },
    };
    let handle = match open_default_db(env) {
        Ok(h) => h,
        Err(_e) => {
            abort_read(txn);
            return;
        },
    };
    let mut db = bind_read(&mut txn, &handle);
    match process(&mut db, &rx) {
        Option::Some(reply) => {
            abort_read(txn);
            let _delivered = send_reply(&reply, reply_for_ack(Ok(())));
        },
        Option::None => {
            abort_read(txn);
        },
    }
}

} // verus!
