//! The command/reply vocabulary of the transaction protocol and the
//! rendezvous channels it travels over: zero-buffer, single-slot
//! handoffs, so that a sender blocks until exactly one receiver accepts
//! and no request is ever queued ahead of another.
use vstd::prelude::*;

verus! {

#[verifier::external_type_specification]
#[verifier::external_body]
#[verifier::reject_recursive_types(T)]
pub struct ExReceiver<T>(std::sync::mpsc::Receiver<T>);

#[verifier::external_type_specification]
#[verifier::external_body]
#[verifier::reject_recursive_types(T)]
pub struct ExSyncSender<T>(std::sync::mpsc::SyncSender<T>);

/// What a transaction actor answers: success, a value, one or many
/// key-value pairs, the end of a cursor, the distinguished not-found
/// outcome of a lookup, the rejection of a command that is invalid in the
/// actor's current state, and the fatal failure of the store.
pub enum Reply {
    Okay,
    Value { value: String },
    KeyValue { key: String, value: String },
    KeyValueBatch { results: Vec<(String, String)> },
    Done,
    NotFound,
    Rejected,
    Fatal { message: String },
}

/// A command of the nested cursor sub-session: step once, collect up to
/// `count` entries, or end the session.
pub enum CursorCommand {
    Next,
    Take { count: usize },
    Done,
}

/// A top-level command to a transaction actor. `Range` carries the
/// receiving end of a fresh channel; the actor serves the cursor
/// sub-session from it on the same thread. `Next` and `Take` only have
/// meaning inside a session and are rejected at the top level.
pub enum Command {
    Get { key: String },
    Put { key: String, value: String },
    Range { start: String, end: String, receiver: CursorReceiver },
    Next,
    Take { count: usize },
    Done,
}

pub struct ReplySender {
    tx: std::sync::mpsc::SyncSender<Reply>,
}

pub struct ReplyReceiver {
    rx: std::sync::mpsc::Receiver<Reply>,
}

pub struct CommandSender {
    tx: std::sync::mpsc::SyncSender<(Command, ReplySender)>,
}

pub struct CommandReceiver {
    rx: std::sync::mpsc::Receiver<(Command, ReplySender)>,
}

pub struct CursorSender {
    tx: std::sync::mpsc::SyncSender<(CursorCommand, ReplySender)>,
}

pub struct CursorReceiver {
    rx: std::sync::mpsc::Receiver<(CursorCommand, ReplySender)>,
}

/// Relies on `std::sync::mpsc::sync_channel` with capacity zero: an
/// unbuffered pair whose sender blocks until the receiver accepts.
#[verifier::external_body]
fn new_reply_channel_raw() -> (ReplySender, ReplyReceiver) {
    let (tx, rx) = std::sync::mpsc::sync_channel::<Reply>(0);
    (ReplySender { tx }, ReplyReceiver { rx })
}

/// Relies on `std::sync::mpsc::sync_channel` with capacity zero, as for
/// `new_reply_channel_raw`.
#[verifier::external_body]
fn new_command_channel_raw() -> (CommandSender, CommandReceiver) {
    let (tx, rx) = std::sync::mpsc::sync_channel::<(Command, ReplySender)>(0);
    (CommandSender { tx }, CommandReceiver { rx })
}

/// Relies on `std::sync::mpsc::sync_channel` with capacity zero, as for
/// `new_reply_channel_raw`.
#[verifier::external_body]
fn new_cursor_channel_raw() -> (CursorSender, CursorReceiver) {
    let (tx, rx) = std::sync::mpsc::sync_channel::<(CursorCommand, ReplySender)>(0);
    (CursorSender { tx }, CursorReceiver { rx })
}

pub struct ReplyChannel;

impl ReplyChannel {
    /// A fresh rendezvous pair for one reply handoff.
    pub fn new() -> (ReplySender, ReplyReceiver) {
        new_reply_channel_raw()
    }
}

pub struct CommandChannel;

impl CommandChannel {
    /// A fresh rendezvous pair for the command handoffs of one
    /// transaction actor.
    pub fn new() -> (CommandSender, CommandReceiver) {
        new_command_channel_raw()
    }
}

pub struct CursorChannel;

impl CursorChannel {
    /// A fresh rendezvous pair for the handoffs of one cursor
    /// sub-session.
    pub fn new() -> (CursorSender, CursorReceiver) {
        new_cursor_channel_raw()
    }
}

/// Relies on `std::sync::mpsc::SyncSender::send`: blocks until the
/// receiver accepts the reply; false when the receiving end is gone.
#[verifier::external_body]
pub(crate) fn send_reply(s: &ReplySender, r: Reply) -> bool {
    s.tx.send(r).is_ok()
}

/// Relies on `std::sync::mpsc::SyncSender::send`, as for `send_reply`.
#[verifier::external_body]
pub(crate) fn send_command(s: &CommandSender, cmd: Command, reply: ReplySender) -> bool {
    s.tx.send((cmd, reply)).is_ok()
}

/// Relies on `std::sync::mpsc::SyncSender::send`, as for `send_reply`.
#[verifier::external_body]
pub(crate) fn send_cursor_command(s: &CursorSender, cmd: CursorCommand, reply: ReplySender) -> bool {
    s.tx.send((cmd, reply)).is_ok()
}

/// Relies on `std::sync::mpsc::Receiver::recv`: blocks for the next
/// command handoff; nothing when every sending end is gone.
#[verifier::external_body]
pub(crate) fn recv_command(rx: &CommandReceiver) -> Option<(Command, ReplySender)> {
    rx.rx.recv().ok()
}

/// Relies on `std::sync::mpsc::Receiver::recv`, as for `recv_command`.
#[verifier::external_body]
pub(crate) fn recv_cursor_command(rx: &CursorReceiver) -> Option<(CursorCommand, ReplySender)> {
    rx.rx.recv().ok()
}

/// Relies on `std::sync::mpsc::Receiver::recv`, as for `recv_command`.
#[verifier::external_body]
pub(crate) fn recv_reply(rx: &ReplyReceiver) -> Option<Reply> {
    rx.rx.recv().ok()
}

/// Block for one reply, for the caller's side of a handoff; nothing when
/// the actor is gone.
pub fn wait_reply(rx: &ReplyReceiver) -> Option<Reply> {
    recv_reply(rx)
}

/// Send one command to a transaction actor and block until its reply
/// arrives; nothing when the actor is gone.
pub fn call(sender: &CommandSender, cmd: Command) -> Option<Reply> {
    let (rtx, rrx) = ReplyChannel::new();
    if send_command(sender, cmd, rtx) {
        recv_reply(&rrx)
    } else {
        None
    }
}

/// Send one cursor command into an open sub-session and block until its
/// reply arrives; nothing when the actor is gone.
pub fn call_cursor(sender: &CursorSender, cmd: CursorCommand) -> Option<Reply> {
    let (rtx, rrx) = ReplyChannel::new();
    if send_cursor_command(sender, cmd, rtx) {
        recv_reply(&rrx)
    } else {
        None
    }
}

/// Look a key up in the transaction's view.
pub fn get(sender: &CommandSender, key: String) -> Option<Reply> {
    call(sender, Command::Get { key })
}

/// Write a key-value pair into the transaction's view.
pub fn put(sender: &CommandSender, key: String, value: String) -> Option<Reply> {
    call(sender, Command::Put { key, value })
}

/// Open a cursor sub-session over `[start, end)`: hands back the command
/// channel of the new session together with the actor's reply to the
/// request.
pub fn range(sender: &CommandSender, start: String, end: String) -> Option<(CursorSender, Reply)> {
    let (ctx, crx) = CursorChannel::new();
    match call(sender, Command::Range { start, end, receiver: crx }) {
        Option::Some(rep) => Some((ctx, rep)),
        Option::None => None,
    }
}

/// Step the open cursor sub-session once.
pub fn range_next(sender: &CursorSender) -> Option<Reply> {
    call_cursor(sender, CursorCommand::Next)
}

/// Collect up to `count` entries from the open cursor sub-session.
pub fn range_take(sender: &CursorSender, count: usize) -> Option<Reply> {
    call_cursor(sender, CursorCommand::Take { count })
}

/// End the open cursor sub-session without exhausting it.
pub fn range_abort(sender: &CursorSender) -> Option<Reply> {
    call_cursor(sender, CursorCommand::Done)
}

/// End a write transaction: the actor commits and exits.
pub fn txn_write_commit(sender: &CommandSender) -> Option<Reply> {
    call(sender, Command::Done)
}

/// End a read transaction: the actor releases its snapshot and exits.
pub fn txn_read_abort(sender: &CommandSender) -> Option<Reply> {
    call(sender, Command::Done)
}

} // verus!
