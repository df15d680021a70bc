//! The bridge dispatcher: for each command, what to answer the editor
//! host and what to do with the connection.
//!
//! The dispatcher never touches the network. Where a command needs a
//! session opened or a remote call made, [`dispatch`] says so in the
//! [`Step`] it returns; the host loop does that work, waits for it, and
//! hands the result to [`connect_finished`] or [`yank_finished`]. The
//! host processes one command at a time, so the manager has one writer.
//!
//! A remote call that fails while a connection exists is fatal to the
//! invocation: [`yank_finished`] returns the error instead of a reply,
//! the connection is left in place, and the host is expected to stop on
//! it. No reply is made up for the editor in that case.

use vstd::prelude::*;
use vstd::string::*;
use crate::command::{decode, decoded, Arg, Command, CommandView, DecodeError};
use crate::connection::{after_connect, link_address, ConnectError, ConnectionManager};
use crate::notification::{notice_view, Notification, NotificationView};
use crate::text::occurs_in;

verus! {

/// What the host loop does next for a command.
#[derive(Clone, Debug, PartialEq, Eq)]
pub enum Step {
    /// Answer the editor host with `text`; the command is done.
    Reply { text: String },
    /// Open a session to `address`, then call [`connect_finished`].
    OpenSession { address: String },
    /// Send `text` on the active connection, then call [`yank_finished`].
    SendYank { text: String },
}

/// The mathematical value of a [`Step`].
pub enum StepView {
    Reply { text: Seq<char> },
    OpenSession { address: Seq<char> },
    SendYank { text: Seq<char> },
}

impl View for Step {
    type V = StepView;

    open spec fn view(&self) -> StepView {
        match self {
            Step::Reply { text } => StepView::Reply { text: text@ },
            Step::OpenSession { address } => StepView::OpenSession { address: address@ },
            Step::SendYank { text } => StepView::SendYank { text: text@ },
        }
    }
}

/// The end of a connection attempt as the editor sees it.
#[derive(Clone, Debug, PartialEq, Eq)]
pub struct Completion {
    /// The answer to the editor host.
    pub reply: String,
    /// What to queue for the editor-facing loop, if anything.
    pub notice: Option<Notification>,
}

/// The mathematical value of a [`Completion`].
pub struct CompletionView {
    pub reply: Seq<char>,
    pub notice: Option<NotificationView>,
}

impl View for Completion {
    type V = CompletionView;

    open spec fn view(&self) -> CompletionView {
        CompletionView { reply: self.reply@, notice: notice_view(self.notice) }
    }
}

/// Why a remote call failed, in the transport's words.
#[derive(Clone, Debug, PartialEq, Eq)]
pub struct CallError {
    pub message: String,
}

/// The reply to `status`.
pub open spec fn status_text(address: Option<Seq<char>>) -> Seq<char> {
    match address {
        Some(address) => "connected to "@ + address,
        None => "disconnected"@,
    }
}

/// The step for `command` when the manager's connection, if any, was
/// opened with `address`.
pub open spec fn planned(address: Option<Seq<char>>, command: CommandView) -> StepView {
    match command {
        CommandView::Connect { address: target } => StepView::OpenSession { address: target },
        CommandView::Disconnect => StepView::Reply { text: "Ok"@ },
        CommandView::Yank { text } => if address is Some {
            StepView::SendYank { text }
        } else {
            StepView::Reply { text: "Yank error"@ }
        },
        CommandView::Status => StepView::Reply { text: status_text(address) },
        CommandView::Unrecognized { name, raw } => StepView::Reply {
            text: "received unknown event type"@,
        },
    }
}

/// The manager's state after [`dispatch`]: only `Disconnect` changes it.
pub open spec fn after_dispatch<H>(
    before: Option<(Seq<char>, H)>,
    command: CommandView,
) -> Option<(Seq<char>, H)> {
    if command is Disconnect {
        None
    } else {
        before
    }
}

/// The step for a request, given what its name and arguments decoded to.
pub open spec fn requested(
    address: Option<Seq<char>>,
    decoding: Result<CommandView, DecodeError>,
) -> StepView {
    match decoding {
        Ok(command) => planned(address, command),
        Err(_) => StepView::Reply { text: "couldn't convert message into known message type"@ },
    }
}

/// The manager's state after a request.
pub open spec fn after_request<H>(
    before: Option<(Seq<char>, H)>,
    decoding: Result<CommandView, DecodeError>,
) -> Option<(Seq<char>, H)> {
    match decoding {
        Ok(command) => after_dispatch(before, command),
        Err(_) => before,
    }
}

/// What the editor is told at the end of a connection attempt that
/// failed with `failure`, or succeeded if there is none.
pub open spec fn connect_completion(failure: Option<Seq<char>>) -> CompletionView {
    match failure {
        None => CompletionView { reply: "Ok"@, notice: None },
        Some(reason) => CompletionView {
            reply: "Error connecting"@,
            notice: Some(
                NotificationView::Echo { message: "failed to connect to client: "@ + reason },
            ),
        },
    }
}

/// The transport's words for a failed attempt, nothing for a success.
pub open spec fn failure_of<H>(attempt: Result<H, ConnectError>) -> Option<Seq<char>> {
    match attempt {
        Ok(_) => None,
        Err(error) => Some(error.message@),
    }
}

/// Decides the first step for a decoded command.
///
/// `Disconnect`, `Status` and unrecognized commands are answered at once,
/// and so is a `Yank` when no connection is active. `Connect`, and `Yank`
/// on an active connection, need the host loop to reach the network.
pub fn dispatch<H>(manager: &mut ConnectionManager<H>, command: Command) -> (step: Step)
    ensures
        step@ == planned(old(manager).address(), command@),
        final(manager)@ == after_dispatch(old(manager)@, command@),
{
    match command {
        Command::Connect { address } => Step::OpenSession { address },
        Command::Disconnect => {
            manager.disconnect();
            Step::Reply { text: String::from_str("Ok") }
        },
        Command::Yank { text } => {
            if manager.is_connected() {
                Step::SendYank { text }
            } else {
                Step::Reply { text: String::from_str("Yank error") }
            }
        },
        Command::Status => {
            match manager.describe() {
                Some(address) => {
                    let mut text = String::from_str("connected to ");
                    text.append(address.as_str());
                    Step::Reply { text }
                },
                None => Step::Reply { text: String::from_str("disconnected") },
            }
        },
        Command::Unrecognized { name: _, raw: _ } => Step::Reply {
            text: String::from_str("received unknown event type"),
        },
    }
}

/// Decodes a request of the editor host and decides its first step. A
/// request that does not decode is answered at once and changes nothing.
pub fn handle_request<H>(manager: &mut ConnectionManager<H>, name: &str, args: &[Arg]) -> (step:
    Step)
    ensures
        step@ == requested(old(manager).address(), decoded(name@, args@)),
        final(manager)@ == after_request(old(manager)@, decoded(name@, args@)),
{
    match decode(name, args) {
        Ok(command) => dispatch(manager, command),
        Err(_) => Step::Reply {
            text: String::from_str("couldn't convert message into known message type"),
        },
    }
}

/// Ends a `Connect`: records the attempt in the manager and says what the
/// editor is told. A failure is answered, and shown to the user as well.
pub fn connect_finished<H>(
    manager: &mut ConnectionManager<H>,
    address: String,
    attempt: Result<H, ConnectError>,
) -> (done: Completion)
    ensures
        final(manager)@ == after_connect(old(manager)@, address@, attempt),
        done@ == connect_completion(failure_of(attempt)),
{
    match manager.connect(address, attempt) {
        Ok(()) => Completion { reply: String::from_str("Ok"), notice: None },
        Err(error) => {
            let mut message = String::from_str("failed to connect to client: ");
            message.append(error.message.as_str());
            Completion {
                reply: String::from_str("Error connecting"),
                notice: Some(Notification::Echo { message }),
            }
        },
    }
}

/// Ends a `Yank` that was sent: a call that went through is answered with
/// `Ok`, one that failed is handed back as the error it failed with.
pub fn yank_finished(call: Result<(), CallError>) -> (reply: Result<String, CallError>)
    ensures
        match call {
            Ok(_) => reply matches Ok(text) && text@ == "Ok"@,
            Err(error) => reply == Err::<String, CallError>(error),
        },
{
    match call {
        Ok(()) => Ok(String::from_str("Ok")),
        Err(error) => Err(error),
    }
}

/// After a connection attempt to `address` has succeeded, the reply to
/// `status` is `connected to ` followed by that address, whatever was
/// connected before.
pub proof fn lemma_status_after_connect<H>(
    before: Option<(Seq<char>, H)>,
    address: Seq<char>,
    handle: H,
)
    ensures
        planned(
            link_address(after_connect(before, address, Ok::<H, ConnectError>(handle))),
            CommandView::Status,
        ) == (StepView::Reply { text: "connected to "@ + address }),
        occurs_in(address, "connected to "@ + address),
{
    let prefix = "connected to "@;
    let text = prefix + address;
    let at = prefix.len() as int;
    assert(text.subrange(at, at + address.len()) =~= address);
}

/// After `Disconnect`, the reply to `status` is exactly `disconnected`,
/// whatever was connected before.
pub proof fn lemma_status_after_disconnect<H>(before: Option<(Seq<char>, H)>)
    ensures
        planned(link_address(before), CommandView::Disconnect) == (StepView::Reply {
            text: "Ok"@,
        }),
        planned(
            link_address(after_dispatch(before, CommandView::Disconnect)),
            CommandView::Status,
        ) == (StepView::Reply { text: "disconnected"@ }),
{
}

/// Disconnecting twice is the same as disconnecting once.
pub proof fn lemma_disconnect_is_idempotent<H>(before: Option<(Seq<char>, H)>)
    ensures
        after_dispatch(
            after_dispatch(before, CommandView::Disconnect),
            CommandView::Disconnect,
        ) == after_dispatch(before, CommandView::Disconnect),
        after_dispatch(before, CommandView::Disconnect) is None,
{
}

/// A `Yank` with no active connection is answered `Yank error` at once:
/// the step is a reply, not a remote call, and the manager stays
/// disconnected.
pub proof fn lemma_yank_while_disconnected<H>(text: Seq<char>)
    ensures
        planned(None, CommandView::Yank { text }) == (StepView::Reply { text: "Yank error"@ }),
        !(planned(None, CommandView::Yank { text }) is SendYank),
        after_dispatch(None::<(Seq<char>, H)>, CommandView::Yank { text }) is None,
{
}

/// Two connection attempts that succeed one after the other leave one
/// active connection, the second: nothing of the first remains.
pub proof fn lemma_second_connect_replaces_first<H>(
    before: Option<(Seq<char>, H)>,
    first: Seq<char>,
    first_handle: H,
    second: Seq<char>,
    second_handle: H,
)
    ensures
        after_connect(
            after_connect(before, first, Ok::<H, ConnectError>(first_handle)),
            second,
            Ok::<H, ConnectError>(second_handle),
        ) == Some((second, second_handle)),
{
}

} // verus!
