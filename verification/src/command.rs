//! The command decoder: from an untyped `(name, arguments)` pair, as the
//! editor host delivers it, to a typed [`Command`].

use vstd::prelude::*;
use vstd::string::*;
use crate::locator::{is_locator, locator_shaped};
use crate::text::{same_text, strip_quotes, without_quotes};

verus! {

/// One argument of an editor command, reduced to what decoding reads of it.
#[derive(Clone, Debug, PartialEq, Eq)]
pub enum Arg {
    /// A string value, with its contents.
    Text(String),
    /// A value of any other kind, with the text the host's value type
    /// displays it as.
    Other(String),
}

impl Arg {
    /// The string form of the argument.
    pub open spec fn form(self) -> Seq<char> {
        match self {
            Arg::Text(s) => s@,
            Arg::Other(s) => s@,
        }
    }

    /// The string form of the argument.
    pub fn as_str(&self) -> (s: &str)
        ensures
            s@ == self.form(),
    {
        match self {
            Arg::Text(s) => s.as_str(),
            Arg::Other(s) => s.as_str(),
        }
    }
}

/// The string forms of `args`, one after the other, nothing in between.
pub open spec fn joined(args: Seq<Arg>) -> Seq<char>
    decreases args.len(),
{
    if args.len() == 0 {
        Seq::empty()
    } else {
        joined(args.drop_last()) + args.last().form()
    }
}

/// Concatenates the string forms of `args`.
pub fn join_args(args: &[Arg]) -> (out: String)
    ensures
        out@ == joined(args@),
{
    let mut out = String::new();
    let mut i: usize = 0;
    while i < args.len()
        invariant
            i <= args@.len(),
            out@ == joined(args@.subrange(0, i as int)),
        decreases args@.len() - i,
    {
        out.append(args[i].as_str());
        proof {
            let upto = args@.subrange(0, i + 1);
            assert(upto.drop_last() =~= args@.subrange(0, i as int));
        }
        i += 1;
    }
    assert(args@.subrange(0, i as int) =~= args@);
    out
}

/// A decoded editor command.
#[derive(Clone, Debug, PartialEq, Eq)]
pub enum Command {
    /// Open a session to `address`, an endpoint locator.
    Connect { address: String },
    /// Drop the current session, if any.
    Disconnect,
    /// Transmit `text` to the clipboard service.
    Yank { text: String },
    /// Report the connection state.
    Status,
    /// Any other command name, with the joined string forms of its
    /// arguments.
    Unrecognized { name: String, raw: String },
}

/// The mathematical value of a [`Command`].
pub enum CommandView {
    Connect { address: Seq<char> },
    Disconnect,
    Yank { text: Seq<char> },
    Status,
    Unrecognized { name: Seq<char>, raw: Seq<char> },
}

impl Command {
    /// A `Connect` holds an endpoint locator; the other commands hold
    /// free text.
    pub open spec fn well_formed(&self) -> bool {
        self matches Command::Connect { address } ==> is_endpoint_locator(address@)
    }
}

impl View for Command {
    type V = CommandView;

    open spec fn view(&self) -> CommandView {
        match self {
            Command::Connect { address } => CommandView::Connect { address: address@ },
            Command::Disconnect => CommandView::Disconnect,
            Command::Yank { text } => CommandView::Yank { text: text@ },
            Command::Status => CommandView::Status,
            Command::Unrecognized { name, raw } => CommandView::Unrecognized {
                name: name@,
                raw: raw@,
            },
        }
    }
}

/// Why a command could not be decoded.
#[derive(Clone, Copy, Debug, PartialEq, Eq, Structural)]
pub enum DecodeError {
    /// `yank` came without a string as its first argument.
    YankText,
    /// The arguments of `connect` do not spell an endpoint locator.
    ConnectAddress,
}

impl DecodeError {
    /// The text that describes the error.
    pub open spec fn message_spec(self) -> Seq<char> {
        match self {
            DecodeError::YankText => "failed to parse yanked string"@,
            DecodeError::ConnectAddress => "failed to parse connect string into address"@,
        }
    }

    /// The text that describes the error.
    pub fn message(&self) -> (text: String)
        ensures
            text@ == self.message_spec(),
    {
        match self {
            DecodeError::YankText => String::from_str("failed to parse yanked string"),
            DecodeError::ConnectAddress => String::from_str(
                "failed to parse connect string into address",
            ),
        }
    }
}

/// Whether `tonic::transport::Endpoint::from_shared` accepts `address`.
pub uninterp spec fn endpoint_accepts(address: Seq<char>) -> bool;

/// Calls `tonic::transport::Endpoint::from_shared` on a copy of `address`
/// and reports whether it returned an endpoint; the function parses the
/// text as a URI and fails on text that is none. The verdict is taken on
/// trust as a function of the text alone; nothing is claimed about which
/// texts pass.
#[verifier::external_body]
fn endpoint_parses(address: &str) -> (accepted: bool)
    ensures
        accepted == endpoint_accepts(address@),
{
    tonic::transport::Endpoint::from_shared(address.to_string()).is_ok()
}

/// An endpoint locator: a text of the shape `scheme://host:port` that
/// the endpoint parser accepts.
pub open spec fn is_endpoint_locator(address: Seq<char>) -> bool {
    is_locator(address) && endpoint_accepts(address)
}

/// The outcome of decoding, with the command taken by its view.
pub open spec fn decode_view(result: Result<Command, DecodeError>) -> Result<
    CommandView,
    DecodeError,
> {
    match result {
        Ok(command) => Ok(command@),
        Err(error) => Err(error),
    }
}

/// What `connect` decodes to, given its candidate address and the
/// endpoint parser's verdict on it: the parser's word counts only for a
/// text of the shape `scheme://host:port`.
pub open spec fn connect_decoded(address: Seq<char>, parsed: bool) -> Result<
    CommandView,
    DecodeError,
> {
    if is_locator(address) && parsed {
        Ok(CommandView::Connect { address })
    } else {
        Err(DecodeError::ConnectAddress)
    }
}

/// What `(name, args)` decodes to.
pub open spec fn decoded(name: Seq<char>, args: Seq<Arg>) -> Result<CommandView, DecodeError> {
    if name == "yank"@ {
        if args.len() > 0 && args[0] is Text {
            Ok(CommandView::Yank { text: args[0].form() })
        } else {
            Err(DecodeError::YankText)
        }
    } else if name == "connect"@ {
        let address = without_quotes(joined(args));
        connect_decoded(address, endpoint_accepts(address))
    } else if name == "disconnect"@ {
        Ok(CommandView::Disconnect)
    } else if name == "status"@ {
        Ok(CommandView::Status)
    } else {
        Ok(CommandView::Unrecognized { name, raw: joined(args) })
    }
}

/// Builds the `Connect` command for `address` once the endpoint parser
/// has given its verdict. An address that the parser rejected, or that
/// has not the shape `scheme://host:port`, is a decode error.
pub fn connect_command(address: String, parsed: bool) -> (result: Result<Command, DecodeError>)
    ensures
        decode_view(result) == connect_decoded(address@, parsed),
        parsed == endpoint_accepts(address@) ==> (result matches Ok(command)
            ==> command.well_formed()),
{
    if parsed && locator_shaped(address.as_str()) {
        Ok(Command::Connect { address })
    } else {
        Err(DecodeError::ConnectAddress)
    }
}

/// Decodes one editor command.
///
/// `yank` takes its text from the first argument, which must be a string.
/// `connect` joins the string forms of all arguments, drops the double
/// quotes and keeps the result if it has the shape `scheme://host:port`
/// and the endpoint parser accepts it. `disconnect`
/// and `status` ignore their arguments. Every other name decodes to
/// [`Command::Unrecognized`].
pub fn decode(name: &str, args: &[Arg]) -> (result: Result<Command, DecodeError>)
    ensures
        decode_view(result) == decoded(name@, args@),
        result matches Ok(command) ==> command.well_formed(),
{
    if same_text(name, "yank") {
        if args.len() > 0 {
            match &args[0] {
                Arg::Text(text) => Ok(Command::Yank { text: text.clone() }),
                Arg::Other(_) => Err(DecodeError::YankText),
            }
        } else {
            Err(DecodeError::YankText)
        }
    } else if same_text(name, "connect") {
        let joined = join_args(args);
        let address = strip_quotes(joined.as_str());
        let parsed = endpoint_parses(address.as_str());
        connect_command(address, parsed)
    } else if same_text(name, "disconnect") {
        Ok(Command::Disconnect)
    } else if same_text(name, "status") {
        Ok(Command::Status)
    } else {
        Ok(Command::Unrecognized { name: String::from_str(name), raw: join_args(args) })
    }
}

/// One argument joins to its own string form.
pub proof fn lemma_joined_single(args: Seq<Arg>)
    requires
        args.len() == 1,
    ensures
        joined(args) == args[0].form(),
{
    assert(joined(args.drop_last()) =~= Seq::<char>::empty());
    assert(joined(args) =~= args[0].form());
}

/// A `yank` whose first argument is a string always decodes, and the
/// command carries exactly that string.
pub proof fn lemma_yank_carries_first_argument(args: Seq<Arg>)
    requires
        args.len() > 0,
        args[0] is Text,
    ensures
        decoded("yank"@, args) == Ok::<CommandView, DecodeError>(
            CommandView::Yank { text: args[0].form() },
        ),
{
}

/// A `connect` decodes if and only if its joined arguments, without their
/// double quotes, are an endpoint locator: a text of the shape
/// `scheme://host:port` that the endpoint parser accepts. The command
/// then carries that text, and otherwise the address error is returned.
pub proof fn lemma_connect_needs_locator(args: Seq<Arg>)
    ensures
        decoded("connect"@, args) is Ok <==> is_endpoint_locator(without_quotes(joined(args))),
        decoded("connect"@, args) is Ok ==> is_locator(without_quotes(joined(args))),
        !is_locator(without_quotes(joined(args))) ==> decoded("connect"@, args) == Err::<
            CommandView,
            DecodeError,
        >(DecodeError::ConnectAddress),
        decoded("connect"@, args) is Ok ==> decoded("connect"@, args) == Ok::<
            CommandView,
            DecodeError,
        >(CommandView::Connect { address: without_quotes(joined(args)) }),
        decoded("connect"@, args) is Err ==> decoded("connect"@, args) == Err::<
            CommandView,
            DecodeError,
        >(DecodeError::ConnectAddress),
{
    reveal_strlit("connect");
    reveal_strlit("yank");
    assert("connect"@.len() != "yank"@.len());
}

/// A name other than `yank`, `connect`, `disconnect` and `status` never
/// fails to decode: it gives `Unrecognized`, with the name and the joined
/// arguments.
pub proof fn lemma_unknown_name_is_unrecognized(name: Seq<char>, args: Seq<Arg>)
    requires
        name != "yank"@,
        name != "connect"@,
        name != "disconnect"@,
        name != "status"@,
    ensures
        decoded(name, args) == Ok::<CommandView, DecodeError>(
            CommandView::Unrecognized { name, raw: joined(args) },
        ),
{
}

} // verus!
