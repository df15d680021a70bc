//! The clipboard service's handling of one yank update.
//!
//! The service itself owns the listener and the clipboard, and lets one
//! write run at a time. For each update it asks [`begin_yank_update`]
//! what to write, writes it, and asks [`finish_yank_update`] what to
//! answer.
//!
//! Transmitted contents are escaped text: they are read as what stands
//! between a pair of double quotes, so `\n` in them is a line break and
//! a single quote is itself.

use vstd::prelude::*;
use vstd::string::*;

verus! {

/// What `snailquote::unescape` returns for `text`: the unescaped text, or
/// nothing where it reports an error.
pub uninterp spec fn unescaped(text: Seq<char>) -> Option<Seq<char>>;

/// `snailquote::UnescapeError`, the error of `snailquote::unescape`. It is
/// carried through unread.
#[verifier::external_type_specification]
#[verifier::external_body]
pub struct ExUnescapeError(snailquote::UnescapeError);

/// Calls `snailquote::unescape`, which undoes shell-like quoting: quote
/// marks go, and the escapes between double quotes become the characters
/// they stand for. The result is taken on trust as a function of the text
/// alone; nothing is claimed about what it is for a given text.
#[verifier::external_body]
fn unescape(text: &str) -> (result: Result<String, snailquote::UnescapeError>)
    ensures
        match result {
            Ok(plain) => unescaped(text@) == Some(plain@),
            Err(_) => unescaped(text@) is None,
        },
{
    snailquote::unescape(text)
}

/// Why a yank update is answered with a failure.
#[derive(Clone, Debug, PartialEq, Eq)]
pub enum ServiceError {
    /// The request carried no yank.
    MissingPayload,
    /// The transmitted text could not be unescaped.
    MalformedPayload,
    /// The clipboard refused the write, for `reason`.
    ClipboardWrite { reason: String },
}

/// The text of the failure status for each error.
pub open spec fn failure_text(error: ServiceError) -> Seq<char> {
    match error {
        ServiceError::MissingPayload => "yank update without a yank"@,
        ServiceError::MalformedPayload => "yank contents could not be unescaped"@,
        ServiceError::ClipboardWrite { reason } => "clipboard write failed: "@ + reason@,
    }
}

impl ServiceError {
    /// The text of the failure status.
    pub fn message(&self) -> (text: String)
        ensures
            text@ == failure_text(*self),
    {
        match self {
            ServiceError::MissingPayload => String::from_str("yank update without a yank"),
            ServiceError::MalformedPayload => String::from_str(
                "yank contents could not be unescaped",
            ),
            ServiceError::ClipboardWrite { reason } => {
                let mut text = String::from_str("clipboard write failed: ");
                text.append(reason.as_str());
                text
            },
        }
    }
}

/// `text` between a pair of double quotes.
pub open spec fn quoted(text: Seq<char>) -> Seq<char> {
    "\""@ + text + "\""@
}

/// Puts `text` between a pair of double quotes.
pub fn quote(text: &str) -> (out: String)
    ensures
        out@ == quoted(text@),
{
    let mut out = String::from_str("\"");
    out.append(text);
    out.append("\"");
    out
}

/// The text to write for transmitted contents, given what unescaping
/// them returned: the unescaped text, or the malformed-payload error.
pub fn unescaped_contents(unescaping: Result<String, snailquote::UnescapeError>) -> (result: Result<
    String,
    ServiceError,
>)
    ensures
        match unescaping {
            Ok(plain) => result == Ok::<String, ServiceError>(plain),
            Err(_) => result == Err::<String, ServiceError>(ServiceError::MalformedPayload),
        },
{
    match unescaping {
        Ok(plain) => Ok(plain),
        Err(_) => Err(ServiceError::MalformedPayload),
    }
}

/// Starts a yank update: the text to write to the clipboard, which is
/// the transmitted contents unescaped as the inside of a double-quoted
/// text. A request without contents, and contents that do not unescape,
/// are errors, and nothing is written.
pub fn begin_yank_update(contents: Option<&str>) -> (result: Result<String, ServiceError>)
    ensures
        match result {
            Ok(text) => contents matches Some(sent) && unescaped(quoted(sent@)) == Some(text@),
            Err(error) => match contents {
                Some(sent) => unescaped(quoted(sent@)) is None && error
                    == ServiceError::MalformedPayload,
                None => error == ServiceError::MissingPayload,
            },
        },
{
    match contents {
        Some(sent) => {
            let escaped = quote(sent);
            unescaped_contents(unescape(escaped.as_str()))
        },
        None => Err(ServiceError::MissingPayload),
    }
}

/// Ends a yank update: `success` after a write that went through, the
/// write's failure otherwise.
pub fn finish_yank_update(write: Result<(), String>) -> (result: Result<String, ServiceError>)
    ensures
        match write {
            Ok(_) => result matches Ok(response) && response@ == "success"@,
            Err(reason) => result == Err::<String, ServiceError>(
                ServiceError::ClipboardWrite { reason },
            ),
        },
{
    match write {
        Ok(()) => Ok(String::from_str("success")),
        Err(reason) => Err(ServiceError::ClipboardWrite { reason }),
    }
}

} // verus!
