//! What the session receives: commands as the grammar of RFC 5321 read
//! them, and the events of the data phase.
//!
//! The session parses nothing. Whoever reads the line hands over these
//! values, and the readings of the parameter values with them: the session
//! decides what they are worth.

use vstd::prelude::*;

use crate::policy::Credentials;
use crate::recipients::Notify;

verus! {

/// How a client names itself, or the domain of an address.
#[derive(Debug, Clone, PartialEq, Eq)]
pub enum ClientId {
    /// A domain name.
    Domain(Vec<u8>),
    /// An address literal, brackets included: `[192.0.2.1]`.
    AddressLiteral(Vec<u8>),
}

impl ClientId {
    /// The bytes, as written.
    pub open spec fn spec_octets(self) -> Seq<u8> {
        match self {
            ClientId::Domain(nom) => nom@,
            ClientId::AddressLiteral(nom) => nom@,
        }
    }

    /// The bytes, as written.
    pub fn as_bytes(&self) -> (r: &[u8])
        ensures
            r@ == self.spec_octets(),
    {
        match self {
            ClientId::Domain(nom) => nom.as_slice(),
            ClientId::AddressLiteral(nom) => nom.as_slice(),
        }
    }
}

/// `local-part@domain`.
#[derive(Debug, Clone, PartialEq, Eq)]
pub struct Mailbox {
    /// What precedes the `@`.
    pub local_part: Vec<u8>,
    /// What follows it.
    pub domain: ClientId,
}

/// A reverse-path or a forward-path.
#[derive(Debug, Clone, PartialEq, Eq)]
pub enum Path {
    /// An address.
    Mailbox(Mailbox),
    /// `<>`: the sender of notifications.
    Null,
    /// `<Postmaster>`, without a domain (RFC 5321 §4.1.1.3).
    Postmaster,
}

/// What the grammar of RFC 3461 reads in the value of a parameter.
///
/// Each reading is that of the value, whatever the keyword; the session only
/// looks at the one that its keyword calls for.
#[derive(Debug, Clone, PartialEq, Eq)]
pub struct Lecture {
    /// Is the value a `RET` value (`FULL` or `HDRS`)?
    pub ret: bool,
    /// The value decoded as an xtext (§4), if it is one.
    pub xtext: Option<Vec<u8>>,
    /// The value read as a `NOTIFY` list (§4.1), if it is one.
    pub notify: Option<Notify>,
    /// The address of an `ORCPT` value (§4.2), decoded, if it is one.
    pub orcpt: Option<Vec<u8>>,
}

/// An ESMTP parameter: `KEYWORD[=value]`.
#[derive(Debug, Clone, PartialEq, Eq)]
pub struct Parameter {
    /// The keyword, as written.
    pub keyword: Vec<u8>,
    /// The value, if there is an `=`.
    pub value: Option<Vec<u8>>,
    /// What the value reads as.
    pub lecture: Lecture,
}

/// A command, as the grammar read it.
#[derive(Debug, Clone, PartialEq, Eq)]
pub enum Command {
    /// `EHLO`.
    Ehlo(ClientId),
    /// `HELO`: a domain only.
    Helo(Vec<u8>),
    /// `MAIL FROM:`.
    Mail { reverse_path: Path, parameters: Vec<Parameter> },
    /// `RCPT TO:`.
    Rcpt { forward_path: Path, parameters: Vec<Parameter> },
    /// `DATA`.
    Data,
    /// `BDAT size [LAST]` (RFC 3030).
    Bdat { size: u64, last: bool },
    /// `RSET`.
    Rset,
    /// `NOOP`.
    Noop,
    /// `QUIT`.
    Quit,
    /// `STARTTLS` (RFC 3207).
    StartTls,
    /// `AUTH mechanism [initial-response]` (RFC 4954).
    ///
    /// `credentials` is what the `PLAIN` reading of the base64 response gives,
    /// the initial one as [`reponse_effective`] says, if anything.
    Auth { mechanism: Vec<u8>, initial_response: Option<Vec<u8>>, credentials: Option<Credentials> },
    /// `VRFY`.
    Vrfy,
    /// `EXPN`.
    Expn,
    /// `HELP`.
    Help,
}

/// Why a line was not a command. The reply never says more than its class.
#[derive(Debug, Clone, Copy, PartialEq, Eq, Structural)]
pub enum ParseFault {
    /// Longer than the limits allow.
    LineTooLong,
    /// Not ended by `CRLF`.
    MalformedLineEnding,
    /// An unknown verb.
    UnknownVerb,
    /// A verb that RFC 5321 withdrew.
    ObsoleteVerb,
    /// Arguments that do not fit the verb.
    BadArguments,
}

/// Why the data of a message were refused by the grammar.
#[derive(Debug, Clone, Copy, PartialEq, Eq, Structural)]
pub enum DataFault {
    /// A `CR` or a `LF` alone.
    BareLineEnding,
    /// A line longer than the limit.
    LineTooLong { limit: u64 },
    /// A message larger than the limit.
    MessageTooLarge { limit: u64 },
}

/// What the receiver of the data phase found in the bytes it was given.
#[derive(Debug, Clone, Copy, PartialEq, Eq)]
pub enum DataEvent<'a> {
    /// Content of the message, unstuffed.
    Content(&'a [u8]),
    /// Nothing yet.
    NeedMore,
    /// `<CRLF>.<CRLF>`: the message is complete.
    Complete,
}

/// What the receiver of a chunk found in the bytes it was given.
#[derive(Debug, Clone, Copy, PartialEq, Eq)]
pub enum ChunkEvent<'a> {
    /// Content of the message.
    Content(&'a [u8]),
    /// Nothing yet.
    NeedMore,
    /// The chunk is read, and it was not the last.
    ChunkComplete,
    /// The last chunk is read: the message is complete.
    Complete,
}

/// The initial response that `AUTH` actually carries.
pub open spec fn reponse_effective_spec(reponse: Seq<u8>) -> Seq<u8> {
    if reponse == seq![61u8] {
        Seq::empty()
    } else {
        reponse
    }
}

/// The initial response that `AUTH` actually carries: a lone `=` stands for
/// an EMPTY response (RFC 4954 §4), so that "nothing" and "an empty string"
/// are not written alike.
pub fn reponse_effective(reponse: &[u8]) -> (r: &[u8])
    ensures
        r@ == reponse_effective_spec(reponse@),
{
    if reponse.len() == 1 && reponse[0] == 61u8 {
        assert(reponse@ =~= seq![61u8]);
        &reponse[0..0]
    } else {
        assert(reponse@ != seq![61u8]) by {
            if reponse@ == seq![61u8] {
                assert(reponse@[0] == 61u8);
            }
        }
        reponse
    }
}

} // verus!
