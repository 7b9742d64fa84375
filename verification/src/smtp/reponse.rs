//! What an SMTP session says: reply codes, enhanced status codes
//! (RFC 3463), and the closed vocabulary of its texts.
//!
//! No text here carries anything that came from the peer. That is what makes
//! reply injection inexpressible rather than merely refused.

use vstd::prelude::*;

use crate::digits::{decimal, ecriture_decimale};

verus! {

/// How much room a reply line has, enhanced status included. The longest
/// text of the vocabulary fits with room to spare; what would not fit leaves
/// without its status rather than truncated.
pub const LIGNE_MAX: usize = 256;

/// A three-digit reply code (RFC 5321 §4.2).
#[derive(Debug, Clone, Copy, PartialEq, Eq, Structural)]
pub enum Code {
    /// `214`.
    HelpMessage,
    /// `220`.
    ServiceReady,
    /// `221`.
    Closing,
    /// `235` (RFC 4954).
    AuthSucceeded,
    /// `250`.
    Completed,
    /// `252`.
    CannotVerify,
    /// `334` (RFC 4954).
    AuthChallenge,
    /// `354`.
    StartMailInput,
    /// `421`.
    ServiceClosing,
    /// `450`.
    MailboxBusy,
    /// `451`.
    LocalError,
    /// `452`.
    TooManyRecipients,
    /// `500`.
    SyntaxError,
    /// `501`.
    ArgumentError,
    /// `502`.
    NotImplemented,
    /// `503`.
    BadSequence,
    /// `504`.
    ParameterNotImplemented,
    /// `535` (RFC 4954).
    AuthFailed,
    /// `538` (RFC 4954).
    EncryptionRequired,
    /// `550`.
    MailboxUnavailable,
    /// `552`.
    MessageTooLarge,
    /// `554`.
    TransactionFailed,
}

/// The class of a reply, from its first digit.
#[derive(Debug, Clone, Copy, PartialEq, Eq, Structural)]
pub enum Class {
    /// `2xx`.
    Positive,
    /// `3xx`: an invitation to go on, not a verdict.
    Intermediate,
    /// `4xx`: try again later.
    TransientFailure,
    /// `5xx`: do not try again.
    PermanentFailure,
}

impl Code {
    /// The three digits.
    pub open spec fn spec_valeur(self) -> u16 {
        match self {
            Code::HelpMessage => 214,
            Code::ServiceReady => 220,
            Code::Closing => 221,
            Code::AuthSucceeded => 235,
            Code::Completed => 250,
            Code::CannotVerify => 252,
            Code::AuthChallenge => 334,
            Code::StartMailInput => 354,
            Code::ServiceClosing => 421,
            Code::MailboxBusy => 450,
            Code::LocalError => 451,
            Code::TooManyRecipients => 452,
            Code::SyntaxError => 500,
            Code::ArgumentError => 501,
            Code::NotImplemented => 502,
            Code::BadSequence => 503,
            Code::ParameterNotImplemented => 504,
            Code::AuthFailed => 535,
            Code::EncryptionRequired => 538,
            Code::MailboxUnavailable => 550,
            Code::MessageTooLarge => 552,
            Code::TransactionFailed => 554,
        }
    }

    /// The three digits.
    pub fn value(self) -> (r: u16)
        ensures
            r == self.spec_valeur(),
    {
        match self {
            Code::HelpMessage => 214,
            Code::ServiceReady => 220,
            Code::Closing => 221,
            Code::AuthSucceeded => 235,
            Code::Completed => 250,
            Code::CannotVerify => 252,
            Code::AuthChallenge => 334,
            Code::StartMailInput => 354,
            Code::ServiceClosing => 421,
            Code::MailboxBusy => 450,
            Code::LocalError => 451,
            Code::TooManyRecipients => 452,
            Code::SyntaxError => 500,
            Code::ArgumentError => 501,
            Code::NotImplemented => 502,
            Code::BadSequence => 503,
            Code::ParameterNotImplemented => 504,
            Code::AuthFailed => 535,
            Code::EncryptionRequired => 538,
            Code::MailboxUnavailable => 550,
            Code::MessageTooLarge => 552,
            Code::TransactionFailed => 554,
        }
    }

    /// The class, read from the first digit.
    pub open spec fn spec_classe(self) -> Class {
        let centaine = self.spec_valeur() / 100;
        if centaine == 2 {
            Class::Positive
        } else if centaine == 3 {
            Class::Intermediate
        } else if centaine == 4 {
            Class::TransientFailure
        } else {
            Class::PermanentFailure
        }
    }

    /// The class, read from the first digit.
    pub fn class(self) -> (r: Class)
        ensures
            r == self.spec_classe(),
    {
        let centaine = self.value() / 100;
        if centaine == 2 {
            Class::Positive
        } else if centaine == 3 {
            Class::Intermediate
        } else if centaine == 4 {
            Class::TransientFailure
        } else {
            Class::PermanentFailure
        }
    }
}

/// The enhanced status codes that this server gives (RFC 3463, RFC 7372).
#[derive(Debug, Clone, Copy, PartialEq, Eq, Structural)]
pub enum Status {
    /// `2.0.0`.
    Okay,
    /// `2.1.0`.
    SenderOk,
    /// `2.7.0`.
    SecurityOk,
    /// `4.0.0`: other or undefined, transient.
    LocalError,
    /// `4.2.1`.
    MailboxBusy,
    /// `4.3.2`.
    NotAccepting,
    /// `4.4.3`.
    DnsTemporary,
    /// `4.5.3`.
    TooManyRecipients,
    /// `5.0.0`: other or undefined, permanent.
    PolicyOther,
    /// `5.1.1`.
    MailboxUnavailable,
    /// `5.3.4`.
    MessageTooLarge,
    /// `5.4.6`.
    TooManyHops,
    /// `5.5.0`.
    BadSequence,
    /// `5.5.1`.
    UnknownCommand,
    /// `5.5.2`.
    SyntaxError,
    /// `5.5.4`.
    BadParameter,
    /// `5.6.0`.
    BadContent,
    /// `5.7.0`.
    Security,
    /// `5.7.1`.
    Policy,
    /// `5.7.23` (RFC 7372).
    SpfRefused,
}

impl Status {
    /// Class, subject and detail.
    pub open spec fn spec_triple(self) -> (u8, u16, u16) {
        match self {
            Status::Okay => (2, 0, 0),
            Status::SenderOk => (2, 1, 0),
            Status::SecurityOk => (2, 7, 0),
            Status::LocalError => (4, 0, 0),
            Status::MailboxBusy => (4, 2, 1),
            Status::NotAccepting => (4, 3, 2),
            Status::DnsTemporary => (4, 4, 3),
            Status::TooManyRecipients => (4, 5, 3),
            Status::PolicyOther => (5, 0, 0),
            Status::MailboxUnavailable => (5, 1, 1),
            Status::MessageTooLarge => (5, 3, 4),
            Status::TooManyHops => (5, 4, 6),
            Status::BadSequence => (5, 5, 0),
            Status::UnknownCommand => (5, 5, 1),
            Status::SyntaxError => (5, 5, 2),
            Status::BadParameter => (5, 5, 4),
            Status::BadContent => (5, 6, 0),
            Status::Security => (5, 7, 0),
            Status::Policy => (5, 7, 1),
            Status::SpfRefused => (5, 7, 23),
        }
    }

    /// Class, subject and detail.
    pub fn triple(self) -> (r: (u8, u16, u16))
        ensures
            r == self.spec_triple(),
    {
        match self {
            Status::Okay => (2, 0, 0),
            Status::SenderOk => (2, 1, 0),
            Status::SecurityOk => (2, 7, 0),
            Status::LocalError => (4, 0, 0),
            Status::MailboxBusy => (4, 2, 1),
            Status::NotAccepting => (4, 3, 2),
            Status::DnsTemporary => (4, 4, 3),
            Status::TooManyRecipients => (4, 5, 3),
            Status::PolicyOther => (5, 0, 0),
            Status::MailboxUnavailable => (5, 1, 1),
            Status::MessageTooLarge => (5, 3, 4),
            Status::TooManyHops => (5, 4, 6),
            Status::BadSequence => (5, 5, 0),
            Status::UnknownCommand => (5, 5, 1),
            Status::SyntaxError => (5, 5, 2),
            Status::BadParameter => (5, 5, 4),
            Status::BadContent => (5, 6, 0),
            Status::Security => (5, 7, 0),
            Status::Policy => (5, 7, 1),
            Status::SpfRefused => (5, 7, 23),
        }
    }

    /// Does the class of the status agree with that of the reply code?
    pub open spec fn spec_accorde(self, code: Code) -> bool {
        self.spec_triple().0 as u16 == code.spec_valeur() / 100
    }

    /// Does the class of the status agree with that of the reply code?
    pub fn agrees_with(self, code: Code) -> (r: bool)
        ensures
            r == self.spec_accorde(code),
    {
        let (classe, _, _) = self.triple();
        classe as u16 == code.value() / 100
    }

    /// How the status is written: `class.subject.detail`.
    pub open spec fn spec_octets(self) -> Seq<u8> {
        let (c, s, d) = self.spec_triple();
        ecriture_decimale(c as nat) + seq![46u8] + ecriture_decimale(s as nat) + seq![46u8]
            + ecriture_decimale(d as nat)
    }

    /// How the status is written: `class.subject.detail`.
    pub fn octets(self) -> (r: Vec<u8>)
        ensures
            r@ == self.spec_octets(),
    {
        let (c, s, d) = self.triple();
        let mut r = decimal(c as u64);
        r.push(46u8);
        let mut milieu = decimal(s as u64);
        r.append(&mut milieu);
        r.push(46u8);
        let mut fin = decimal(d as u64);
        r.append(&mut fin);
        r
    }
}

/// The closed vocabulary of single-line replies.
#[derive(Debug, Clone, Copy, PartialEq, Eq, Structural)]
pub enum Texte {
    ServiceNotAvailable,
    TooManyHops,
    BareLineEnding,
    LineTooLong,
    MessageTooLarge,
    MessageAccepted,
    MessageRejected,
    RejectedByDomainPolicy,
    MessageNotAccepted,
    ChunkOk,
    ResetOk,
    Okay,
    Bye,
    CannotVerify,
    ExpnNotAvailable,
    SeeRfc,
    LineMustEndWithCrlf,
    CommandNotRecognised,
    CommandNotImplemented,
    SyntaxErrorInArguments,
    SendEhloFirst,
    NestedMail,
    ParameterNotRecognised,
    SenderOk,
    SenderRejectedBySpf,
    SpfTemporaryError,
    TooManyRecipients,
    RecipientOk,
    MailboxUnavailable,
    MailboxBusy,
    RelayAccessDenied,
    NeedMailBeforeRcpt,
    BdatAlreadyStarted,
    StartMailInput,
    NeedRcptBeforeData,
    NeedMailAndRcptBeforeBdat,
    NeedRcptBeforeBdat,
    TlsAlreadyActive,
    ReadyToStartTls,
    EncryptionRequired,
    AlreadyAuthenticated,
    UnrecognizedAuthenticationType,
    /// No text: the `334` challenge of `PLAIN` is empty.
    Nothing,
    AuthenticationAborted,
    AuthenticationSuccessful,
    AuthenticationCredentialsInvalid,
}

impl Texte {
    /// The words of the text.
    pub open spec fn spec_mots(self) -> Seq<char> {
        match self {
            Texte::ServiceNotAvailable => "Service not available, closing transmission channel"@,
            Texte::TooManyHops => "Too many hops; message is looping"@,
            Texte::BareLineEnding => "Bare CR or LF in message data"@,
            Texte::LineTooLong => "Line too long"@,
            Texte::MessageTooLarge => "Message exceeds maximum size"@,
            Texte::MessageAccepted => "Message accepted"@,
            Texte::MessageRejected => "Message rejected"@,
            Texte::RejectedByDomainPolicy => "Message rejected: sender domain policy (DMARC)"@,
            Texte::MessageNotAccepted => "Message not accepted, try again later"@,
            Texte::ChunkOk => "Chunk ok"@,
            Texte::ResetOk => "Reset ok"@,
            Texte::Okay => "OK"@,
            Texte::Bye => "Bye"@,
            Texte::CannotVerify => "Cannot verify; message will be attempted"@,
            Texte::ExpnNotAvailable => "EXPN not available"@,
            Texte::SeeRfc => "See RFC 5321"@,
            Texte::LineMustEndWithCrlf => "Line must end with CRLF"@,
            Texte::CommandNotRecognised => "Command not recognised"@,
            Texte::CommandNotImplemented => "Command not implemented"@,
            Texte::SyntaxErrorInArguments => "Syntax error in parameters or arguments"@,
            Texte::SendEhloFirst => "Send EHLO first"@,
            Texte::NestedMail => "Nested MAIL command"@,
            Texte::ParameterNotRecognised => "Parameter not recognised"@,
            Texte::SenderOk => "Sender ok"@,
            Texte::SenderRejectedBySpf => "Sender address rejected: not authorized by SPF"@,
            Texte::SpfTemporaryError => "Temporary error while checking SPF, try again later"@,
            Texte::TooManyRecipients => "Too many recipients"@,
            Texte::RecipientOk => "Recipient ok"@,
            Texte::MailboxUnavailable => "Mailbox unavailable"@,
            Texte::MailboxBusy => "Mailbox busy, try again later"@,
            Texte::RelayAccessDenied => "Relay access denied"@,
            Texte::NeedMailBeforeRcpt => "Need MAIL before RCPT"@,
            Texte::BdatAlreadyStarted => "BDAT already started; finish with BDAT LAST"@,
            Texte::StartMailInput => "Start mail input; end with <CRLF>.<CRLF>"@,
            Texte::NeedRcptBeforeData => "Need RCPT before DATA"@,
            Texte::NeedMailAndRcptBeforeBdat => "Need MAIL and RCPT before BDAT"@,
            Texte::NeedRcptBeforeBdat => "Need RCPT before BDAT"@,
            Texte::TlsAlreadyActive => "TLS already active"@,
            Texte::ReadyToStartTls => "Ready to start TLS"@,
            Texte::EncryptionRequired => "Encryption required for authentication"@,
            Texte::AlreadyAuthenticated => "Already authenticated"@,
            Texte::UnrecognizedAuthenticationType => "Unrecognized authentication type"@,
            Texte::Nothing => ""@,
            Texte::AuthenticationAborted => "Authentication aborted"@,
            Texte::AuthenticationSuccessful => "Authentication successful"@,
            Texte::AuthenticationCredentialsInvalid => "Authentication credentials invalid"@,
        }
    }

    /// The words of the text.
    pub fn mots(self) -> (r: &'static str)
        ensures
            r@ == self.spec_mots(),
    {
        match self {
            Texte::ServiceNotAvailable => "Service not available, closing transmission channel",
            Texte::TooManyHops => "Too many hops; message is looping",
            Texte::BareLineEnding => "Bare CR or LF in message data",
            Texte::LineTooLong => "Line too long",
            Texte::MessageTooLarge => "Message exceeds maximum size",
            Texte::MessageAccepted => "Message accepted",
            Texte::MessageRejected => "Message rejected",
            Texte::RejectedByDomainPolicy => "Message rejected: sender domain policy (DMARC)",
            Texte::MessageNotAccepted => "Message not accepted, try again later",
            Texte::ChunkOk => "Chunk ok",
            Texte::ResetOk => "Reset ok",
            Texte::Okay => "OK",
            Texte::Bye => "Bye",
            Texte::CannotVerify => "Cannot verify; message will be attempted",
            Texte::ExpnNotAvailable => "EXPN not available",
            Texte::SeeRfc => "See RFC 5321",
            Texte::LineMustEndWithCrlf => "Line must end with CRLF",
            Texte::CommandNotRecognised => "Command not recognised",
            Texte::CommandNotImplemented => "Command not implemented",
            Texte::SyntaxErrorInArguments => "Syntax error in parameters or arguments",
            Texte::SendEhloFirst => "Send EHLO first",
            Texte::NestedMail => "Nested MAIL command",
            Texte::ParameterNotRecognised => "Parameter not recognised",
            Texte::SenderOk => "Sender ok",
            Texte::SenderRejectedBySpf => "Sender address rejected: not authorized by SPF",
            Texte::SpfTemporaryError => "Temporary error while checking SPF, try again later",
            Texte::TooManyRecipients => "Too many recipients",
            Texte::RecipientOk => "Recipient ok",
            Texte::MailboxUnavailable => "Mailbox unavailable",
            Texte::MailboxBusy => "Mailbox busy, try again later",
            Texte::RelayAccessDenied => "Relay access denied",
            Texte::NeedMailBeforeRcpt => "Need MAIL before RCPT",
            Texte::BdatAlreadyStarted => "BDAT already started; finish with BDAT LAST",
            Texte::StartMailInput => "Start mail input; end with <CRLF>.<CRLF>",
            Texte::NeedRcptBeforeData => "Need RCPT before DATA",
            Texte::NeedMailAndRcptBeforeBdat => "Need MAIL and RCPT before BDAT",
            Texte::NeedRcptBeforeBdat => "Need RCPT before BDAT",
            Texte::TlsAlreadyActive => "TLS already active",
            Texte::ReadyToStartTls => "Ready to start TLS",
            Texte::EncryptionRequired => "Encryption required for authentication",
            Texte::AlreadyAuthenticated => "Already authenticated",
            Texte::UnrecognizedAuthenticationType => "Unrecognized authentication type",
            Texte::Nothing => "",
            Texte::AuthenticationAborted => "Authentication aborted",
            Texte::AuthenticationSuccessful => "Authentication successful",
            Texte::AuthenticationCredentialsInvalid => "Authentication credentials invalid",
        }
    }

    /// The bytes of the text.
    pub open spec fn spec_octets(self) -> Seq<u8> {
        vstd::utf8::encode_utf8(self.spec_mots())
    }
}

/// The status that the table names for a text, whatever the code.
///
/// One table, and one only: a same refusal must give the same status
/// everywhere, because an automatic reader sorts on the status, not on the
/// text.
pub open spec fn statut_nomme(texte: Texte) -> Option<Status> {
    match texte {
        Texte::SenderOk => Some(Status::SenderOk),
        Texte::AuthenticationSuccessful => Some(Status::SecurityOk),
        Texte::MailboxUnavailable => Some(Status::MailboxUnavailable),
        Texte::MessageRejected | Texte::EncryptionRequired
        | Texte::AuthenticationCredentialsInvalid => Some(Status::Policy),
        Texte::UnrecognizedAuthenticationType | Texte::AuthenticationAborted => Some(Status::Security),
        Texte::MailboxBusy => Some(Status::MailboxBusy),
        Texte::TooManyRecipients => Some(Status::TooManyRecipients),
        Texte::MessageTooLarge => Some(Status::MessageTooLarge),
        Texte::TooManyHops => Some(Status::TooManyHops),
        Texte::BareLineEnding => Some(Status::BadContent),
        Texte::CommandNotRecognised => Some(Status::UnknownCommand),
        Texte::LineTooLong | Texte::LineMustEndWithCrlf | Texte::SyntaxErrorInArguments => Some(Status::SyntaxError),
        Texte::CommandNotImplemented | Texte::ExpnNotAvailable | Texte::ParameterNotRecognised => Some(Status::BadParameter),
        Texte::AlreadyAuthenticated | Texte::NestedMail | Texte::NeedMailBeforeRcpt | Texte::NeedRcptBeforeData
        | Texte::NeedMailAndRcptBeforeBdat | Texte::NeedRcptBeforeBdat | Texte::BdatAlreadyStarted
        | Texte::SendEhloFirst | Texte::TlsAlreadyActive => Some(Status::BadSequence),
        Texte::MessageNotAccepted => Some(Status::NotAccepting),
        Texte::RejectedByDomainPolicy => Some(Status::Policy),
        Texte::SenderRejectedBySpf => Some(Status::SpfRefused),
        Texte::SpfTemporaryError => Some(Status::DnsTemporary),
        Texte::ServiceNotAvailable => Some(Status::NotAccepting),
        _ => None,
    }
}

/// The texts that go without an enhanced status: the acceptance of a
/// recipient, `250 Recipient ok`, and the refusal to relay, `550 Relay
/// access denied`, are answered bare.
pub open spec fn sans_statut(texte: Texte) -> bool {
    texte == Texte::RecipientOk || texte == Texte::RelayAccessDenied
}

/// The enhanced status of a reply, or `None` for a `3xx` and for the texts
/// answered bare ([`sans_statut`]).
///
/// What the table does not name takes the "other or undefined" subject of
/// its class (RFC 3463 §3.3). The CLASS always comes from the code, never
/// from the text: a `550 4.x.x` would have a refused peer try again.
pub open spec fn statut_spec(code: Code, texte: Texte) -> Option<Status> {
    if sans_statut(texte) {
        None
    } else {
        match statut_nomme(texte) {
            Some(s) if s.spec_accorde(code) => Some(s),
            _ => match code.spec_classe() {
                Class::Positive => Some(Status::Okay),
                Class::TransientFailure => Some(Status::LocalError),
                Class::PermanentFailure => Some(Status::PolicyOther),
                Class::Intermediate => None,
            },
        }
    }
}

/// The enhanced status of a reply, or `None` for a `3xx` (RFC 2034 §4) and
/// for the texts answered bare.
pub fn statut_de(code: Code, texte: Texte) -> (r: Option<Status>)
    ensures
        r == statut_spec(code, texte),
{
    match texte {
        Texte::RecipientOk | Texte::RelayAccessDenied => {
            return None;
        },
        _ => {},
    }
    let precis = match texte {
        Texte::SenderOk => Some(Status::SenderOk),
        Texte::AuthenticationSuccessful => Some(Status::SecurityOk),
        Texte::MailboxUnavailable => Some(Status::MailboxUnavailable),
        Texte::MessageRejected | Texte::EncryptionRequired
        | Texte::AuthenticationCredentialsInvalid => Some(Status::Policy),
        Texte::UnrecognizedAuthenticationType | Texte::AuthenticationAborted => Some(Status::Security),
        Texte::MailboxBusy => Some(Status::MailboxBusy),
        Texte::TooManyRecipients => Some(Status::TooManyRecipients),
        Texte::MessageTooLarge => Some(Status::MessageTooLarge),
        Texte::TooManyHops => Some(Status::TooManyHops),
        Texte::BareLineEnding => Some(Status::BadContent),
        Texte::CommandNotRecognised => Some(Status::UnknownCommand),
        Texte::LineTooLong | Texte::LineMustEndWithCrlf | Texte::SyntaxErrorInArguments => Some(Status::SyntaxError),
        Texte::CommandNotImplemented | Texte::ExpnNotAvailable | Texte::ParameterNotRecognised => Some(Status::BadParameter),
        Texte::AlreadyAuthenticated | Texte::NestedMail | Texte::NeedMailBeforeRcpt | Texte::NeedRcptBeforeData
        | Texte::NeedMailAndRcptBeforeBdat | Texte::NeedRcptBeforeBdat | Texte::BdatAlreadyStarted
        | Texte::SendEhloFirst | Texte::TlsAlreadyActive => Some(Status::BadSequence),
        Texte::MessageNotAccepted => Some(Status::NotAccepting),
        Texte::RejectedByDomainPolicy => Some(Status::Policy),
        Texte::SenderRejectedBySpf => Some(Status::SpfRefused),
        Texte::SpfTemporaryError => Some(Status::DnsTemporary),
        Texte::ServiceNotAvailable => Some(Status::NotAccepting),
        _ => None,
    };
    if let Some(statut) = precis {
        if statut.agrees_with(code) {
            return Some(statut);
        }
    }
    match code.class() {
        Class::Positive => Some(Status::Okay),
        Class::TransientFailure => Some(Status::LocalError),
        Class::PermanentFailure => Some(Status::PolicyOther),
        Class::Intermediate => None,
    }
}

/// `status text`, when it fits in `place` bytes.
pub open spec fn prefixe_spec(place: nat, statut: Status, texte: Seq<u8>) -> Option<Seq<u8>> {
    let ligne = statut.spec_octets() + seq![32u8] + texte;
    if ligne.len() <= place {
        Some(ligne)
    } else {
        None
    }
}

/// Writes `status text`, if it fits in `place` bytes.
///
/// Returns `None` when the room is short: the text then leaves WITHOUT its
/// status rather than truncated, since a cut reply is worse than a reply
/// without an enhanced code.
pub fn prefixer(place: usize, statut: Status, texte: &[u8]) -> (r: Option<Vec<u8>>)
    ensures
        match r {
            Some(v) => prefixe_spec(place as nat, statut, texte@) == Some(v@),
            None => prefixe_spec(place as nat, statut, texte@).is_none(),
        },
{
    let mut ligne = statut.octets();
    if ligne.len() >= place || texte.len() > place - ligne.len() - 1 {
        return None;
    }
    ligne.push(32u8);
    crate::octets::ajouter(&mut ligne, texte);
    Some(ligne)
}

/// What follows the code on a reply line: the enhanced status and the text,
/// or the text alone for a `3xx`.
pub open spec fn ligne_spec(code: Code, texte: Texte) -> Seq<u8> {
    match statut_spec(code, texte) {
        Some(s) => match prefixe_spec(LIGNE_MAX as nat, s, texte.spec_octets()) {
            Some(l) => l,
            None => texte.spec_octets(),
        },
        None => texte.spec_octets(),
    }
}

/// What follows the code on a reply line.
pub fn ligne(code: Code, texte: Texte) -> (r: Vec<u8>)
    ensures
        r@ == ligne_spec(code, texte),
{
    let octets = texte.mots().as_bytes();
    match statut_de(code, texte) {
        Some(statut) => match prefixer(LIGNE_MAX, statut, octets) {
            Some(l) => l,
            None => crate::octets::copier(octets),
        },
        None => crate::octets::copier(octets),
    }
}

} // verus!
