//! The POP3 session (RFC 1939), free of input and output.
//!
//! - **AUTHORIZATION**: the peer names itself. `STLS`, `CAPA`, `USER`,
//!   `PASS`, `QUIT`, `NOOP`, and nothing else.
//! - **TRANSACTION**: the mailbox is open and locked. `STAT`, `LIST`, `UIDL`,
//!   `RETR`, `TOP`, `DELE`, `RSET`, `NOOP`, `CAPA`, `QUIT`.
//! - **UPDATE**: reached by `QUIT` from TRANSACTION only. That is the only
//!   place where deletions are applied.
//!
//! The session reads no file. What it knows of the mailbox comes from a
//! [`Mailbox`] that the caller hands it once the session is open. The caller
//! parses the lines into [`Command`]s and encodes the replies.
//!
//! `USER`/`PASS` outside encryption is refused, and that is not a setting.

pub mod emission;
pub mod lois;

use vstd::prelude::*;

use crate::digits::deux_nombres_spec;
use crate::policy::{Authenticator, Credentials, reponse_possible};
use emission::{BodySender, ecoulement, emission_inerte, emission_neuve};

verus! {

/// The longest user name the session keeps.
pub const USER_MAX_OCTETS: usize = 64;

/// A message number: never zero.
#[derive(Debug, Clone, Copy, PartialEq, Eq, Structural)]
pub struct MessageNumber {
    valeur: u32,
}

impl MessageNumber {
    /// The number.
    pub closed spec fn spec_value(self) -> u32 {
        self.valeur
    }

    /// The message number `valeur`, if it is not zero.
    pub fn new(valeur: u32) -> (r: Option<Self>)
        ensures
            r.is_some() <==> valeur != 0,
            r matches Some(m) ==> m.spec_value() == valeur,
    {
        if valeur == 0 {
            None
        } else {
            Some(MessageNumber { valeur })
        }
    }

    /// The number.
    pub fn value(&self) -> (r: u32)
        ensures
            r == self.spec_value(),
    {
        self.valeur
    }
}

/// The message number `valeur`, which must not be zero.
pub closed spec fn numero(valeur: u32) -> MessageNumber {
    MessageNumber { valeur }
}

/// A parsed POP3 command (RFC 1939, RFC 2449, RFC 2595).
#[derive(Debug, Clone, PartialEq, Eq)]
pub enum Command {
    /// `USER name`.
    User(Vec<u8>),
    /// `PASS secret`.
    Pass(Vec<u8>),
    /// `STLS`.
    Stls,
    /// `CAPA`.
    Capa,
    /// `QUIT`.
    Quit,
    /// `NOOP`.
    Noop,
    /// `STAT`.
    Stat,
    /// `LIST [n]`.
    List(Option<MessageNumber>),
    /// `UIDL [n]`.
    Uidl(Option<MessageNumber>),
    /// `RETR n`.
    Retr(MessageNumber),
    /// `TOP n lines`.
    Top { message: MessageNumber, lines: u32 },
    /// `DELE n`.
    Dele(MessageNumber),
    /// `RSET`.
    Rset,
}

/// Why a line was not a command. The reply does not tell the peer which.
#[derive(Debug, Clone, Copy, PartialEq, Eq, Structural)]
pub enum ParseFault {
    /// The line is longer than the limits allow.
    LineTooLong,
    /// The line does not end with `CRLF`.
    MalformedLineEnding,
    /// The verb is unknown.
    UnknownVerb,
    /// The arguments do not fit the verb.
    BadArguments,
}

/// What a POP3 session refuses its caller.
#[derive(Debug, Clone, Copy, PartialEq, Eq, Structural)]
pub enum Error {
    /// A command was submitted while the session does not expect one.
    NotInCommandPhase,
    /// A command was submitted after `QUIT`.
    SessionClosed,
}

/// The status word of a reply.
#[derive(Debug, Clone, Copy, PartialEq, Eq, Structural)]
pub enum Status {
    /// `+OK`.
    Positive,
    /// `-ERR`.
    Negative,
}

/// The closed vocabulary of what this session says. No reply carries data
/// that came from the peer.
#[derive(Debug, Clone, Copy, PartialEq, Eq, Structural)]
pub enum Message {
    PopServerReady,
    ServiceNotAvailable,
    MailboxOpen,
    MailboxUnavailable,
    Bye,
    DeletionsReset,
    CommandNotValidInThisState,
    EncryptionRequired,
    InvalidUser,
    SendPass,
    SendUserFirst,
    AuthenticationFailed,
    CommandNotSupported,
    AlreadyUsingTls,
    BeginTls,
    CapabilityListFollows,
    ScanListingFollows,
    UniqueIdListingFollows,
    MessageDeleted,
    NoSuchMessage,
    MessageFollows,
    InvalidCommand,
    /// No text at all: `NOOP` answers a bare `+OK`.
    Nothing,
}

impl Message {
    /// The text of the message.
    pub open spec fn spec_texte(self) -> Seq<char> {
        match self {
            Message::PopServerReady => "POP3 server ready"@,
            Message::ServiceNotAvailable => "Service not available"@,
            Message::MailboxOpen => "Mailbox open"@,
            Message::MailboxUnavailable => "Mailbox unavailable"@,
            Message::Bye => "Bye"@,
            Message::DeletionsReset => "Deletions reset"@,
            Message::CommandNotValidInThisState => "Command not valid in this state"@,
            Message::EncryptionRequired => "Encryption required"@,
            Message::InvalidUser => "Invalid user"@,
            Message::SendPass => "Send PASS"@,
            Message::SendUserFirst => "Send USER first"@,
            Message::AuthenticationFailed => "Authentication failed"@,
            Message::CommandNotSupported => "Command not supported"@,
            Message::AlreadyUsingTls => "Already using TLS"@,
            Message::BeginTls => "Begin TLS"@,
            Message::CapabilityListFollows => "Capability list follows"@,
            Message::ScanListingFollows => "Scan listing follows"@,
            Message::UniqueIdListingFollows => "Unique-id listing follows"@,
            Message::MessageDeleted => "Message deleted"@,
            Message::NoSuchMessage => "No such message"@,
            Message::MessageFollows => "Message follows"@,
            Message::InvalidCommand => "Invalid command"@,
            Message::Nothing => ""@,
        }
    }

    /// The text of the message, for the encoder.
    pub fn texte(self) -> (r: &'static str)
        ensures
            r@ == self.spec_texte(),
    {
        match self {
            Message::PopServerReady => "POP3 server ready",
            Message::ServiceNotAvailable => "Service not available",
            Message::MailboxOpen => "Mailbox open",
            Message::MailboxUnavailable => "Mailbox unavailable",
            Message::Bye => "Bye",
            Message::DeletionsReset => "Deletions reset",
            Message::CommandNotValidInThisState => "Command not valid in this state",
            Message::EncryptionRequired => "Encryption required",
            Message::InvalidUser => "Invalid user",
            Message::SendPass => "Send PASS",
            Message::SendUserFirst => "Send USER first",
            Message::AuthenticationFailed => "Authentication failed",
            Message::CommandNotSupported => "Command not supported",
            Message::AlreadyUsingTls => "Already using TLS",
            Message::BeginTls => "Begin TLS",
            Message::CapabilityListFollows => "Capability list follows",
            Message::ScanListingFollows => "Scan listing follows",
            Message::UniqueIdListingFollows => "Unique-id listing follows",
            Message::MessageDeleted => "Message deleted",
            Message::NoSuchMessage => "No such message",
            Message::MessageFollows => "Message follows",
            Message::InvalidCommand => "Invalid command",
            Message::Nothing => "",
        }
    }
}

/// The text of a reply: a message of the vocabulary, or two numbers.
#[derive(Debug, Clone, Copy, PartialEq, Eq, Structural)]
pub enum Texte {
    /// A fixed message.
    Message(Message),
    /// Two numbers in decimal, separated by a space (`STAT`, `LIST n`, `UIDL n`).
    Nombres(u64, u64),
}

/// A one-line reply.
#[derive(Debug, Clone, Copy, PartialEq, Eq, Structural)]
pub struct Reponse {
    /// `+OK` or `-ERR`.
    pub statut: Status,
    /// What follows the status word.
    pub texte: Texte,
}

/// What the caller must do after sending the reply.
#[derive(Debug, Clone, Copy, PartialEq, Eq, Structural)]
pub enum Action {
    /// Nothing in particular: read the next command.
    Continue,
    /// Conduct the TLS handshake, then call [`Session::on_tls_established`].
    StartTls,
    /// Open and lock the mailbox of [`Session::user`], then call
    /// [`Session::on_mailbox_opened`].
    OpenMailbox,
    /// Send the lines of [`Session::next_listing`] until `None`.
    SendListing,
    /// Send a message through [`Session::feed_body`], then
    /// [`Session::finish_body`].
    SendBody {
        /// The message asked for.
        message: MessageNumber,
        /// How many body lines at most; `None` for the whole message.
        lines: Option<u32>,
    },
    /// Close without deleting anything.
    Close,
    /// Apply the deletions, then close: the UPDATE state (RFC 1939 §6).
    CommitAndClose,
}

/// A reply to send, and what to do next.
#[derive(Debug, Clone, Copy, PartialEq, Eq, Structural)]
pub struct Turn {
    /// `None`: nothing is sent, the step that the action starts answers.
    pub reply: Option<Reponse>,
    /// What to do after sending the reply.
    pub action: Action,
    /// Does this reply sanction a fault of the peer?
    pub peer_fault: bool,
}

impl Turn {
    /// The reply to send, if any.
    pub fn reply(&self) -> (r: Option<Reponse>)
        ensures
            r == self.reply,
    {
        self.reply
    }

    /// What to do after sending the reply.
    pub fn action(&self) -> (r: Action)
        ensures
            r == self.action,
    {
        self.action
    }

    /// Does this reply sanction a fault of the peer?
    pub fn peer_fault(&self) -> (r: bool)
        ensures
            r == self.peer_fault,
    {
        self.peer_fault
    }
}

/// A reply of one line, with its action.
pub open spec fn tour(statut: Status, message: Message, action: Action, faute: bool) -> Turn {
    Turn { reply: Some(Reponse { statut, texte: Texte::Message(message) }), action, peer_fault: faute }
}

/// A refusal, which counts as a fault of the peer.
pub open spec fn refus(message: Message) -> Turn {
    tour(Status::Negative, message, Action::Continue, true)
}

/// What the session knows of a mailbox, without reading it.
///
/// It is a snapshot taken when the mailbox is locked (RFC 1939 §3): numbers
/// go from one to [`Mailbox::highest`] and are never renumbered. Every answer
/// is immediate.
pub trait Mailbox {
    /// The highest message number, deleted ones included.
    spec fn spec_highest(&self) -> u32;

    /// The size of a message, or `None` if it does not exist or is marked
    /// deleted.
    spec fn spec_size(&self, message: MessageNumber) -> Option<u64>;

    /// The lasting identifier of a message (RFC 1939 §7), or `None`.
    spec fn spec_uid(&self, message: MessageNumber) -> Option<u32>;

    /// The highest message number, deleted ones included.
    fn highest(&self) -> (r: u32)
        ensures
            r == self.spec_highest(),
    ;

    /// The size of a message, or `None` if it does not exist or is deleted.
    fn size(&self, message: MessageNumber) -> (r: Option<u64>)
        ensures
            r == self.spec_size(message),
    ;

    /// The lasting identifier of a message, or `None`.
    fn uid(&self, message: MessageNumber) -> (r: Option<u32>)
        ensures
            r == self.spec_uid(message),
    ;

    /// Marks a message for deletion. Returns `false` if it does not exist or
    /// is already marked.
    fn mark_deleted(&mut self, message: MessageNumber) -> (r: bool)
        ensures
            r == old(self).spec_size(message).is_some(),
            final(self).spec_size(message).is_none(),
    ;

    /// Forgets every mark (`RSET`, RFC 1939 §6).
    fn reset_deletions(&mut self);
}

/// The state of the session.
#[derive(Debug, Clone, Copy, PartialEq, Eq, Structural)]
pub enum Phase {
    /// The peer names itself.
    Authorization,
    /// `PASS` was accepted; the caller must open the mailbox.
    OpeningMailbox,
    /// The mailbox is open.
    Transaction,
    /// A multi-line reply is being sent.
    Listing,
    /// A message is being sent.
    Body,
    /// `QUIT` has been handled.
    Closed,
}

/// What a multi-line reply has left to say.
#[derive(Debug, Clone, Copy, PartialEq, Eq, Structural)]
pub enum Listing {
    /// The capabilities (RFC 2449), from this rank on.
    Capabilities(usize),
    /// `LIST` without argument, from this number on.
    Scan(u32),
    /// `UIDL` without argument, from this number on.
    Uidl(u32),
    /// Only the terminator is left.
    Terminator,
    /// The terminator is gone; the next call returns `None`.
    Done,
}

/// The size of a message, or its lasting identifier.
pub open spec fn valeur_spec<M: Mailbox>(boite: M, message: MessageNumber, uidl: bool) -> Option<u64> {
    if uidl {
        match boite.spec_uid(message) {
            Some(u) => Some(u as u64),
            None => None,
        }
    } else {
        boite.spec_size(message)
    }
}

/// `a + 1`, saturating at the bound of the type.
pub open spec fn plus_un_u32(a: u32) -> u32 {
    if a == u32::MAX { u32::MAX } else { (a + 1) as u32 }
}

/// `a + b`, saturating at the bound of the type.
pub open spec fn plus_sature_u64(a: u64, b: u64) -> u64 {
    if a + b > u64::MAX { u64::MAX } else { (a + b) as u64 }
}

/// How many messages up to number `jusqu_a`, and how many bytes, deleted
/// ones excluded (RFC 1939 §5).
pub open spec fn compte_spec<M: Mailbox>(boite: M, jusqu_a: u32) -> (u32, u64)
    decreases jusqu_a,
{
    if jusqu_a == 0 {
        (0, 0)
    } else {
        let (combien, octets) = compte_spec(boite, (jusqu_a - 1) as u32);
        match boite.spec_size(numero(jusqu_a)) {
            Some(taille) => (
                if combien == u32::MAX { u32::MAX } else { (combien + 1) as u32 },
                plus_sature_u64(octets, taille),
            ),
            None => (combien, octets),
        }
    }
}

/// The first message from `depuis` on that has a value, and that value.
pub open spec fn prochaine_ligne<M: Mailbox>(boite: M, depuis: u32, uidl: bool) -> Option<(u32, u64)>
    decreases boite.spec_highest() + 1 - depuis,
{
    if depuis == 0 || depuis > boite.spec_highest() {
        None
    } else {
        match valeur_spec(boite, numero(depuis), uidl) {
            Some(v) => Some((depuis, v)),
            None => if depuis == u32::MAX { None } else { prochaine_ligne(boite, (depuis + 1) as u32, uidl) },
        }
    }
}

/// Credentials made of the name given by `USER` and the secret of `PASS`,
/// with no authorization identity: what a `PASS` asks the authenticator.
pub open spec fn identifiants_de_pass(nom: Seq<u8>, secret: Seq<u8>, c: Credentials) -> bool {
    &&& c.authorization_identity@.len() == 0
    &&& c.authentication_identity@ == nom
    &&& c.password@ == secret
}

/// The POP3 session.
pub struct Session<A: Authenticator, M: Mailbox> {
    stls_offered: bool,
    auth: A,
    phase: Phase,
    tls: bool,
    /// The name given by `USER`, waiting for its `PASS`.
    user: Vec<u8>,
    user_given: bool,
    mailbox: Option<M>,
    listing: Listing,
    body: BodySender,
}

impl<A: Authenticator, M: Mailbox> Session<A, M> {
    /// The state of the session.
    pub closed spec fn phase(self) -> Phase {
        self.phase
    }

    /// Is the session encrypted?
    pub closed spec fn chiffree(self) -> bool {
        self.tls
    }

    /// Was `STLS` declared as something the caller can conduct?
    pub closed spec fn stls_offert(self) -> bool {
        self.stls_offered
    }

    /// The name kept from `USER`.
    pub closed spec fn nom(self) -> Seq<u8> {
        self.user@
    }

    /// Has a `USER` been accepted and is it waiting for its `PASS`?
    pub closed spec fn nom_donne(self) -> bool {
        self.user_given
    }

    /// Who checks the credentials of `PASS`.
    pub closed spec fn authentificateur(self) -> A {
        self.auth
    }

    /// The open mailbox, if any.
    pub closed spec fn boite(self) -> Option<M> {
        self.mailbox
    }

    /// What the multi-line reply in progress has left to say.
    pub closed spec fn reste_a_lister(self) -> Listing {
        self.listing
    }

    /// The body sender of the message in progress.
    pub closed spec fn emetteur(self) -> BodySender {
        self.body
    }

    /// Everything but the mailbox and the body sender stays as it was.
    pub open spec fn meme_etat(self, autre: Self) -> bool {
        &&& self.phase() == autre.phase()
        &&& self.chiffree() == autre.chiffree()
        &&& self.stls_offert() == autre.stls_offert()
        &&& self.nom() == autre.nom()
        &&& self.nom_donne() == autre.nom_donne()
        &&& self.reste_a_lister() == autre.reste_a_lister()
    }

    /// The capability at rank `rang`, empty when it is not offered.
    ///
    /// `STLS` disappears once encrypted, and `USER` appears ONLY under
    /// encryption: the capabilities describe what is really available.
    pub open spec fn capacite(self, rang: int) -> Seq<u8> {
        if rang == 0 {
            seq![84u8, 79u8, 80u8]
        } else if rang == 1 {
            seq![85u8, 73u8, 68u8, 76u8]
        } else if rang == 2 {
            if self.chiffree() { seq![85u8, 83u8, 69u8, 82u8] } else { Seq::empty() }
        } else if rang == 3 {
            if self.stls_offert() && !self.chiffree() { seq![83u8, 84u8, 76u8, 83u8] } else { Seq::empty() }
        } else {
            Seq::empty()
        }
    }

    /// Opens a session.
    ///
    /// `stls_offered` tells whether the caller can encrypt: `STLS` is only
    /// announced on that declaration.
    pub fn new(stls_offered: bool, auth: A) -> (s: Self)
        ensures
            s.phase() == Phase::Authorization,
            !s.chiffree(),
            s.stls_offert() == stls_offered,
            !s.nom_donne(),
            s.nom().len() == 0,
            s.boite().is_none(),
            s.reste_a_lister() == Listing::Terminator,
            s.emetteur() == emission_inerte(),
            s.authentificateur() == auth,
    {
        Session {
            stls_offered,
            auth,
            phase: Phase::Authorization,
            tls: false,
            user: Vec::new(),
            user_given: false,
            mailbox: None,
            listing: Listing::Terminator,
            body: BodySender::inerte(),
        }
    }

    /// The greeting, to send before any command. It carries no APOP
    /// timestamp: that would invite a mechanism that is refused.
    pub fn greeting(&self) -> (r: Reponse)
        ensures
            r == (Reponse { statut: Status::Positive, texte: Texte::Message(Message::PopServerReady) }),
    {
        Reponse { statut: Status::Positive, texte: Texte::Message(Message::PopServerReady) }
    }

    /// The reply to send before closing a connection that cannot be served.
    pub fn unavailable(&self) -> (r: Reponse)
        ensures
            r == (Reponse { statut: Status::Negative, texte: Texte::Message(Message::ServiceNotAvailable) }),
    {
        Reponse { statut: Status::Negative, texte: Texte::Message(Message::ServiceNotAvailable) }
    }

    /// The name given by `USER`.
    pub fn user(&self) -> (r: &[u8])
        ensures
            r@ == self.nom(),
    {
        self.user.as_slice()
    }

    /// Is the session encrypted?
    pub fn is_encrypted(&self) -> (r: bool)
        ensures
            r == self.chiffree(),
    {
        self.tls
    }

    /// Is the mailbox open?
    pub fn is_open(&self) -> (r: bool)
        ensures
            r == self.boite().is_some(),
    {
        self.mailbox.is_some()
    }

    /// The open mailbox, for the caller to read a message from it.
    pub fn mailbox(&self) -> (r: Option<&M>)
        ensures
            r == match self.boite() { Some(b) => Some(&b), None => None::<&M> },
    {
        match &self.mailbox {
            Some(b) => Some(b),
            None => None,
        }
    }

    /// Takes the mailbox back, to apply the deletions. It does not come back.
    pub fn take_mailbox(&mut self) -> (r: Option<M>)
        ensures
            final(self).authentificateur() == old(self).authentificateur(),
            r == old(self).boite(),
            final(self).boite().is_none(),
            final(self).meme_etat(*old(self)),
            final(self).emetteur() == old(self).emetteur(),
    {
        self.mailbox.take()
    }

    /// The TLS handshake succeeded.
    ///
    /// Everything the peer said in the clear is forgotten (RFC 2595 §4).
    pub fn on_tls_established(&mut self)
        ensures
            final(self).authentificateur() == old(self).authentificateur(),
            final(self).chiffree(),
            final(self).phase() == Phase::Authorization,
            !final(self).nom_donne(),
            final(self).nom().len() == 0,
            final(self).stls_offert() == old(self).stls_offert(),
            final(self).boite() == old(self).boite(),
            final(self).reste_a_lister() == old(self).reste_a_lister(),
            final(self).emetteur() == old(self).emetteur(),
    {
        self.tls = true;
        self.user_given = false;
        self.user = Vec::new();
        self.phase = Phase::Authorization;
    }

    /// The caller opened, or could not open, the mailbox.
    pub fn on_mailbox_opened(&mut self, mailbox: Option<M>) -> (r: Result<Turn, Error>)
        ensures
            final(self).authentificateur() == old(self).authentificateur(),
            old(self).phase() != Phase::OpeningMailbox ==> r == Err::<Turn, Error>(Error::NotInCommandPhase)
                && *final(self) == *old(self),
            old(self).phase() == Phase::OpeningMailbox && mailbox.is_some() ==> {
                &&& r == Ok::<Turn, Error>(tour(Status::Positive, Message::MailboxOpen, Action::Continue, false))
                &&& final(self).boite() == mailbox
                &&& final(self).phase() == Phase::Transaction
                &&& final(self).nom() == old(self).nom()
                &&& final(self).nom_donne() == old(self).nom_donne()
            },
            old(self).phase() == Phase::OpeningMailbox && mailbox.is_none() ==> {
                &&& r == Ok::<Turn, Error>(tour(Status::Negative, Message::MailboxUnavailable, Action::Continue, false))
                &&& final(self).phase() == Phase::Authorization
                &&& !final(self).nom_donne()
                &&& final(self).nom().len() == 0
                &&& final(self).boite() == old(self).boite()
            },
            final(self).chiffree() == old(self).chiffree(),
            final(self).stls_offert() == old(self).stls_offert(),
            final(self).reste_a_lister() == old(self).reste_a_lister(),
            final(self).emetteur() == old(self).emetteur(),
    {
        if self.phase != Phase::OpeningMailbox {
            return Err(Error::NotInCommandPhase);
        }
        match mailbox {
            Some(boite) => {
                self.mailbox = Some(boite);
                self.phase = Phase::Transaction;
                Ok(Self::repondre(Status::Positive, Message::MailboxOpen, Action::Continue, false))
            },
            None => {
                // The mailbox is locked by another session, or unreadable: the
                // peer goes back to AUTHORIZATION (RFC 1939 §4).
                self.phase = Phase::Authorization;
                self.user_given = false;
                self.user = Vec::new();
                Ok(Self::repondre(Status::Negative, Message::MailboxUnavailable, Action::Continue, false))
            },
        }
    }

    /// Handles a command line, as the caller parsed it.
    ///
    /// A peer that sends anything at all gets a reply, never an error; the
    /// errors are for a caller that calls out of turn.
    pub fn handle(&mut self, commande: Result<Command, ParseFault>) -> (r: Result<Turn, Error>)
        ensures
            final(self).authentificateur() == old(self).authentificateur(),
            old(self).phase() == Phase::Closed ==> r == Err::<Turn, Error>(Error::SessionClosed)
                && *final(self) == *old(self),
            (old(self).phase() == Phase::OpeningMailbox || old(self).phase() == Phase::Listing
                || old(self).phase() == Phase::Body) ==> r == Err::<Turn, Error>(Error::NotInCommandPhase)
                && *final(self) == *old(self),
            (old(self).phase() == Phase::Authorization || old(self).phase() == Phase::Transaction)
                ==> r.is_ok(),
            (old(self).phase() == Phase::Authorization || old(self).phase() == Phase::Transaction)
                && commande.is_err() ==> r == Ok::<Turn, Error>(refus(Message::InvalidCommand))
                && final(self).meme_etat(*old(self)) && final(self).boite() == old(self).boite(),
            (old(self).phase() == Phase::Authorization || old(self).phase() == Phase::Transaction)
                && old(self).boite().is_none() && commande.is_ok()
                ==> Self::hors_boite(*old(self), commande.unwrap(), r.unwrap(), *final(self)),
            (old(self).phase() == Phase::Authorization || old(self).phase() == Phase::Transaction)
                && old(self).boite().is_some() && commande.is_ok()
                ==> Self::de_transaction(*old(self), commande.unwrap(), r.unwrap(), *final(self)),
    {
        match self.phase {
            Phase::Closed => {
                return Err(Error::SessionClosed);
            },
            Phase::OpeningMailbox | Phase::Listing | Phase::Body => {
                return Err(Error::NotInCommandPhase);
            },
            _ => {},
        }
        let commande = match commande {
            Ok(c) => c,
            Err(_) => {
                // The text does not tell the causes apart: a peer has nothing
                // to learn from how its line displeased.
                return Ok(Self::refuser(Message::InvalidCommand));
            },
        };
        // THE MAILBOX LEAVES THE SESSION FOR THE TIME OF THE COMMAND: a
        // TRANSACTION command receives it as an argument, so it cannot be
        // called without one.
        match self.mailbox.take() {
            None => Ok(self.commande_hors_boite(commande)),
            Some(boite) => {
                let mut boite = boite;
                let tour = self.commande_de_transaction(commande, &mut boite);
                self.mailbox = Some(boite);
                Ok(tour)
            },
        }
    }

    /// What a command does without an open mailbox.
    pub open spec fn hors_boite(avant: Self, commande: Command, t: Turn, apres: Self) -> bool {
        &&& apres.boite().is_none()
        &&& apres.authentificateur() == avant.authentificateur()
        &&& apres.chiffree() == avant.chiffree()
        &&& apres.stls_offert() == avant.stls_offert()
        &&& apres.emetteur() == avant.emetteur()
        &&& match commande {
            Command::User(nom) => if !avant.chiffree() {
                t == refus(Message::EncryptionRequired) && apres.meme_etat(avant)
            } else if nom@.len() > USER_MAX_OCTETS {
                t == refus(Message::InvalidUser) && apres.meme_etat(avant)
            } else {
                &&& t == tour(Status::Positive, Message::SendPass, Action::Continue, false)
                &&& apres.nom() == nom@
                &&& apres.nom_donne()
                &&& apres.phase() == avant.phase()
                &&& apres.reste_a_lister() == avant.reste_a_lister()
            },
            Command::Pass(secret) => if !avant.chiffree() {
                t == refus(Message::EncryptionRequired) && apres.meme_etat(avant)
            } else if !avant.nom_donne() {
                t == refus(Message::SendUserFirst) && apres.meme_etat(avant)
            } else {
                // The authenticator decides, on the name of `USER` and this
                // secret: the mailbox is opened if it accepts, and only then.
                exists|c: Credentials, a: bool| {
                    &&& identifiants_de_pass(avant.nom(), secret@, c)
                    &&& #[trigger] reponse_possible(avant.authentificateur(), c, a)
                    &&& a ==> t == (Turn { reply: None, action: Action::OpenMailbox, peer_fault: false })
                        && apres.phase() == Phase::OpeningMailbox && apres.nom() == avant.nom()
                        && apres.nom_donne() && apres.reste_a_lister() == avant.reste_a_lister()
                    &&& !a ==> t == refus(Message::AuthenticationFailed) && !apres.nom_donne()
                        && apres.nom().len() == 0 && apres.phase() == avant.phase()
                        && apres.reste_a_lister() == avant.reste_a_lister()
                }
            },
            Command::Stls => if !avant.stls_offert() {
                t == refus(Message::CommandNotSupported) && apres.meme_etat(avant)
            } else if avant.chiffree() {
                t == refus(Message::AlreadyUsingTls) && apres.meme_etat(avant)
            } else {
                t == tour(Status::Positive, Message::BeginTls, Action::StartTls, false) && apres.meme_etat(avant)
            },
            Command::Noop => t == tour(Status::Positive, Message::Nothing, Action::Continue, false)
                && apres.meme_etat(avant),
            Command::Capa => Self::capa(avant, t, apres),
            // A `QUIT` from here deletes nothing (RFC 1939 §6).
            Command::Quit => t == tour(Status::Positive, Message::Bye, Action::Close, false)
                && apres.phase() == Phase::Closed && apres.nom() == avant.nom()
                && apres.nom_donne() == avant.nom_donne()
                && apres.reste_a_lister() == avant.reste_a_lister(),
            _ => t == refus(Message::CommandNotValidInThisState) && apres.meme_etat(avant),
        }
    }

    /// What `CAPA` does.
    pub open spec fn capa(avant: Self, t: Turn, apres: Self) -> bool {
        &&& t == tour(Status::Positive, Message::CapabilityListFollows, Action::SendListing, false)
        &&& apres.phase() == Phase::Listing
        &&& apres.reste_a_lister() == Listing::Capabilities(0)
        &&& apres.nom() == avant.nom()
        &&& apres.nom_donne() == avant.nom_donne()
    }

    /// What a command does with an open mailbox.
    pub open spec fn de_transaction(avant: Self, commande: Command, t: Turn, apres: Self) -> bool {
        let boite = avant.boite().unwrap();
        &&& apres.authentificateur() == avant.authentificateur()
        &&& apres.boite().is_some()
        &&& apres.chiffree() == avant.chiffree()
        &&& apres.stls_offert() == avant.stls_offert()
        &&& match commande {
            Command::Stat => {
                let (combien, octets) = compte_spec(boite, boite.spec_highest());
                &&& t == (Turn {
                    reply: Some(Reponse { statut: Status::Positive, texte: Texte::Nombres(combien as u64, octets) }),
                    action: Action::Continue,
                    peer_fault: false,
                })
                &&& apres.meme_etat(avant)
                &&& apres.boite() == avant.boite()
                &&& apres.emetteur() == avant.emetteur()
            },
            Command::List(Some(m)) => Self::une_ligne(avant, m, false, t, apres),
            Command::Uidl(Some(m)) => Self::une_ligne(avant, m, true, t, apres),
            Command::List(None) => {
                &&& t == tour(Status::Positive, Message::ScanListingFollows, Action::SendListing, false)
                &&& apres.phase() == Phase::Listing
                &&& apres.reste_a_lister() == Listing::Scan(1)
                &&& apres.boite() == avant.boite()
                &&& apres.emetteur() == avant.emetteur()
            },
            Command::Uidl(None) => {
                &&& t == tour(Status::Positive, Message::UniqueIdListingFollows, Action::SendListing, false)
                &&& apres.phase() == Phase::Listing
                &&& apres.reste_a_lister() == Listing::Uidl(1)
                &&& apres.boite() == avant.boite()
                &&& apres.emetteur() == avant.emetteur()
            },
            Command::Retr(m) => Self::corps(avant, m, None, t, apres),
            Command::Top { message, lines } => Self::corps(avant, message, Some(lines), t, apres),
            Command::Dele(m) => {
                &&& apres.meme_etat(avant)
                &&& apres.emetteur() == avant.emetteur()
                &&& apres.boite().unwrap().spec_size(m).is_none()
                &&& if boite.spec_size(m).is_some() {
                    t == tour(Status::Positive, Message::MessageDeleted, Action::Continue, false)
                } else {
                    t == refus(Message::NoSuchMessage)
                }
            },
            Command::Rset => t == tour(Status::Positive, Message::DeletionsReset, Action::Continue, false)
                && apres.meme_etat(avant) && apres.emetteur() == avant.emetteur(),
            Command::Noop => t == tour(Status::Positive, Message::Nothing, Action::Continue, false)
                && apres.meme_etat(avant) && apres.boite() == avant.boite()
                && apres.emetteur() == avant.emetteur(),
            Command::Capa => Self::capa(avant, t, apres) && apres.boite() == avant.boite()
                && apres.emetteur() == avant.emetteur(),
            Command::Quit => t == tour(Status::Positive, Message::Bye, Action::CommitAndClose, false)
                && apres.phase() == Phase::Closed && apres.boite() == avant.boite()
                && apres.emetteur() == avant.emetteur(),
            // `USER`, `PASS`, `STLS`: the session is already open.
            _ => t == refus(Message::CommandNotValidInThisState) && apres.meme_etat(avant)
                && apres.boite() == avant.boite() && apres.emetteur() == avant.emetteur(),
        }
    }

    /// `LIST n` or `UIDL n`.
    pub open spec fn une_ligne(avant: Self, m: MessageNumber, uidl: bool, t: Turn, apres: Self) -> bool {
        &&& apres.meme_etat(avant)
        &&& apres.boite() == avant.boite()
        &&& apres.emetteur() == avant.emetteur()
        &&& match valeur_spec(avant.boite().unwrap(), m, uidl) {
            Some(v) => t == (Turn {
                reply: Some(Reponse { statut: Status::Positive, texte: Texte::Nombres(m.spec_value() as u64, v) }),
                action: Action::Continue,
                peer_fault: false,
            }),
            None => t == refus(Message::NoSuchMessage),
        }
    }

    /// `RETR n` or `TOP n lines`.
    pub open spec fn corps(avant: Self, m: MessageNumber, lignes: Option<u32>, t: Turn, apres: Self) -> bool {
        &&& apres.boite() == avant.boite()
        &&& if avant.boite().unwrap().spec_size(m).is_none() {
            t == refus(Message::NoSuchMessage) && apres.meme_etat(avant) && apres.emetteur() == avant.emetteur()
        } else {
            &&& t == tour(Status::Positive, Message::MessageFollows, Action::SendBody { message: m, lines: lignes }, false)
            &&& apres.phase() == Phase::Body
            &&& apres.emetteur() == emission_neuve(lignes)
            &&& apres.nom() == avant.nom()
            &&& apres.nom_donne() == avant.nom_donne()
            &&& apres.reste_a_lister() == avant.reste_a_lister()
        }
    }

    /// The commands that can be received without an open mailbox.
    fn commande_hors_boite(&mut self, commande: Command) -> (t: Turn)
        requires
            old(self).boite().is_none(),
        ensures
            Self::hors_boite(*old(self), commande, t, *final(self)),
    {
        match commande {
            Command::User(nom) => self.on_user(nom),
            Command::Pass(secret) => self.on_pass(secret),
            Command::Stls => self.on_stls(),
            Command::Noop => Self::repondre(Status::Positive, Message::Nothing, Action::Continue, false),
            Command::Capa => self.on_capa(),
            Command::Quit => {
                self.phase = Phase::Closed;
                Self::repondre(Status::Positive, Message::Bye, Action::Close, false)
            },
            _ => Self::refuser(Message::CommandNotValidInThisState),
        }
    }

    /// The commands that need a mailbox.
    fn commande_de_transaction(&mut self, commande: Command, boite: &mut M) -> (t: Turn)
        requires
            old(self).boite().is_none(),
        ensures
            ({
                let avant = Session { mailbox: Some(*old(boite)), ..*old(self) };
                let apres = Session { mailbox: Some(*final(boite)), ..*final(self) };
                Self::de_transaction(avant, commande, t, apres)
            }),
            final(self).boite().is_none(),
    {
        match commande {
            Command::Stat => {
                let (combien, octets) = compter(boite);
                Turn {
                    reply: Some(Reponse { statut: Status::Positive, texte: Texte::Nombres(combien as u64, octets) }),
                    action: Action::Continue,
                    peer_fault: false,
                }
            },
            Command::List(Some(m)) => Self::ligne_unique(m, false, boite),
            Command::Uidl(Some(m)) => Self::ligne_unique(m, true, boite),
            Command::List(None) => {
                self.phase = Phase::Listing;
                self.listing = Listing::Scan(1);
                Self::repondre(Status::Positive, Message::ScanListingFollows, Action::SendListing, false)
            },
            Command::Uidl(None) => {
                self.phase = Phase::Listing;
                self.listing = Listing::Uidl(1);
                Self::repondre(Status::Positive, Message::UniqueIdListingFollows, Action::SendListing, false)
            },
            Command::Retr(m) => self.on_body(m, None, boite),
            Command::Top { message, lines } => self.on_body(message, Some(lines), boite),
            Command::Dele(m) => {
                if boite.mark_deleted(m) {
                    Self::repondre(Status::Positive, Message::MessageDeleted, Action::Continue, false)
                } else {
                    Self::refuser(Message::NoSuchMessage)
                }
            },
            Command::Rset => {
                boite.reset_deletions();
                Self::repondre(Status::Positive, Message::DeletionsReset, Action::Continue, false)
            },
            Command::Noop => Self::repondre(Status::Positive, Message::Nothing, Action::Continue, false),
            Command::Capa => self.on_capa(),
            Command::Quit => {
                self.phase = Phase::Closed;
                Self::repondre(Status::Positive, Message::Bye, Action::CommitAndClose, false)
            },
            _ => Self::refuser(Message::CommandNotValidInThisState),
        }
    }

    /// The next line of a multi-line reply, or `None` when all is said.
    ///
    /// The terminator comes from here: it is protocol, and the caller writes
    /// none.
    pub fn next_listing(&mut self) -> (r: Result<Option<Vec<u8>>, Error>)
        ensures
            final(self).authentificateur() == old(self).authentificateur(),
            old(self).phase() != Phase::Listing ==> r == Err::<Option<Vec<u8>>, Error>(Error::NotInCommandPhase)
                && *final(self) == *old(self),
            old(self).phase() == Phase::Listing ==> r.is_ok() && Self::listage(*old(self), r.unwrap(), *final(self)),
            final(self).boite() == old(self).boite(),
            final(self).emetteur() == old(self).emetteur(),
            final(self).chiffree() == old(self).chiffree(),
            final(self).stls_offert() == old(self).stls_offert(),
            final(self).nom() == old(self).nom(),
            final(self).nom_donne() == old(self).nom_donne(),
        decreases 2int - (if old(self).reste_a_lister() == Listing::Done { 2int } else if old(self).reste_a_lister() == Listing::Terminator { 1int } else { 0int }),
    {
        if self.phase != Phase::Listing {
            return Err(Error::NotInCommandPhase);
        }
        match self.listing {
            Listing::Done => {
                self.phase = Phase::Transaction;
                Ok(None)
            },
            Listing::Terminator => {
                self.listing = Listing::Done;
                let mut ligne = Vec::new();
                ligne.push(46u8);
                ligne.push(13u8);
                ligne.push(10u8);
                assert(ligne@ =~= seq![46u8, 13u8, 10u8]);
                Ok(Some(ligne))
            },
            Listing::Capabilities(rang) => {
                // THE ABSENT ONES ARE SKIPPED: an empty line in the middle of
                // the list is read by some clients as its end.
                let mut i = rang;
                while i < 4
                    invariant
                        rang <= i,
                        forall|j: int| rang <= j < i ==> self.capacite(j).len() == 0,
                        *self == *old(self),
                        self.phase == Phase::Listing,
                        self.listing == Listing::Capabilities(rang),
                    decreases 4 - i,
                {
                    let ligne = self.capacite_exec(i);
                    if ligne.len() > 0 {
                        self.listing = Listing::Capabilities(i + 1);
                        let mut brute = ligne;
                        brute.push(13u8);
                        brute.push(10u8);
                        assert(brute@ =~= old(self).capacite(i as int) + seq![13u8, 10u8]);
                        assert(old(self).capacite(i as int).len() > 0);
                        return Ok(Some(brute));
                    }
                    i = i + 1;
                }
                self.listing = Listing::Terminator;
                self.next_listing()
            },
            Listing::Scan(numero) => Ok(self.ligne_de_liste(numero, false)),
            Listing::Uidl(numero) => Ok(self.ligne_de_liste(numero, true)),
        }
    }

    /// What one call of [`Session::next_listing`] gives during a listing.
    pub open spec fn listage(avant: Self, r: Option<Vec<u8>>, apres: Self) -> bool {
        match avant.reste_a_lister() {
            Listing::Done => r.is_none() && apres.phase() == Phase::Transaction
                && apres.reste_a_lister() == Listing::Done,
            Listing::Terminator => Self::terminateur(r, apres),
            Listing::Capabilities(rang) => {
                ||| exists|j: int| #![trigger avant.capacite(j)]
                    rang <= j < 4 && avant.capacite(j).len() > 0
                    && (forall|k: int| rang <= k < j ==> avant.capacite(k).len() == 0)
                    && r.is_some() && r.unwrap()@ == avant.capacite(j) + seq![13u8, 10u8]
                    && apres.phase() == Phase::Listing && apres.reste_a_lister() == Listing::Capabilities((j + 1) as usize)
                ||| (forall|k: int| rang <= k < 4 ==> avant.capacite(k).len() == 0) && Self::terminateur(r, apres)
            },
            Listing::Scan(depuis) => Self::ligne_listee(avant, depuis, false, r, apres),
            Listing::Uidl(depuis) => Self::ligne_listee(avant, depuis, true, r, apres),
        }
    }

    /// The terminator is given, and the next call ends the listing.
    pub open spec fn terminateur(r: Option<Vec<u8>>, apres: Self) -> bool {
        r.is_some() && r.unwrap()@ == seq![46u8, 13u8, 10u8] && apres.phase() == Phase::Listing
            && apres.reste_a_lister() == Listing::Done
    }

    /// A line of `LIST` or `UIDL` without argument, deleted ones skipped.
    pub open spec fn ligne_listee(avant: Self, depuis: u32, uidl: bool, r: Option<Vec<u8>>, apres: Self) -> bool {
        match avant.boite() {
            Some(b) => match prochaine_ligne(b, depuis, uidl) {
                Some((n, v)) => r.is_some() && r.unwrap()@ == deux_nombres_spec(n as nat, v as nat) + seq![13u8, 10u8]
                    && apres.phase() == Phase::Listing
                    && apres.reste_a_lister() == (if uidl { Listing::Uidl(plus_un_u32(n)) } else { Listing::Scan(plus_un_u32(n)) }),
                None => Self::terminateur(r, apres),
            },
            None => Self::terminateur(r, apres),
        }
    }

    /// The capability at rank `rang`.
    fn capacite_exec(&self, rang: usize) -> (r: Vec<u8>)
        ensures
            r@ == self.capacite(rang as int),
    {
        let mut v = Vec::new();
        if rang == 0 {
            v.push(84u8); v.push(79u8); v.push(80u8);
        } else if rang == 1 {
            v.push(85u8); v.push(73u8); v.push(68u8); v.push(76u8);
        } else if rang == 2 {
            if self.tls {
                v.push(85u8); v.push(83u8); v.push(69u8); v.push(82u8);
            }
        } else if rang == 3 {
            if self.stls_offered && !self.tls {
                v.push(83u8); v.push(84u8); v.push(76u8); v.push(83u8);
            }
        }
        proof {
            if rang == 0 { assert(v@ =~= seq![84u8, 79u8, 80u8]); }
            if rang == 1 { assert(v@ =~= seq![85u8, 73u8, 68u8, 76u8]); }
            if rang == 2 && self.tls { assert(v@ =~= seq![85u8, 83u8, 69u8, 82u8]); }
            if rang == 3 && self.stls_offered && !self.tls { assert(v@ =~= seq![83u8, 84u8, 76u8, 83u8]); }
        }
        v
    }

    /// A line of `LIST` or `UIDL` without argument, skipping deleted ones.
    /// A missing mailbox gives an empty list.
    fn ligne_de_liste(&mut self, depuis: u32, uidl: bool) -> (r: Option<Vec<u8>>)
        requires
            old(self).phase() == Phase::Listing,
        ensures
            final(self).authentificateur() == old(self).authentificateur(),
            Self::ligne_listee(*old(self), depuis, uidl, r, *final(self)),
            final(self).boite() == old(self).boite(),
            final(self).emetteur() == old(self).emetteur(),
            final(self).chiffree() == old(self).chiffree(),
            final(self).stls_offert() == old(self).stls_offert(),
            final(self).nom() == old(self).nom(),
            final(self).nom_donne() == old(self).nom_donne(),
    {
        let trouve = match &self.mailbox {
            Some(boite) => prochaine_exec(boite, depuis, uidl),
            None => None,
        };
        match trouve {
            Some((rang, valeur)) => {
                self.listing = if uidl { Listing::Uidl(rang.saturating_add(1)) } else { Listing::Scan(rang.saturating_add(1)) };
                let mut ligne = crate::digits::deux_nombres(rang as u64, valeur);
                let ghost nombres = ligne@;
                ligne.push(13u8);
                ligne.push(10u8);
                assert(ligne@ =~= nombres + seq![13u8, 10u8]);
                Some(ligne)
            },
            None => {
                self.listing = Listing::Done;
                let mut ligne = Vec::new();
                ligne.push(46u8);
                ligne.push(13u8);
                ligne.push(10u8);
                assert(ligne@ =~= seq![46u8, 13u8, 10u8]);
                Some(ligne)
            },
        }
    }

    /// Gives the bytes of a message with their leading dots doubled, and
    /// tells how many were read; at most `place` bytes are emitted.
    ///
    /// Call again while fewer bytes were read than the chunk holds.
    pub fn feed_body(&mut self, chunk: &[u8], place: usize) -> (r: Result<(usize, Vec<u8>), Error>)
        ensures
            final(self).authentificateur() == old(self).authentificateur(),
            old(self).phase() != Phase::Body ==> r == Err::<(usize, Vec<u8>), Error>(Error::NotInCommandPhase)
                && *final(self) == *old(self),
            old(self).phase() == Phase::Body ==> r.is_ok() && ({
                let (n, s, sortie) = ecoulement(old(self).emetteur(), chunk@, place as nat);
                &&& r.unwrap().0 == n
                &&& r.unwrap().1@ == sortie
                &&& final(self).emetteur() == s
            }) && final(self).meme_etat(*old(self)) && final(self).boite() == old(self).boite(),
    {
        if self.phase != Phase::Body {
            return Err(Error::NotInCommandPhase);
        }
        Ok(self.body.transformer(chunk, place))
    }

    /// The message is over: returns the end of line if one is missing, and
    /// the terminator.
    pub fn finish_body(&mut self) -> (r: Result<Vec<u8>, Error>)
        ensures
            final(self).authentificateur() == old(self).authentificateur(),
            old(self).phase() != Phase::Body ==> r == Err::<Vec<u8>, Error>(Error::NotInCommandPhase)
                && *final(self) == *old(self),
            old(self).phase() == Phase::Body ==> r.is_ok() && final(self).phase() == Phase::Transaction
                && (old(self).emetteur().debut_de_ligne ==> r.unwrap()@ == seq![46u8, 13u8, 10u8])
                && (!old(self).emetteur().debut_de_ligne ==> r.unwrap()@ == seq![13u8, 10u8, 46u8, 13u8, 10u8])
                && final(self).boite() == old(self).boite()
                && final(self).emetteur() == old(self).emetteur()
                && final(self).nom() == old(self).nom()
                && final(self).reste_a_lister() == old(self).reste_a_lister(),
    {
        if self.phase != Phase::Body {
            return Err(Error::NotInCommandPhase);
        }
        self.phase = Phase::Transaction;
        // A message that does not end with a `CRLF` receives one: without it,
        // the terminator would stick to the last line.
        let mut fin = Vec::new();
        if !self.body.debut_de_ligne {
            fin.push(13u8);
            fin.push(10u8);
        }
        fin.push(46u8);
        fin.push(13u8);
        fin.push(10u8);
        Ok(fin)
    }

    /// Is the message asked for entirely sent? True when `TOP` has given
    /// every line asked for: the caller may stop reading the file.
    pub fn body_complete(&self) -> (r: bool)
        ensures
            r == self.emetteur().fini,
    {
        self.body.fini
    }

    fn on_user(&mut self, nom: Vec<u8>) -> (t: Turn)
        requires
            old(self).boite().is_none(),
        ensures
            Self::hors_boite(*old(self), Command::User(nom), t, *final(self)),
    {
        if !self.tls {
            // A password sent in the clear is read by whoever watches the
            // packets, and accepting it once compromises it for ever.
            return Self::refuser(Message::EncryptionRequired);
        }
        if nom.len() > USER_MAX_OCTETS {
            // Longer than any possible account: keeping it would open nothing.
            return Self::refuser(Message::InvalidUser);
        }
        self.user = nom;
        self.user_given = true;
        Self::repondre(Status::Positive, Message::SendPass, Action::Continue, false)
    }

    fn on_pass(&mut self, secret: Vec<u8>) -> (t: Turn)
        requires
            old(self).boite().is_none(),
        ensures
            Self::hors_boite(*old(self), Command::Pass(secret), t, *final(self)),
    {
        if !self.tls {
            return Self::refuser(Message::EncryptionRequired);
        }
        if !self.user_given {
            return Self::refuser(Message::SendUserFirst);
        }
        let ghost secret_vu = secret@;
        let identifiants = Credentials {
            authorization_identity: Vec::new(),
            authentication_identity: crate::octets::copier(self.user.as_slice()),
            password: secret,
        };
        let accorde = self.auth.authenticate(&identifiants);
        assert(identifiants_de_pass(old(self).nom(), secret_vu, identifiants));
        assert(reponse_possible(old(self).authentificateur(), identifiants, accorde));
        self.apres_authentification(accorde)
    }

    /// What the verdict of the policy on a `PASS` gives.
    ///
    /// NOTHING IS ANSWERED on success: the fate of the `PASS` is not known
    /// yet, and [`Session::on_mailbox_opened`] writes the one reply. A refusal
    /// does not say what failed, and the name is forgotten.
    pub fn apres_authentification(&mut self, accorde: bool) -> (t: Turn)
        ensures
            accorde ==> t == (Turn { reply: None, action: Action::OpenMailbox, peer_fault: false })
                && final(self).phase() == Phase::OpeningMailbox
                && final(self).nom() == old(self).nom()
                && final(self).nom_donne() == old(self).nom_donne(),
            !accorde ==> t == refus(Message::AuthenticationFailed)
                && !final(self).nom_donne() && final(self).nom().len() == 0
                && final(self).phase() == old(self).phase(),
            final(self).boite() == old(self).boite(),
            final(self).chiffree() == old(self).chiffree(),
            final(self).stls_offert() == old(self).stls_offert(),
            final(self).reste_a_lister() == old(self).reste_a_lister(),
            final(self).emetteur() == old(self).emetteur(),
            final(self).authentificateur() == old(self).authentificateur(),
    {
        if accorde {
            self.phase = Phase::OpeningMailbox;
            return Turn { reply: None, action: Action::OpenMailbox, peer_fault: false };
        }
        self.user_given = false;
        self.user = Vec::new();
        Self::refuser(Message::AuthenticationFailed)
    }

    fn on_stls(&mut self) -> (t: Turn)
        requires
            old(self).boite().is_none(),
        ensures
            Self::hors_boite(*old(self), Command::Stls, t, *final(self)),
    {
        if !self.stls_offered {
            return Self::refuser(Message::CommandNotSupported);
        }
        if self.tls {
            return Self::refuser(Message::AlreadyUsingTls);
        }
        Self::repondre(Status::Positive, Message::BeginTls, Action::StartTls, false)
    }

    fn on_capa(&mut self) -> (t: Turn)
        ensures
            Self::capa(*old(self), t, *final(self)),
            final(self).authentificateur() == old(self).authentificateur(),
            final(self).boite() == old(self).boite(),
            final(self).emetteur() == old(self).emetteur(),
            final(self).chiffree() == old(self).chiffree(),
            final(self).stls_offert() == old(self).stls_offert(),
    {
        self.phase = Phase::Listing;
        self.listing = Listing::Capabilities(0);
        Self::repondre(Status::Positive, Message::CapabilityListFollows, Action::SendListing, false)
    }

    /// `LIST n` or `UIDL n`.
    fn ligne_unique(message: MessageNumber, uidl: bool, boite: &M) -> (t: Turn)
        ensures
            match valeur_spec(*boite, message, uidl) {
                Some(v) => t == (Turn {
                    reply: Some(Reponse { statut: Status::Positive, texte: Texte::Nombres(message.spec_value() as u64, v) }),
                    action: Action::Continue,
                    peer_fault: false,
                }),
                None => t == refus(Message::NoSuchMessage),
            },
    {
        match valeur(boite, message, uidl) {
            Some(v) => Turn {
                reply: Some(Reponse { statut: Status::Positive, texte: Texte::Nombres(message.value() as u64, v) }),
                action: Action::Continue,
                peer_fault: false,
            },
            None => Self::refuser(Message::NoSuchMessage),
        }
    }

    fn on_body(&mut self, message: MessageNumber, lines: Option<u32>, boite: &M) -> (t: Turn)
        ensures
            final(self).authentificateur() == old(self).authentificateur(),
            ({
                let avant = Session { mailbox: Some(*boite), ..*old(self) };
                let apres = Session { mailbox: Some(*boite), ..*final(self) };
                Self::corps(avant, message, lines, t, apres)
            }),
            final(self).boite() == old(self).boite(),
            final(self).chiffree() == old(self).chiffree(),
            final(self).stls_offert() == old(self).stls_offert(),
    {
        if boite.size(message).is_none() {
            return Self::refuser(Message::NoSuchMessage);
        }
        self.phase = Phase::Body;
        self.body = BodySender::nouveau(lines);
        Self::repondre(Status::Positive, Message::MessageFollows, Action::SendBody { message, lines }, false)
    }

    /// A reply of one line, with its action.
    fn repondre(statut: Status, message: Message, action: Action, faute: bool) -> (t: Turn)
        ensures
            t == tour(statut, message, action, faute),
    {
        Turn { reply: Some(Reponse { statut, texte: Texte::Message(message) }), action, peer_fault: faute }
    }

    /// A refusal, which counts as a fault of the peer. RFC 1939 has only one
    /// `-ERR` to say "not in this state": the text does not tell "not yet"
    /// from "no longer".
    fn refuser(message: Message) -> (t: Turn)
        ensures
            t == refus(message),
    {
        Self::repondre(Status::Negative, message, Action::Continue, true)
    }
}

/// How many messages, and how many bytes, deleted ones excluded.
fn compter<M: Mailbox>(boite: &M) -> (r: (u32, u64))
    ensures
        r == compte_spec(*boite, boite.spec_highest()),
{
    let plus_grand = boite.highest();
    let mut combien: u32 = 0;
    let mut octets: u64 = 0;
    let mut n: u32 = 0;
    while n < plus_grand
        invariant
            n <= plus_grand,
            plus_grand == boite.spec_highest(),
            (combien, octets) == compte_spec(*boite, n),
        decreases plus_grand - n,
    {
        n = n + 1;
        let numero_n = MessageNumber { valeur: n };
        match boite.size(numero_n) {
            Some(taille) => {
                combien = combien.saturating_add(1);
                octets = octets.saturating_add(taille);
            },
            None => {},
        }
    }
    (combien, octets)
}

/// The size of a message, or its lasting identifier.
fn valeur<M: Mailbox>(boite: &M, message: MessageNumber, uidl: bool) -> (r: Option<u64>)
    ensures
        r == valeur_spec(*boite, message, uidl),
{
    if uidl {
        match boite.uid(message) {
            Some(u) => Some(u as u64),
            None => None,
        }
    } else {
        boite.size(message)
    }
}

/// The first message from `depuis` on that has a value.
fn prochaine_exec<M: Mailbox>(boite: &M, depuis: u32, uidl: bool) -> (r: Option<(u32, u64)>)
    ensures
        r == prochaine_ligne(*boite, depuis, uidl),
{
    if depuis == 0 {
        return None;
    }
    let plus_grand = boite.highest();
    let mut rang = depuis;
    while rang <= plus_grand
        invariant
            rang >= 1,
            depuis <= rang,
            plus_grand == boite.spec_highest(),
            prochaine_ligne(*boite, depuis, uidl) == prochaine_ligne(*boite, rang, uidl),
        decreases plus_grand - rang + 1,
    {
        let numero_n = MessageNumber { valeur: rang };
        let v = valeur(boite, numero_n, uidl);
        if v.is_some() {
            return Some((rang, v.unwrap()));
        }
        if rang == u32::MAX {
            return None;
        }
        rang = rang + 1;
    }
    None
}

} // verus!
