//! What an SMTP session is, as values, and what each step makes of it.
//!
//! [`Etat`] is what the session holds; the spec functions below say, for each
//! step, what is answered and what is held afterwards. The session's methods
//! are proved to do exactly that.

use vstd::prelude::*;

use crate::digits::{ecriture_decimale, lecture_decimale};
use crate::octets::egaux_sans_casse_spec;
use crate::policy::{Credentials, RecipientVerdict};
use crate::recipients::{
    Notify, VueDestinataires, avec_adresse, avec_rapport, destinataires_vides, tient,
};
use crate::sauts::{Sauts, apres, sauts_neufs};
use crate::tampon::tenu;
use super::commande::{ClientId, Command, DataFault, Parameter, ParseFault, Path};
use super::config::{Config, DOMAIN_MAX, SenderPolicy};
use super::reponse::{Code, Texte};
use super::Error;

verus! {

/// How many `Received:` fields a message may carry (RFC 5321 §6.3).
///
/// §6.3 wants "a large number" without fixing one; thirty is that of Postfix
/// and Sendmail. What matters is that there is one, so that a looping message
/// ends somewhere else than in a full disk.
pub const HOPS_MAX: u32 = 30;

/// What an envelope sender can take: a local part (64 at most, RFC 5321
/// §4.5.3.1.1), an `@`, a domain.
pub const SENDER_MAX: usize = 320;

/// What an account name can take: the bound of a local part.
pub const LOGIN_MAX: usize = 64;

/// What the check of the sender gave (RFC 7208 §2.6).
#[derive(Debug, Clone, Copy, PartialEq, Eq, Structural)]
pub enum SenderVerdict {
    /// `pass`.
    Pass,
    /// `fail`: the domain says this address may not send for it.
    Fail,
    /// `softfail`.
    SoftFail,
    /// `neutral`.
    Neutral,
    /// `none`: the domain publishes no policy.
    NoRecord,
    /// `temperror`: the resolution did not succeed.
    TempError,
    /// `permerror`: the policy of the domain cannot be read.
    PermError,
}

/// Which identity was checked (RFC 7208 §2.4).
#[derive(Debug, Clone, Copy, PartialEq, Eq, Structural)]
pub enum Identity {
    /// The address of `MAIL FROM:`.
    MailFrom,
    /// The name given at `HELO`, for a null sender.
    Helo,
}

/// The word of `with` in a `Received:` field (RFC 3848).
#[derive(Debug, Clone, Copy, PartialEq, Eq, Structural)]
pub enum Transport {
    /// `HELO`.
    Smtp,
    /// `EHLO`.
    Esmtp,
    /// `EHLO`, encrypted.
    Esmtps,
    /// `EHLO`, encrypted and authenticated.
    EsmtpsA,
}

/// What the caller did with the message received.
#[derive(Debug, Clone, Copy, PartialEq, Eq, Structural)]
pub enum DataOutcome {
    /// Taken in charge: the peer no longer has to care.
    Accepted,
    /// Refused for good.
    RejectedPermanent,
    /// Refused because the author domain asks so (DMARC, RFC 7489 §10.3).
    RejectedByPolicy,
    /// Refused for now: the peer must try again.
    RejectedTemporary,
}

/// What the caller must do after sending the reply.
#[derive(Debug, Clone, Copy, PartialEq, Eq, Structural)]
pub enum Action {
    /// Nothing in particular: read the next command.
    Continue,
    /// Conduct the TLS handshake, then call `on_tls_established`.
    StartTls,
    /// Read ONE more line and hand it to `feed_auth`: the peer answers the
    /// SASL challenge.
    ReadAuthResponse,
    /// Check the sender read on `sender_identity`, then call
    /// `sender_checked`. The turn that asks it answers nothing.
    CheckSender,
    /// Read the message up to `<CRLF>.<CRLF>`, through `feed_data`, with a
    /// fresh receiver.
    ReceiveData,
    /// Announce the chunk to the chunk receiver, fresh when `fresh`, then
    /// hand its answer to `on_chunk_begun`.
    BeginChunk {
        /// The size announced.
        size: u64,
        /// Is it the last chunk?
        last: bool,
        /// Is it the first chunk of the message?
        fresh: bool,
    },
    /// Read EXACTLY `size` bytes through `feed_chunk`, then hand back by
    /// `on_chunk_received`, or by `on_data_settled` when `last`.
    ReceiveChunk {
        /// The number of bytes to read.
        size: u64,
        /// Does this chunk end the message?
        last: bool,
    },
    /// Close the connection.
    Close,
}

/// A reply. None carries a byte that came from the peer.
#[derive(Debug, Clone, Copy, PartialEq, Eq, Structural)]
pub enum Reponse {
    /// One line of the closed vocabulary, with its enhanced status.
    Ligne {
        /// The reply code.
        code: Code,
        /// The text.
        texte: Texte,
    },
    /// `220 <domain> ESMTP`.
    Banniere,
    /// `250 <domain>`: `HELO` announces nothing.
    Helo,
    /// The lines of `EHLO`: the domain, then the extensions served.
    Ehlo {
        /// `STARTTLS` is announced.
        starttls: bool,
        /// `AUTH PLAIN` is announced.
        auth: bool,
        /// `DSN` is announced.
        dsn: bool,
    },
}

/// A reply to send, and what to do next.
#[derive(Debug, Clone, Copy, PartialEq, Eq, Structural)]
pub struct Turn {
    /// `None`: nothing is sent now.
    pub reply: Option<Reponse>,
    /// What to do after sending the reply.
    pub action: Action,
    /// Does this reply sanction a fault of the peer?
    pub peer_fault: bool,
    /// Did this reply refuse a recipient, for good?
    pub refused_recipient: bool,
}

impl Turn {
    /// The reply to send, if any.
    pub fn reply(&self) -> (r: Option<Reponse>)
        ensures
            r == self.reply,
    {
        self.reply
    }

    /// What to do after sending the reply.
    pub fn action(&self) -> (r: Action)
        ensures
            r == self.action,
    {
        self.action
    }

    /// Does this reply sanction a fault of the peer: unreadable syntax, an
    /// unknown or withdrawn verb, a bad sequence, data refused by the
    /// grammar? A legitimate refusal is none.
    pub fn peer_fault(&self) -> (r: bool)
        ensures
            r == self.peer_fault,
    {
        self.peer_fault
    }

    /// Did this reply refuse a recipient for good? A burst of them is the mark
    /// of address harvesting; a `450` says that WE cannot, and does not count.
    pub fn refused_recipient(&self) -> (r: bool)
        ensures
            r == self.refused_recipient,
    {
        self.refused_recipient
    }
}

/// Where the session is.
#[derive(Debug, Clone, Copy, PartialEq, Eq, Structural)]
pub enum Phase {
    /// The banner is out; `EHLO` or `HELO` is expected.
    Greeted,
    /// The peer named itself; no transaction is open.
    Identified,
    /// `MAIL FROM` accepted, with `recipients` accepted since; `chunked` when
    /// a `BDAT` was served in this transaction.
    Transaction { recipients: usize, chunked: bool },
    /// `AUTH` without initial response: the challenge is out.
    Auth,
    /// `DATA` accepted: the caller reads the message.
    Data,
    /// The message carries more traces than §6.3 tolerates.
    Looped,
    /// `BDAT` accepted; the chunk receiver must be told of the chunk.
    ChunkPending { recipients: usize, size: u64, last: bool },
    /// A chunk is being read.
    Chunk { recipients: usize, last: bool },
    /// A chunk was refused by the grammar: the caller still consumes it.
    ChunkFailed { recipients: usize, last: bool, cause: DataFault },
    /// The data were refused by the grammar.
    DataFailed(DataFault),
    /// `QUIT` was handled.
    Closed,
}

/// What a session holds, as values.
pub struct Etat {
    /// Where it is.
    pub phase: Phase,
    /// Is the connection encrypted?
    pub tls: bool,
    /// Has the peer authenticated?
    pub authenticated: bool,
    /// The envelope identifier of the transaction (RFC 3461 §4.4), decoded;
    /// empty when none was given.
    pub envid: Seq<u8>,
    /// The `Received:` fields of the message in progress.
    pub sauts: Sauts,
    /// The content bytes received for the message in progress.
    pub octets: u64,
    /// Did the peer name itself with `EHLO` rather than `HELO`?
    pub esmtp: bool,
    /// The accepted recipients.
    pub recipients: VueDestinataires,
    /// The name given at `HELO`; empty for an address literal.
    pub helo: Seq<u8>,
    /// The identity that SPF checks, `local@domain`.
    pub expediteur: Seq<u8>,
    /// Where a non-delivery report would return; empty for `<>` and for an
    /// address literal.
    pub chemin_de_retour: Seq<u8>,
    /// The account that authenticated.
    pub compte: Seq<u8>,
    /// The reverse-path as written, for `Return-Path:`.
    pub depose: Seq<u8>,
    /// Was a `MAIL FROM:` accepted in this transaction?
    pub depose_vu: bool,
    /// The domain whose policy SPF reads.
    pub domaine_verifie: Seq<u8>,
    /// The verdict handed back for this transaction.
    pub verdict: Option<SenderVerdict>,
    /// Was the identity checked that of `HELO`?
    pub identite_helo: bool,
}

/// What a step answers, and what the session holds afterwards.
pub type Issue = (Result<Turn, Error>, Etat);

/// The bytes of a word.
pub open spec fn mot(s: Seq<char>) -> Seq<u8> {
    vstd::utf8::encode_utf8(s)
}

/// `local@domain`.
pub open spec fn adresse(local: Seq<u8>, domaine: Seq<u8>) -> Seq<u8> {
    local + seq![64u8] + domaine
}

/// A session that has just opened.
pub open spec fn etat_initial() -> Etat {
    Etat {
        phase: Phase::Greeted,
        tls: false,
        authenticated: false,
        envid: Seq::empty(),
        sauts: sauts_neufs(),
        octets: 0,
        esmtp: false,
        recipients: destinataires_vides(),
        helo: Seq::empty(),
        expediteur: Seq::empty(),
        chemin_de_retour: Seq::empty(),
        compte: Seq::empty(),
        depose: Seq::empty(),
        depose_vu: false,
        domaine_verifie: Seq::empty(),
        verdict: None,
        identite_helo: false,
    }
}

/// The transaction left: back to the identified state, and EVERYTHING that
/// belongs to the transaction forgotten, the recipients first.
pub open spec fn quitter(e: Etat) -> Etat {
    Etat {
        phase: Phase::Identified,
        recipients: destinataires_vides(),
        sauts: sauts_neufs(),
        envid: Seq::empty(),
        octets: 0,
        expediteur: Seq::empty(),
        chemin_de_retour: Seq::empty(),
        depose: Seq::empty(),
        depose_vu: false,
        domaine_verifie: Seq::empty(),
        verdict: None,
        ..e
    }
}

/// A one-line reply.
pub open spec fn tour(code: Code, texte: Texte, action: Action, faute: bool) -> Turn {
    Turn { reply: Some(Reponse::Ligne { code, texte }), action, peer_fault: faute, refused_recipient: false }
}

/// A one-line reply, without action nor fault.
pub open spec fn simple(code: Code, texte: Texte) -> Turn {
    tour(code, texte, Action::Continue, false)
}

/// A one-line reply that sanctions a fault of the peer.
pub open spec fn refus(code: Code, texte: Texte) -> Turn {
    tour(code, texte, Action::Continue, true)
}

/// A reply that refuses a recipient for good; no fault of the peer.
pub open spec fn refus_de_destinataire(code: Code, texte: Texte) -> Turn {
    Turn { reply: Some(Reponse::Ligne { code, texte }), action: Action::Continue, peer_fault: false, refused_recipient: true }
}

/// A turn that answers nothing yet.
pub open spec fn muet(action: Action) -> Turn {
    Turn { reply: None, action, peer_fault: false, refused_recipient: false }
}

/// What each fault of the data answers.
pub open spec fn refus_de_faute(cause: DataFault) -> Turn {
    match cause {
        DataFault::BareLineEnding => refus(Code::TransactionFailed, Texte::BareLineEnding),
        DataFault::LineTooLong { .. } => refus(Code::SyntaxError, Texte::LineTooLong),
        DataFault::MessageTooLarge { .. } => refus(Code::MessageTooLarge, Texte::MessageTooLarge),
    }
}

/// What each fault of the command line answers. The detail never goes back
/// to the peer.
pub open spec fn refus_d_analyse(faute: ParseFault) -> Turn {
    match faute {
        ParseFault::LineTooLong => refus(Code::SyntaxError, Texte::LineTooLong),
        ParseFault::MalformedLineEnding => refus(Code::SyntaxError, Texte::LineMustEndWithCrlf),
        ParseFault::UnknownVerb => refus(Code::SyntaxError, Texte::CommandNotRecognised),
        ParseFault::ObsoleteVerb => refus(Code::NotImplemented, Texte::CommandNotImplemented),
        ParseFault::BadArguments => refus(Code::ArgumentError, Texte::SyntaxErrorInArguments),
    }
}

/// The name kept from `EHLO` or `HELO`: a domain, if it fits; never an
/// address literal, which names no zone.
pub open spec fn helo_retenu(c: ClientId) -> Seq<u8> {
    match c {
        ClientId::Domain(nom) => tenu(nom@, DOMAIN_MAX as nat),
        ClientId::AddressLiteral(_) => Seq::empty(),
    }
}

/// `EHLO`: the transaction is cancelled (RFC 5321 §4.1.4), and the
/// extensions actually served are announced; `AUTH` only under encryption.
pub open spec fn apres_ehlo(e: Etat, cfg: Config, client: ClientId) -> Issue {
    let caps = cfg.spec_capabilities();
    (
        Ok(Turn {
            reply: Some(Reponse::Ehlo { starttls: caps.starttls && !e.tls, auth: caps.auth && e.tls, dsn: caps.dsn }),
            action: Action::Continue,
            peer_fault: false,
            refused_recipient: false,
        }),
        Etat { esmtp: true, helo: helo_retenu(client), ..quitter(e) },
    )
}

/// `HELO`: accepted, announcing nothing.
pub open spec fn apres_helo(e: Etat, nom: Seq<u8>) -> Issue {
    (
        Ok(Turn { reply: Some(Reponse::Helo), action: Action::Continue, peer_fault: false, refused_recipient: false }),
        Etat { esmtp: false, helo: tenu(nom, DOMAIN_MAX as nat), ..quitter(e) },
    )
}

/// What a parameter of `MAIL FROM:` is worth (RFC 5321 §4.1.1.11).
#[derive(Debug, Clone, Copy, PartialEq, Eq, Structural)]
pub enum Verdict7 {
    /// Understood, and nothing more to do.
    Compris,
    /// Understood: the envelope identifier, decoded.
    Envid,
    /// Understood, and the message announced is larger than accepted.
    TropGros,
    /// Not served: refused.
    Inconnu,
}

/// Only what is held is accepted: a parameter accepted in silence is a
/// promise not made. The RFC 3461 ones only when `DSN` is announced.
pub open spec fn verdict_mail_spec(p: Parameter, max_message: u64, dsn: bool) -> Verdict7 {
    let cle = p.keyword@;
    if egaux_sans_casse_spec(cle, mot("RET"@)) {
        if p.value.is_some() && dsn && p.lecture.ret { Verdict7::Compris } else { Verdict7::Inconnu }
    } else if egaux_sans_casse_spec(cle, mot("ENVID"@)) {
        match (p.value, p.lecture.xtext) {
            (Some(_), Some(decode)) => if dsn && decode@.len() > 0 { Verdict7::Envid } else { Verdict7::Inconnu },
            _ => Verdict7::Inconnu,
        }
    } else if egaux_sans_casse_spec(cle, mot("SIZE"@)) {
        match p.value {
            Some(v) => match lecture_decimale(v@) {
                Some(taille) => if taille > max_message { Verdict7::TropGros } else { Verdict7::Compris },
                None => Verdict7::Inconnu,
            },
            None => Verdict7::Inconnu,
        }
    } else if egaux_sans_casse_spec(cle, mot("BODY"@)) {
        match p.value {
            Some(v) => if egaux_sans_casse_spec(v@, mot("8BITMIME"@)) || egaux_sans_casse_spec(v@, mot("7BIT"@)) {
                Verdict7::Compris
            } else {
                Verdict7::Inconnu
            },
            None => Verdict7::Inconnu,
        }
    } else if egaux_sans_casse_spec(cle, mot("AUTH"@)) {
        Verdict7::Compris
    } else {
        Verdict7::Inconnu
    }
}

/// What the parameters of `MAIL FROM:` give, read in order: the first
/// refusal, or the envelope identifier (the last one given).
pub struct FouilleMail {
    /// The first verdict that refuses.
    pub refus: Option<Verdict7>,
    /// The envelope identifier.
    pub envid: Seq<u8>,
}

/// What the parameters of `MAIL FROM:` give, read in order.
pub open spec fn fouille_mail(ps: Seq<Parameter>, max_message: u64, dsn: bool) -> FouilleMail
    decreases ps.len(),
{
    if ps.len() == 0 {
        FouilleMail { refus: None, envid: Seq::empty() }
    } else {
        let avant = fouille_mail(ps.drop_last(), max_message, dsn);
        if avant.refus.is_some() {
            avant
        } else {
            match verdict_mail_spec(ps.last(), max_message, dsn) {
                Verdict7::Compris => avant,
                Verdict7::Envid => FouilleMail { refus: None, envid: ps.last().lecture.xtext.unwrap()@ },
                v => FouilleMail { refus: Some(v), envid: avant.envid },
            }
        }
    }
}

/// Once a parameter of `MAIL FROM:` is refused, the later ones change
/// nothing.
pub proof fn lemme_fouille_mail_arretee(ps: Seq<Parameter>, k: int, max_message: u64, dsn: bool)
    requires
        0 <= k <= ps.len(),
        fouille_mail(ps.take(k), max_message, dsn).refus.is_some(),
    ensures
        fouille_mail(ps, max_message, dsn) == fouille_mail(ps.take(k), max_message, dsn),
    decreases ps.len(),
{
    if k < ps.len() {
        assert(ps.drop_last().take(k) =~= ps.take(k));
        lemme_fouille_mail_arretee(ps.drop_last(), k, max_message, dsn);
    } else {
        assert(ps.take(k) =~= ps);
    }
}

/// The reverse-path kept twice: as written, for `Return-Path:`, and as the
/// address a report would return to, which neither `<>` nor an address
/// literal is.
pub open spec fn retenir_chemin(e: Etat, rp: Path) -> Etat {
    Etat {
        depose: match rp {
            Path::Mailbox(b) => tenu(adresse(b.local_part@, b.domain.spec_octets()), SENDER_MAX as nat),
            _ => Seq::empty(),
        },
        chemin_de_retour: match rp {
            Path::Mailbox(b) => match b.domain {
                ClientId::Domain(d) => tenu(adresse(b.local_part@, d@), SENDER_MAX as nat),
                ClientId::AddressLiteral(_) => Seq::empty(),
            },
            _ => Seq::empty(),
        },
        depose_vu: true,
        ..e
    }
}

/// The identity to check, kept; and whether there is one to check.
///
/// None when the peer authenticated (a submission is not checked by SPF),
/// when the policy ignores senders, for an address literal, for a null
/// sender without a `HELO` name, and when the identity does not fit.
pub open spec fn retenir_expediteur(e: Etat, cfg: Config, rp: Path) -> (bool, Etat) {
    if e.authenticated || cfg.spec_sender_policy() == SenderPolicy::Ignore {
        (false, e)
    } else {
        match rp {
            Path::Mailbox(b) => match b.domain {
                ClientId::Domain(d) => {
                    let e1 = Etat { identite_helo: false, domaine_verifie: tenu(d@, DOMAIN_MAX as nat), ..e };
                    if d@.len() <= DOMAIN_MAX {
                        let a = adresse(b.local_part@, d@);
                        (a.len() <= SENDER_MAX, Etat { expediteur: tenu(a, SENDER_MAX as nat), ..e1 })
                    } else {
                        (false, e1)
                    }
                },
                ClientId::AddressLiteral(_) => (false, e),
            },
            Path::Null => {
                let e1 = Etat { identite_helo: true, ..e };
                if e.helo.len() == 0 {
                    (false, e1)
                } else {
                    let e2 = Etat { domaine_verifie: tenu(e.helo, DOMAIN_MAX as nat), ..e1 };
                    if e.helo.len() <= DOMAIN_MAX {
                        let a = mot("postmaster@"@) + e.helo;
                        (a.len() <= SENDER_MAX, Etat { expediteur: tenu(a, SENDER_MAX as nat), ..e2 })
                    } else {
                        (false, e2)
                    }
                }
            },
            Path::Postmaster => (false, e),
        }
    }
}

/// `MAIL FROM:`: opens a transaction, once the parameters are sorted.
pub open spec fn apres_mail(e: Etat, cfg: Config, rp: Path, ps: Seq<Parameter>) -> Issue {
    match e.phase {
        Phase::Greeted => (Ok(refus(Code::BadSequence, Texte::SendEhloFirst)), e),
        Phase::Transaction { .. } => (Ok(refus(Code::BadSequence, Texte::NestedMail)), e),
        _ => {
            let f = fouille_mail(ps, cfg.spec_max_message_octets(), cfg.spec_capabilities().dsn);
            match f.refus {
                Some(Verdict7::TropGros) => (Ok(refus(Code::MessageTooLarge, Texte::MessageTooLarge)), e),
                Some(_) => (Ok(refus(Code::ParameterNotImplemented, Texte::ParameterNotRecognised)), e),
                None => {
                    let e1 = Etat { phase: Phase::Transaction { recipients: 0, chunked: false }, envid: f.envid, ..e };
                    let e2 = retenir_chemin(e1, rp);
                    let (verifiable, e3) = retenir_expediteur(e2, cfg, rp);
                    if verifiable {
                        (Ok(muet(Action::CheckSender)), e3)
                    } else {
                        (Ok(simple(Code::Completed, Texte::SenderOk)), e3)
                    }
                },
            }
        },
    }
}

/// What the parameters of `RCPT TO:` give, read in order.
pub struct FouilleRcpt {
    /// A parameter is not served.
    pub refus: bool,
    /// What the recipient asked to be told.
    pub notify: Notify,
    /// Its original address, decoded; empty when none was given.
    pub orcpt: Seq<u8>,
}

/// What the parameters of `RCPT TO:` give: `NOTIFY` and `ORCPT` only, and
/// only when `DSN` is announced.
pub open spec fn fouille_rcpt(ps: Seq<Parameter>, dsn: bool) -> FouilleRcpt
    decreases ps.len(),
{
    if ps.len() == 0 {
        FouilleRcpt { refus: false, notify: Notify::spec_defaut(), orcpt: Seq::empty() }
    } else {
        let avant = fouille_rcpt(ps.drop_last(), dsn);
        let p = ps.last();
        if avant.refus {
            avant
        } else if egaux_sans_casse_spec(p.keyword@, mot("NOTIFY"@)) {
            match p.lecture.notify {
                Some(n) if p.value.is_some() && dsn => FouilleRcpt { notify: n, ..avant },
                _ => FouilleRcpt { refus: true, ..avant },
            }
        } else if egaux_sans_casse_spec(p.keyword@, mot("ORCPT"@)) {
            match p.lecture.orcpt {
                Some(o) if p.value.is_some() && dsn => FouilleRcpt { orcpt: o@, ..avant },
                _ => FouilleRcpt { refus: true, ..avant },
            }
        } else {
            FouilleRcpt { refus: true, ..avant }
        }
    }
}

/// Once a parameter of `RCPT TO:` is refused, the later ones change
/// nothing.
pub proof fn lemme_fouille_rcpt_arretee(ps: Seq<Parameter>, k: int, dsn: bool)
    requires
        0 <= k <= ps.len(),
        fouille_rcpt(ps.take(k), dsn).refus,
    ensures
        fouille_rcpt(ps, dsn) == fouille_rcpt(ps.take(k), dsn),
    decreases ps.len(),
{
    if k < ps.len() {
        assert(ps.drop_last().take(k) =~= ps.take(k));
        lemme_fouille_rcpt_arretee(ps.drop_last(), k, dsn);
    } else {
        assert(ps.take(k) =~= ps);
    }
}

/// The address kept for a recipient: `<Postmaster>` takes the domain of this
/// server, and `<>` is no recipient.
pub open spec fn adresse_du_destinataire(cfg: Config, fp: Path) -> Option<Seq<u8>> {
    match fp {
        Path::Mailbox(b) => Some(adresse(b.local_part@, b.domain.spec_octets())),
        Path::Postmaster => Some(adresse(mot("postmaster"@), cfg.spec_domain())),
        Path::Null => None,
    }
}

/// What the verdict of the policy makes of a recipient, in a transaction
/// with room for one more.
pub open spec fn conclure_rcpt(e: Etat, cfg: Config, fp: Path, notify: Notify, orcpt: Seq<u8>, v: RecipientVerdict) -> Issue {
    match v {
        RecipientVerdict::Accept => match (adresse_du_destinataire(cfg, fp), e.phase) {
            (Some(a), Phase::Transaction { recipients, chunked }) => if tient(e.recipients, a) {
                (
                    Ok(simple(Code::Completed, Texte::RecipientOk)),
                    Etat {
                        recipients: avec_rapport(avec_adresse(e.recipients, a), notify, orcpt),
                        phase: Phase::Transaction { recipients: (recipients + 1) as usize, chunked },
                        ..e
                    },
                )
            } else {
                (Ok(simple(Code::TooManyRecipients, Texte::TooManyRecipients)), e)
            },
            _ => (Ok(simple(Code::TooManyRecipients, Texte::TooManyRecipients)), e),
        },
        RecipientVerdict::RejectPermanent => (Ok(refus_de_destinataire(Code::MailboxUnavailable, Texte::MailboxUnavailable)), e),
        RecipientVerdict::RejectTemporary => (Ok(simple(Code::MailboxBusy, Texte::MailboxBusy)), e),
        RecipientVerdict::RelayDenied => (Ok(refus_de_destinataire(Code::MailboxUnavailable, Texte::RelayAccessDenied)), e),
    }
}

/// Does the session wait for the verdict on a recipient: a transaction is
/// open, with room for one more?
pub open spec fn attend_un_verdict(e: Etat, cfg: Config) -> bool {
    match e.phase {
        Phase::Transaction { recipients, .. } => recipients < cfg.spec_max_recipients(),
        _ => false,
    }
}

/// Does `RCPT TO:` consult the policy: its parameters are served, and a
/// transaction waits for a verdict?
pub open spec fn rcpt_consulte(e: Etat, cfg: Config, ps: Seq<Parameter>) -> bool {
    !fouille_rcpt(ps, cfg.spec_capabilities().dsn).refus && attend_un_verdict(e, cfg)
}

/// `RCPT TO:`: the one command the session does not decide alone. `v` is
/// what the policy says of the recipient.
pub open spec fn apres_rcpt(e: Etat, cfg: Config, fp: Path, ps: Seq<Parameter>, v: RecipientVerdict) -> Issue {
    let f = fouille_rcpt(ps, cfg.spec_capabilities().dsn);
    if f.refus {
        (Ok(refus(Code::ParameterNotImplemented, Texte::ParameterNotRecognised)), e)
    } else {
        match e.phase {
            Phase::Transaction { recipients, .. } => if recipients >= cfg.spec_max_recipients() {
                (Ok(simple(Code::TooManyRecipients, Texte::TooManyRecipients)), e)
            } else {
                conclure_rcpt(e, cfg, fp, f.notify, f.orcpt, v)
            },
            _ => (Ok(refus(Code::BadSequence, Texte::NeedMailBeforeRcpt)), e),
        }
    }
}

/// `DATA`: at least one accepted recipient, and no `BDAT` begun.
pub open spec fn apres_data(e: Etat) -> Issue {
    match e.phase {
        Phase::Transaction { chunked: true, .. } => (Ok(refus(Code::BadSequence, Texte::BdatAlreadyStarted)), e),
        Phase::Transaction { recipients, .. } => if recipients > 0 {
            (
                Ok(tour(Code::StartMailInput, Texte::StartMailInput, Action::ReceiveData, false)),
                Etat { phase: Phase::Data, octets: 0, ..e },
            )
        } else {
            (Ok(refus(Code::BadSequence, Texte::NeedRcptBeforeData)), e)
        },
        _ => (Ok(refus(Code::BadSequence, Texte::NeedRcptBeforeData)), e),
    }
}

/// `BDAT` (RFC 3030 §2): at least one recipient. The turn answers nothing:
/// the reply leaves after the bytes.
pub open spec fn apres_bdat(e: Etat, size: u64, last: bool) -> Issue {
    match e.phase {
        Phase::Transaction { recipients, chunked } => if recipients == 0 {
            (Ok(refus(Code::BadSequence, Texte::NeedRcptBeforeBdat)), e)
        } else {
            (
                Ok(muet(Action::BeginChunk { size, last, fresh: !chunked })),
                Etat { phase: Phase::ChunkPending { recipients, size, last }, octets: if chunked { e.octets } else { 0 }, ..e },
            )
        },
        _ => (Ok(refus(Code::BadSequence, Texte::NeedMailAndRcptBeforeBdat)), e),
    }
}

/// `STARTTLS` (RFC 3207 §4), when the caller conducts it.
pub open spec fn apres_starttls(e: Etat, cfg: Config) -> Issue {
    if !cfg.spec_capabilities().starttls {
        (Ok(refus(Code::NotImplemented, Texte::CommandNotImplemented)), e)
    } else if e.tls {
        (Ok(refus(Code::BadSequence, Texte::TlsAlreadyActive)), e)
    } else if e.phase == Phase::Greeted {
        (Ok(refus(Code::BadSequence, Texte::SendEhloFirst)), e)
    } else {
        (Ok(tour(Code::ServiceReady, Texte::ReadyToStartTls, Action::StartTls, false)), e)
    }
}

/// The account that authentication grants, if any: `accorde` is what the
/// policy says of the credentials.
pub open spec fn compte_accorde(credentials: Option<Credentials>, accorde: bool) -> Option<Seq<u8>> {
    match credentials {
        Some(c) => if accorde { Some(c.authentication_identity@) } else { None },
        None => None,
    }
}

/// The end of a SASL exchange: granted to `compte`, or refused without
/// saying what failed.
pub open spec fn conclure_auth(e: Etat, compte: Option<Seq<u8>>) -> Issue {
    match compte {
        Some(nom) => (
            Ok(simple(Code::AuthSucceeded, Texte::AuthenticationSuccessful)),
            Etat { phase: Phase::Identified, authenticated: true, compte: tenu(nom, LOGIN_MAX as nat), ..e },
        ),
        None => (
            Ok(refus(Code::AuthFailed, Texte::AuthenticationCredentialsInvalid)),
            Etat { phase: Phase::Identified, authenticated: false, ..e },
        ),
    }
}

/// Does `AUTH` consult the policy on credentials: served, encrypted, not
/// yet authenticated, after `EHLO`, for `PLAIN`, with an initial response?
pub open spec fn auth_consulte(e: Etat, cfg: Config, mechanism: Seq<u8>, initial: bool) -> bool {
    &&& cfg.spec_capabilities().auth
    &&& e.tls
    &&& !e.authenticated
    &&& e.phase != Phase::Greeted
    &&& mechanism == mot("PLAIN"@)
    &&& initial
}

/// `AUTH` (RFC 4954): refused outside encryption, and that is no setting.
pub open spec fn apres_auth(
    e: Etat,
    cfg: Config,
    mechanism: Seq<u8>,
    initial: bool,
    credentials: Option<Credentials>,
    accorde: bool,
) -> Issue {
    if !cfg.spec_capabilities().auth {
        (Ok(refus(Code::NotImplemented, Texte::CommandNotImplemented)), e)
    } else if !e.tls {
        (Ok(refus(Code::EncryptionRequired, Texte::EncryptionRequired)), e)
    } else if e.authenticated {
        (Ok(refus(Code::BadSequence, Texte::AlreadyAuthenticated)), e)
    } else if e.phase == Phase::Greeted {
        (Ok(refus(Code::BadSequence, Texte::SendEhloFirst)), e)
    } else if mechanism != mot("PLAIN"@) {
        (Ok(refus(Code::ParameterNotImplemented, Texte::UnrecognizedAuthenticationType)), e)
    } else if initial {
        conclure_auth(e, compte_accorde(credentials, accorde))
    } else {
        (Ok(tour(Code::AuthChallenge, Texte::Nothing, Action::ReadAuthResponse, false)), Etat { phase: Phase::Auth, ..e })
    }
}

/// A command, in a phase that takes commands.
pub open spec fn apres_commande_servie(
    e: Etat,
    cfg: Config,
    commande: Command,
    v: RecipientVerdict,
    accorde: bool,
) -> Issue {
    match commande {
        Command::Ehlo(client) => apres_ehlo(e, cfg, client),
        Command::Helo(nom) => apres_helo(e, nom@),
        Command::Mail { reverse_path, parameters } => apres_mail(e, cfg, reverse_path, parameters@),
        Command::Rcpt { forward_path, parameters } => apres_rcpt(e, cfg, forward_path, parameters@, v),
        Command::Data => apres_data(e),
        Command::Bdat { size, last } => apres_bdat(e, size, last),
        Command::Rset => (Ok(simple(Code::Completed, Texte::ResetOk)), quitter(e)),
        Command::Noop => (Ok(simple(Code::Completed, Texte::Okay)), e),
        Command::Quit => (Ok(tour(Code::Closing, Texte::Bye, Action::Close, false)), Etat { phase: Phase::Closed, ..e }),
        Command::StartTls => apres_starttls(e, cfg),
        Command::Auth { mechanism, initial_response, credentials } =>
            apres_auth(e, cfg, mechanism@, initial_response.is_some(), credentials, accorde),
        Command::Vrfy => (Ok(simple(Code::CannotVerify, Texte::CannotVerify)), e),
        Command::Expn => (Ok(simple(Code::NotImplemented, Texte::ExpnNotAvailable)), e),
        Command::Help => (Ok(simple(Code::HelpMessage, Texte::SeeRfc)), e),
    }
}

/// Does the session take a command in this phase?
pub open spec fn prend_les_commandes(phase: Phase) -> bool {
    phase == Phase::Greeted || phase == Phase::Identified || phase is Transaction
}

/// A command line, as the grammar read it. `v` is what the policy says of
/// a recipient, `accorde` what it says of credentials; each counts only for
/// the command that asks it.
pub open spec fn apres_commande(
    e: Etat,
    cfg: Config,
    commande: Result<Command, ParseFault>,
    v: RecipientVerdict,
    accorde: bool,
) -> Issue {
    if e.phase == Phase::Closed {
        (Err(Error::SessionClosed), e)
    } else if !prend_les_commandes(e.phase) {
        (Err(Error::NotInCommandPhase), e)
    } else {
        match commande {
            Err(faute) => (Ok(refus_d_analyse(faute)), e),
            Ok(c) => apres_commande_servie(e, cfg, c, v, accorde),
        }
    }
}

/// What the verdict of the caller on a message is answered.
pub open spec fn reponse_au_message(outcome: DataOutcome) -> Turn {
    match outcome {
        DataOutcome::Accepted => simple(Code::Completed, Texte::MessageAccepted),
        DataOutcome::RejectedPermanent => simple(Code::TransactionFailed, Texte::MessageRejected),
        DataOutcome::RejectedByPolicy => simple(Code::MailboxUnavailable, Texte::RejectedByDomainPolicy),
        DataOutcome::RejectedTemporary => simple(Code::LocalError, Texte::MessageNotAccepted),
    }
}

/// The message was read: the transaction ends. A message that the grammar
/// refused, or that loops, cannot be accepted: the verdict of the caller is
/// not even consulted.
pub open spec fn apres_message(e: Etat, outcome: DataOutcome) -> Issue {
    match e.phase {
        Phase::Looped => (Ok(refus(Code::TransactionFailed, Texte::TooManyHops)), quitter(e)),
        Phase::Data => (Ok(reponse_au_message(outcome)), quitter(e)),
        Phase::Chunk { last: true, .. } => (Ok(reponse_au_message(outcome)), quitter(e)),
        Phase::DataFailed(cause) => (Ok(refus_de_faute(cause)), quitter(e)),
        Phase::ChunkFailed { last: true, cause, .. } => (Ok(refus_de_faute(cause)), quitter(e)),
        _ => (Err(Error::NotInCommandPhase), e),
    }
}

/// `a + b`, saturating at the bound of the type.
pub open spec fn plus_sature(a: u64, b: nat) -> u64 {
    if a + b > u64::MAX { u64::MAX } else { (a + b) as u64 }
}

/// What the data receiver said of bytes of the message, in the data phase.
/// Content is counted, and its `Received:` fields too: past [`HOPS_MAX`]
/// the message loops, and is refused for good.
pub open spec fn apres_donnees(e: Etat, lu: Result<Option<Seq<u8>>, DataFault>) -> (Result<(), Error>, Etat) {
    if e.phase != Phase::Data {
        (Err(Error::NotInDataPhase), e)
    } else {
        match lu {
            Err(cause) => (Err(Error::DataRefused), Etat { phase: Phase::DataFailed(cause), ..e }),
            Ok(contenu) => {
                let e1 = match contenu {
                    Some(b) => Etat { sauts: apres(e.sauts, b), octets: plus_sature(e.octets, b.len()), ..e },
                    None => e,
                };
                if e1.sauts.spec_count() <= HOPS_MAX {
                    (Ok(()), e1)
                } else {
                    (Err(Error::DataRefused), Etat { phase: Phase::Looped, ..e1 })
                }
            },
        }
    }
}

/// What the chunk receiver said of bytes of the chunk. A fault does not stop
/// the reading, it stops the message: the bytes are announced, and the caller
/// still consumes them.
pub open spec fn apres_morceau(e: Etat, lu: Result<Option<Seq<u8>>, DataFault>) -> (Result<(), Error>, Etat) {
    match e.phase {
        Phase::Chunk { recipients, last } => match lu {
            Err(cause) => (Ok(()), Etat { phase: Phase::ChunkFailed { recipients, last, cause }, ..e }),
            Ok(Some(b)) => (Ok(()), Etat { octets: plus_sature(e.octets, b.len()), ..e }),
            Ok(None) => (Ok(()), e),
        },
        Phase::ChunkFailed { .. } => (Ok(()), e),
        _ => (Err(Error::NotInDataPhase), e),
    }
}

/// What the chunk receiver said of the chunk announced: `None`, accepted;
/// otherwise the bound it crossed, and the transaction is left.
pub open spec fn apres_annonce(e: Etat, refus: Option<DataFault>) -> Issue {
    match e.phase {
        Phase::ChunkPending { recipients, size, last } => match refus {
            Some(cause) => (Ok(refus_de_faute(cause)), quitter(e)),
            None => (Ok(muet(Action::ReceiveChunk { size, last })), Etat { phase: Phase::Chunk { recipients, last }, ..e }),
        },
        _ => (Err(Error::NotInCommandPhase), e),
    }
}

/// A chunk that was not the last has been read.
pub open spec fn apres_morceau_lu(e: Etat) -> Issue {
    match e.phase {
        Phase::Chunk { recipients, last: false } => (
            Ok(simple(Code::Completed, Texte::ChunkOk)),
            Etat { phase: Phase::Transaction { recipients, chunked: true }, ..e },
        ),
        Phase::ChunkFailed { cause, .. } => (Ok(refus_de_faute(cause)), quitter(e)),
        _ => (Err(Error::NotInCommandPhase), e),
    }
}

/// The verdict of the check of the sender. Only `fail` refuses, and only
/// under [`SenderPolicy::Enforce`]; `temperror` defers. The verdict is kept
/// whatever happens, for the record.
pub open spec fn apres_verdict(e: Etat, cfg: Config, verdict: SenderVerdict) -> (Turn, Etat) {
    if cfg.spec_sender_policy() != SenderPolicy::Enforce {
        (simple(Code::Completed, Texte::SenderOk), Etat { verdict: Some(verdict), ..e })
    } else {
        match verdict {
            SenderVerdict::Fail => (
                refus(Code::MailboxUnavailable, Texte::SenderRejectedBySpf),
                Etat { verdict: Some(verdict), ..quitter(e) },
            ),
            SenderVerdict::TempError => (
                simple(Code::LocalError, Texte::SpfTemporaryError),
                Etat { verdict: Some(verdict), ..quitter(e) },
            ),
            _ => (simple(Code::Completed, Texte::SenderOk), Etat { verdict: Some(verdict), ..e }),
        }
    }
}

/// Does the response to the SASL challenge consult the policy: an exchange
/// is in progress, and the response does not cancel it?
pub open spec fn sasl_consulte(e: Etat, reponse: Seq<u8>) -> bool {
    e.phase == Phase::Auth && reponse != seq![42u8]
}

/// The response to the SASL challenge. `*` cancels the exchange, and that is
/// no fault of the peer.
pub open spec fn apres_reponse_sasl(e: Etat, reponse: Seq<u8>, credentials: Option<Credentials>, accorde: bool) -> Issue {
    if e.phase != Phase::Auth {
        (Err(Error::NotInAuthExchange), e)
    } else if reponse == seq![42u8] {
        (Ok(simple(Code::ArgumentError, Texte::AuthenticationAborted)), Etat { phase: Phase::Identified, ..e })
    } else {
        conclure_auth(e, compte_accorde(credentials, accorde))
    }
}

/// The TLS handshake succeeded: the whole session starts over (RFC 3207
/// §4.2), and the authentication falls with the rest.
pub open spec fn apres_tls(e: Etat) -> Etat {
    Etat { tls: true, authenticated: false, compte: Seq::empty(), phase: Phase::Greeted, ..quitter(e) }
}

/// The `SIZE` line of `EHLO`.
pub open spec fn ligne_size(cfg: Config) -> Seq<u8> {
    mot("SIZE "@) + ecriture_decimale(cfg.spec_max_message_octets() as nat)
}

/// A line if `present`, else none.
pub open spec fn si(present: bool, ligne: Seq<u8>) -> Seq<Seq<u8>> {
    if present { seq![ligne] } else { Seq::empty() }
}

/// What follows the code on each line of a reply.
pub open spec fn lignes_spec(r: Reponse, cfg: Config) -> Seq<Seq<u8>> {
    match r {
        Reponse::Ligne { code, texte } => seq![super::reponse::ligne_spec(code, texte)],
        Reponse::Banniere => seq![cfg.spec_domain() + mot(" ESMTP"@)],
        Reponse::Helo => seq![cfg.spec_domain()],
        Reponse::Ehlo { starttls, auth, dsn } => seq![
            cfg.spec_domain(),
            ligne_size(cfg),
            mot("8BITMIME"@),
            mot("ENHANCEDSTATUSCODES"@),
            mot("PIPELINING"@),
            mot("CHUNKING"@),
        ] + si(dsn, mot("DSN"@)) + si(starttls, mot("STARTTLS"@)) + si(auth, mot("AUTH PLAIN"@)),
    }
}

/// The code of a reply.
pub open spec fn code_spec(r: Reponse) -> Code {
    match r {
        Reponse::Ligne { code, .. } => code,
        Reponse::Banniere => Code::ServiceReady,
        Reponse::Helo | Reponse::Ehlo { .. } => Code::Completed,
    }
}

} // verus!
