//! The SMTP session (RFC 5321), free of input and output.
//!
//! The banner, `EHLO`/`HELO` and the extensions announced, the sequence
//! `MAIL`/`RCPT`/`DATA` and `BDAT`, `STARTTLS`, `AUTH` refused outside
//! encryption, and the data phase.
//!
//! Properties held by construction, and proved in [`lois`]:
//!
//! 1. `AUTH` outside TLS is refused, and it is not a setting; it is not even
//!    announced before encryption.
//! 2. `STARTTLS` resets the whole session (RFC 3207 §4.2).
//! 3. A message refused by the grammar cannot be accepted by the caller: the
//!    verdict handed to [`SmtpSession::on_data_settled`] is not consulted.
//! 4. No reply carries data that came from the peer: a [`Reponse`] holds no
//!    byte, and the lines it renders are those of the vocabulary and of the
//!    configuration.

pub mod commande;
pub mod config;
pub mod etat;
pub mod lois;
pub mod reponse;

use vstd::prelude::*;

use crate::digits::decimal;
use crate::octets::{ajouter, copier, egaux, egaux_sans_casse};
use crate::policy::{Credentials, Policy, RecipientVerdict, reponse_possible};
use crate::recipients::{Notify, Recipients, vues_vec};
use crate::sauts::Sauts;
use crate::tampon::{Tampon, lemme_morceaux};
use commande::{ChunkEvent, ClientId, Command, DataEvent, DataFault, Parameter, ParseFault, Path};
use config::{Config, DOMAIN_MAX, SenderPolicy};
use etat::{
    Action, DataOutcome, Etat, FouilleMail, FouilleRcpt, Identity, LOGIN_MAX, Phase, Reponse,
    SENDER_MAX, SenderVerdict, Transport, Turn, Verdict7, apres_annonce, apres_auth, apres_bdat,
    apres_commande, apres_data, apres_donnees, apres_ehlo, apres_helo,
    apres_mail, apres_message, apres_morceau, apres_morceau_lu, apres_rcpt, apres_reponse_sasl,
    apres_starttls, apres_tls, apres_verdict, attend_un_verdict, auth_consulte, code_spec, compte_accorde,
    conclure_auth, conclure_rcpt, etat_initial, fouille_mail, fouille_rcpt, lignes_spec, muet,
    prend_les_commandes, quitter, rcpt_consulte, refus, refus_d_analyse, refus_de_destinataire,
    refus_de_faute, retenir_chemin, sasl_consulte,
    retenir_expediteur, simple, tour, verdict_mail_spec, HOPS_MAX,
};
use reponse::{Code, Texte, ligne};

verus! {

/// What an SMTP session refuses its caller. A peer that sends anything at
/// all gets a reply, never an error: the errors are for a caller that calls
/// out of turn.
#[derive(Debug, Clone, Copy, PartialEq, Eq, Structural)]
pub enum Error {
    /// The domain cannot name a server.
    InvalidConfig,
    /// A command was submitted after `QUIT`.
    SessionClosed,
    /// A command, or a verdict, was submitted while the session does not
    /// expect one.
    NotInCommandPhase,
    /// Message bytes were submitted outside the data phase.
    NotInDataPhase,
    /// The data were refused: stop reading, and call
    /// [`SmtpSession::on_data_settled`].
    DataRefused,
    /// A response to a SASL challenge was submitted while none is pending.
    NotInAuthExchange,
}

/// The identity that SPF checks (RFC 7208 §2.4).
///
/// SPF queries ONE domain, but its macros also speak of the whole sender and
/// of the name given at `HELO`. For `MAIL FROM:<>` the domain of `HELO` is
/// checked, with `postmaster@<helo>` for sender.
#[derive(Debug, Clone, Copy, PartialEq, Eq)]
pub struct SenderIdentity<'s> {
    /// The domain whose policy is read.
    pub domain: &'s [u8],
    /// `local@domain`, for the macros.
    pub sender: &'s [u8],
    /// The name given at `HELO`, for `%{h}`.
    pub helo: &'s [u8],
    /// Which of the two identities is checked.
    pub scope: Identity,
}

/// What a `Received-SPF:` field states (RFC 7208 §9.1), the client address
/// aside: that the caller knows.
#[derive(Debug, Clone, Copy, PartialEq, Eq)]
pub struct ReceivedSpf<'s> {
    /// The verdict.
    pub result: SenderVerdict,
    /// The sender checked.
    pub sender: &'s [u8],
    /// The name given at `HELO`.
    pub helo: &'s [u8],
    /// This server.
    pub receiver: &'s [u8],
    /// Which identity was checked.
    pub identity: Identity,
}

/// What the `Received:` field of this hop states (RFC 5321 §4.4), the client
/// address and the date aside: the caller knows them.
#[derive(Debug, Clone, Copy, PartialEq, Eq)]
pub struct Received<'s> {
    /// The name given at `HELO`.
    pub helo: &'s [u8],
    /// This server.
    pub receiver: &'s [u8],
    /// The word of `with` (RFC 3848).
    pub with: Transport,
}

/// The word of `with`: `SMTP` for `HELO`, `ESMTP` for `EHLO`, then `S` and `A`
/// when the hop was encrypted, then authenticated.
pub open spec fn transport_spec(esmtp: bool, tls: bool, authenticated: bool) -> Transport {
    if !esmtp {
        Transport::Smtp
    } else if !tls {
        Transport::Esmtp
    } else if !authenticated {
        Transport::Esmtps
    } else {
        Transport::EsmtpsA
    }
}

/// What a data event hands over: content, or nothing.
pub open spec fn lu_des_donnees(lu: Result<DataEvent, DataFault>) -> Result<Option<Seq<u8>>, DataFault> {
    match lu {
        Err(cause) => Err(cause),
        Ok(DataEvent::Content(b)) => Ok(Some(b@)),
        Ok(_) => Ok(None),
    }
}

/// What a chunk event hands over: content, or nothing.
pub open spec fn lu_du_morceau(lu: Result<ChunkEvent, DataFault>) -> Result<Option<Seq<u8>>, DataFault> {
    match lu {
        Err(cause) => Err(cause),
        Ok(ChunkEvent::Content(b)) => Ok(Some(b@)),
        Ok(_) => Ok(None),
    }
}

impl Reponse {
    /// The code of the reply.
    pub fn code(&self) -> (r: Code)
        ensures
            r == code_spec(*self),
    {
        match *self {
            Reponse::Ligne { code, .. } => code,
            Reponse::Banniere => Code::ServiceReady,
            Reponse::Helo => Code::Completed,
            Reponse::Ehlo { .. } => Code::Completed,
        }
    }

    /// What follows the code on each line of the reply: the vocabulary, and
    /// what `config` says of this server.
    pub fn lignes(&self, config: &Config) -> (r: Vec<Vec<u8>>)
        ensures
            vues_vec(r@) == lignes_spec(*self, *config),
    {
        let mut r: Vec<Vec<u8>> = Vec::new();
        match *self {
            Reponse::Ligne { code, texte } => {
                r.push(ligne(code, texte));
            },
            Reponse::Banniere => {
                let mut l = copier(config.domain());
                ajouter(&mut l, " ESMTP".as_bytes());
                r.push(l);
            },
            Reponse::Helo => {
                r.push(copier(config.domain()));
            },
            Reponse::Ehlo { starttls, auth, dsn } => {
                r.push(copier(config.domain()));
                let mut size = copier("SIZE ".as_bytes());
                let mut chiffres = decimal(config.max_message_octets());
                size.append(&mut chiffres);
                r.push(size);
                r.push(copier("8BITMIME".as_bytes()));
                r.push(copier("ENHANCEDSTATUSCODES".as_bytes()));
                r.push(copier("PIPELINING".as_bytes()));
                r.push(copier("CHUNKING".as_bytes()));
                let ghost base = vues_vec(r@);
                if dsn {
                    r.push(copier("DSN".as_bytes()));
                }
                let ghost avec_dsn = vues_vec(r@);
                assert(avec_dsn =~= base + etat::si(dsn, etat::mot("DSN"@)));
                if starttls {
                    r.push(copier("STARTTLS".as_bytes()));
                }
                let ghost avec_tls = vues_vec(r@);
                assert(avec_tls =~= avec_dsn + etat::si(starttls, etat::mot("STARTTLS"@)));
                if auth {
                    r.push(copier("AUTH PLAIN".as_bytes()));
                }
                assert(vues_vec(r@) =~= avec_tls + etat::si(auth, etat::mot("AUTH PLAIN"@)));
            },
        }
        assert(vues_vec(r@) =~= lignes_spec(*self, *config));
        r
    }
}


/// What a parameter of `MAIL FROM:` is worth (RFC 5321 §4.1.1.11).
///
/// Only what is held is accepted. `SIZE` is checked because it is
/// announced; an unreadable size is no size of zero, and an overflow is a
/// refusal, not a truncation. The RFC 3461 parameters only when `DSN` is
/// announced: without a queue, no report could leave. `AUTH=` is accepted
/// without being believed (RFC 4954 §5).
pub fn verdict_du_parametre_mail(parametre: &Parameter, max_message: u64, dsn: bool) -> (r: Verdict7)
    ensures
        r == verdict_mail_spec(*parametre, max_message, dsn),
{
    let cle = parametre.keyword.as_slice();
    if egaux_sans_casse(cle, "RET".as_bytes()) {
        return if parametre.value.is_some() && dsn && parametre.lecture.ret {
            Verdict7::Compris
        } else {
            Verdict7::Inconnu
        };
    }
    if egaux_sans_casse(cle, "ENVID".as_bytes()) {
        return match (&parametre.value, &parametre.lecture.xtext) {
            (Some(_), Some(decode)) => if dsn && decode.len() > 0 { Verdict7::Envid } else { Verdict7::Inconnu },
            _ => Verdict7::Inconnu,
        };
    }
    if egaux_sans_casse(cle, "SIZE".as_bytes()) {
        return match &parametre.value {
            Some(valeur) => match crate::digits::decimal_u64(valeur.as_slice()) {
                Some(taille) => if taille > max_message { Verdict7::TropGros } else { Verdict7::Compris },
                None => Verdict7::Inconnu,
            },
            None => Verdict7::Inconnu,
        };
    }
    if egaux_sans_casse(cle, "BODY".as_bytes()) {
        return match &parametre.value {
            Some(valeur) => if egaux_sans_casse(valeur.as_slice(), "8BITMIME".as_bytes())
                || egaux_sans_casse(valeur.as_slice(), "7BIT".as_bytes()) {
                Verdict7::Compris
            } else {
                Verdict7::Inconnu
            },
            None => Verdict7::Inconnu,
        };
    }
    if egaux_sans_casse(cle, "AUTH".as_bytes()) {
        return Verdict7::Compris;
    }
    Verdict7::Inconnu
}

/// `a + b`, saturating at the bound of the type.
fn ajouter_sature(a: u64, b: usize) -> (r: u64)
    ensures
        r == etat::plus_sature(a, b as nat),
{
    let b = b as u64;
    if b > u64::MAX - a {
        u64::MAX
    } else {
        a + b
    }
}

/// Whether `a` is an answer the policy may give to these credentials. With
/// none, nothing is asked and nothing is granted.
pub open spec fn accord_possible<P: Policy>(policy: P, credentials: Option<Credentials>, a: bool) -> bool {
    match credentials {
        Some(c) => reponse_possible(policy, c, a),
        None => !a,
    }
}

/// Whether `v` and `a` are what the policy may answer, for the command that
/// asks it: the verdict on the forward path, given whether the session is
/// authenticated, and the answer on the credentials of `AUTH`.
pub open spec fn reponses_de_la_politique<P: Policy>(
    policy: P,
    e: Etat,
    cfg: Config,
    commande: Result<Command, ParseFault>,
    v: RecipientVerdict,
    a: bool,
) -> bool {
    prend_les_commandes(e.phase) ==> match commande {
        Ok(Command::Rcpt { forward_path, parameters }) => rcpt_consulte(e, cfg, parameters@)
            ==> policy.verdict_possible(forward_path, e.authenticated, v),
        Ok(Command::Auth { mechanism, initial_response, credentials }) =>
            auth_consulte(e, cfg, mechanism@, initial_response.is_some())
                ==> accord_possible(policy, credentials, a),
        _ => true,
    }
}

/// The part of an SMTP session that a step never changes.
pub open spec fn meme_cadre<P: Policy>(a: SmtpSession<P>, b: SmtpSession<P>) -> bool {
    a.spec_config() == b.spec_config() && a.spec_policy() == b.spec_policy()
}

/// An SMTP server session.
///
/// It does no input nor output: it receives one command, hands back what to
/// answer and what to do, and never waits. It never echoes what the peer
/// sent.
pub struct SmtpSession<P: Policy> {
    config: Config,
    policy: P,
    phase: Phase,
    tls: bool,
    authenticated: bool,
    envid: Vec<u8>,
    sauts: Sauts,
    octets: u64,
    esmtp: bool,
    recipients: Recipients,
    helo: Tampon<DOMAIN_MAX>,
    expediteur: Tampon<SENDER_MAX>,
    chemin_de_retour: Tampon<SENDER_MAX>,
    compte: Tampon<LOGIN_MAX>,
    depose: Tampon<SENDER_MAX>,
    depose_vu: bool,
    domaine_verifie: Tampon<DOMAIN_MAX>,
    verdict: Option<SenderVerdict>,
    identite_helo: bool,
}

impl<P: Policy> SmtpSession<P> {
    /// What the session holds.
    pub closed spec fn view(self) -> Etat {
        Etat {
            phase: self.phase,
            tls: self.tls,
            authenticated: self.authenticated,
            envid: self.envid@,
            sauts: self.sauts,
            octets: self.octets,
            esmtp: self.esmtp,
            recipients: self.recipients@,
            helo: self.helo.view(),
            expediteur: self.expediteur.view(),
            chemin_de_retour: self.chemin_de_retour.view(),
            compte: self.compte.view(),
            depose: self.depose.view(),
            depose_vu: self.depose_vu,
            domaine_verifie: self.domaine_verifie.view(),
            verdict: self.verdict,
            identite_helo: self.identite_helo,
        }
    }

    /// The configuration it was opened with.
    pub closed spec fn spec_config(self) -> Config {
        self.config
    }

    /// The policy it was opened with.
    pub closed spec fn spec_policy(self) -> P {
        self.policy
    }

    /// Opens a session. It cannot be opened without a policy: the decision
    /// to accept a recipient has no default, because its default would be an
    /// open relay.
    pub fn new(config: Config, policy: P) -> (s: Self)
        ensures
            s@ == etat_initial(),
            s.spec_config() == config,
            s.spec_policy() == policy,
    {
        SmtpSession {
            config,
            policy,
            phase: Phase::Greeted,
            tls: false,
            authenticated: false,
            envid: Vec::new(),
            sauts: Sauts::new(),
            octets: 0,
            esmtp: false,
            recipients: Recipients::new(),
            helo: Tampon::vide(),
            expediteur: Tampon::vide(),
            chemin_de_retour: Tampon::vide(),
            compte: Tampon::vide(),
            depose: Tampon::vide(),
            depose_vu: false,
            domaine_verifie: Tampon::vide(),
            verdict: None,
            identite_helo: false,
        }
    }

    /// The configuration.
    pub fn config(&self) -> (r: &Config)
        ensures
            *r == self.spec_config(),
    {
        &self.config
    }

    /// The banner, to send before any command.
    pub fn greeting(&self) -> (r: Reponse)
        ensures
            r == Reponse::Banniere,
    {
        Reponse::Banniere
    }

    /// The reply to send before closing a connection that cannot be served.
    /// It comes from the session: a `421` made by the caller would be the
    /// first leak of protocol out of the crates without input and output.
    pub fn unavailable(&self) -> (r: Reponse)
        ensures
            r == (Reponse::Ligne { code: Code::ServiceClosing, texte: Texte::ServiceNotAvailable }),
    {
        Reponse::Ligne { code: Code::ServiceClosing, texte: Texte::ServiceNotAvailable }
    }

    /// The transaction left: everything it held is forgotten, the recipients
    /// first. Five paths leave a transaction, and all go through here.
    fn quitter_la_transaction(&mut self)
        ensures
            final(self)@ == quitter(old(self)@),
            meme_cadre(*final(self), *old(self)),
    {
        self.phase = Phase::Identified;
        self.recipients.clear();
        self.sauts = Sauts::new();
        self.envid = Vec::new();
        self.octets = 0;
        self.expediteur.vider();
        self.chemin_de_retour.vider();
        self.depose.vider();
        self.depose_vu = false;
        self.domaine_verifie.vider();
        self.verdict = None;
        assert(self.envid@ =~= Seq::<u8>::empty());
    }

    /// The TLS handshake succeeded. The WHOLE session starts over: what a
    /// peer said in the clear may have been said by someone else.
    pub fn on_tls_established(&mut self)
        ensures
            final(self)@ == apres_tls(old(self)@),
            meme_cadre(*final(self), *old(self)),
    {
        self.tls = true;
        self.authenticated = false;
        self.compte.vider();
        self.quitter_la_transaction();
        self.phase = Phase::Greeted;
    }

    /// A one-line reply, without action nor fault.
    fn simple(code: Code, texte: Texte) -> (r: Turn)
        ensures
            r == simple(code, texte),
    {
        Turn { reply: Some(Reponse::Ligne { code, texte }), action: Action::Continue, peer_fault: false, refused_recipient: false }
    }

    /// A one-line reply that sanctions a fault of the peer.
    fn refus(code: Code, texte: Texte) -> (r: Turn)
        ensures
            r == refus(code, texte),
    {
        Turn { reply: Some(Reponse::Ligne { code, texte }), action: Action::Continue, peer_fault: true, refused_recipient: false }
    }

    /// A one-line reply with an action.
    fn finir(code: Code, texte: Texte, action: Action) -> (r: Turn)
        ensures
            r == tour(code, texte, action, false),
    {
        Turn { reply: Some(Reponse::Ligne { code, texte }), action, peer_fault: false, refused_recipient: false }
    }

    /// A turn that answers nothing yet.
    fn muet(action: Action) -> (r: Turn)
        ensures
            r == muet(action),
    {
        Turn { reply: None, action, peer_fault: false, refused_recipient: false }
    }

    /// A reply that refuses a recipient for good: no fault of the peer.
    fn refus_de_destinataire(code: Code, texte: Texte) -> (r: Turn)
        ensures
            r == refus_de_destinataire(code, texte),
    {
        Turn { reply: Some(Reponse::Ligne { code, texte }), action: Action::Continue, peer_fault: false, refused_recipient: true }
    }

    /// The reply that each fault of the data imposes. One place decides it.
    pub fn refus_de_morceau(&self, cause: DataFault) -> (r: Turn)
        ensures
            r == refus_de_faute(cause),
    {
        match cause {
            DataFault::BareLineEnding => Self::refus(Code::TransactionFailed, Texte::BareLineEnding),
            DataFault::LineTooLong { .. } => Self::refus(Code::SyntaxError, Texte::LineTooLong),
            DataFault::MessageTooLarge { .. } => Self::refus(Code::MessageTooLarge, Texte::MessageTooLarge),
        }
    }

    /// Translates a fault of the grammar into a reply. The detail never goes
    /// back to the peer: it knows what it sent.
    fn on_parse_error(faute: ParseFault) -> (r: Turn)
        ensures
            r == refus_d_analyse(faute),
    {
        match faute {
            ParseFault::LineTooLong => Self::refus(Code::SyntaxError, Texte::LineTooLong),
            ParseFault::MalformedLineEnding => Self::refus(Code::SyntaxError, Texte::LineMustEndWithCrlf),
            ParseFault::UnknownVerb => Self::refus(Code::SyntaxError, Texte::CommandNotRecognised),
            ParseFault::ObsoleteVerb => Self::refus(Code::NotImplemented, Texte::CommandNotImplemented),
            ParseFault::BadArguments => Self::refus(Code::ArgumentError, Texte::SyntaxErrorInArguments),
        }
    }

    /// Keeps the name given, if it is one: an address literal names no zone,
    /// and forgets the previous name rather than keep it.
    pub fn retenir_le_helo(&mut self, client: &ClientId)
        ensures
            final(self)@ == (Etat { helo: etat::helo_retenu(*client), ..old(self)@ }),
            meme_cadre(*final(self), *old(self)),
    {
        match client {
            ClientId::Domain(nom) => {
                let _ = self.helo.poser_un(nom.as_slice());
            },
            ClientId::AddressLiteral(_) => {
                self.helo.vider();
            },
        }
    }

    /// `EHLO`: cancels the transaction in progress (RFC 5321 §4.1.4), and
    /// announces the extensions actually served.
    fn on_ehlo(&mut self, client: &ClientId) -> (r: Result<Turn, Error>)
        ensures
            (r, final(self)@) == apres_ehlo(old(self)@, old(self).spec_config(), *client),
            meme_cadre(*final(self), *old(self)),
    {
        self.quitter_la_transaction();
        self.esmtp = true;
        self.retenir_le_helo(client);
        let caps = self.config.capabilities();
        Ok(Turn {
            reply: Some(Reponse::Ehlo { starttls: caps.starttls && !self.tls, auth: caps.auth && self.tls, dsn: caps.dsn }),
            action: Action::Continue,
            peer_fault: false,
            refused_recipient: false,
        })
    }

    /// `HELO`: accepted, announcing nothing.
    fn on_helo(&mut self, nom: &Vec<u8>) -> (r: Result<Turn, Error>)
        ensures
            (r, final(self)@) == apres_helo(old(self)@, nom@),
            meme_cadre(*final(self), *old(self)),
    {
        self.quitter_la_transaction();
        self.esmtp = false;
        let _ = self.helo.poser_un(nom.as_slice());
        Ok(Turn { reply: Some(Reponse::Helo), action: Action::Continue, peer_fault: false, refused_recipient: false })
    }

    /// Keeps the reverse-path as written, and as the address a report would
    /// return to.
    fn retenir_le_chemin_de_retour(&mut self, reverse_path: &Path)
        ensures
            final(self)@ == retenir_chemin(old(self)@, *reverse_path),
            meme_cadre(*final(self), *old(self)),
    {
        self.chemin_de_retour.vider();
        self.depose.vider();
        self.depose_vu = true;
        if let Path::Mailbox(boite) = reverse_path {
            let tableau: [u8; 1] = [64u8];
            let arobase: &[u8] = tableau.as_slice();
            assert(arobase@ =~= seq![64u8]);
            let local = boite.local_part.as_slice();
            let _ = self.depose.poser_trois(local, arobase, boite.domain.as_bytes());
            if let ClientId::Domain(domaine) = &boite.domain {
                let _ = self.chemin_de_retour.poser_trois(local, arobase, domaine.as_slice());
            }
        }
    }

    /// Keeps the identity to check, and says whether there is one.
    pub fn retenir_l_expediteur(&mut self, reverse_path: &Path) -> (r: bool)
        ensures
            (r, final(self)@) == retenir_expediteur(old(self)@, old(self).spec_config(), *reverse_path),
            meme_cadre(*final(self), *old(self)),
    {
        // A submission is not checked by SPF: `fail` is the NORMAL result of a
        // legitimate submission from a laptop or a hotel.
        if self.authenticated || self.config.sender_policy() == SenderPolicy::Ignore {
            return false;
        }
        let tableau: [u8; 1] = [64u8];
        let arobase: &[u8] = tableau.as_slice();
        assert(arobase@ =~= seq![64u8]);
        match reverse_path {
            Path::Mailbox(boite) => match &boite.domain {
                ClientId::Domain(domaine) => {
                    self.identite_helo = false;
                    let tenu = self.domaine_verifie.poser_un(domaine.as_slice());
                    if tenu {
                        self.expediteur.poser_trois(boite.local_part.as_slice(), arobase, domaine.as_slice())
                    } else {
                        false
                    }
                },
                ClientId::AddressLiteral(_) => false,
            },
            // RFC 7208 §2.4: the null sender is checked on the `HELO` name.
            Path::Null => {
                self.identite_helo = true;
                if self.helo.est_vide() {
                    return false;
                }
                let tenu = self.domaine_verifie.poser_un(self.helo.as_bytes());
                if tenu {
                    self.expediteur.poser_deux("postmaster@".as_bytes(), self.helo.as_bytes())
                } else {
                    false
                }
            },
            Path::Postmaster => false,
        }
    }

    /// `MAIL FROM:`: opens a transaction. The parameters are sorted BEFORE
    /// it opens: refusing after would leave a transaction begun that the peer
    /// believes closed.
    fn on_mail(&mut self, reverse_path: &Path, parameters: &Vec<Parameter>) -> (r: Result<Turn, Error>)
        ensures
            (r, final(self)@) == apres_mail(old(self)@, old(self).spec_config(), *reverse_path, parameters@),
            meme_cadre(*final(self), *old(self)),
    {
        match self.phase {
            Phase::Greeted => return Ok(Self::refus(Code::BadSequence, Texte::SendEhloFirst)),
            Phase::Transaction { .. } => return Ok(Self::refus(Code::BadSequence, Texte::NestedMail)),
            _ => {},
        }
        let max_message = self.config.max_message_octets();
        let dsn = self.config.capabilities().dsn;
        let mut envid: Vec<u8> = Vec::new();
        let mut i: usize = 0;
        while i < parameters.len()
            invariant
                i <= parameters@.len(),
                fouille_mail(parameters@.take(i as int), max_message, dsn) == (FouilleMail { refus: None, envid: envid@ }),
                *self == *old(self),
                max_message == self.spec_config().spec_max_message_octets(),
                dsn == self.spec_config().spec_capabilities().dsn,
                self@.phase != Phase::Greeted,
                !(self@.phase is Transaction),
            decreases parameters@.len() - i,
        {
            let parametre = &parameters[i];
            assert(parameters@.take(i + 1).drop_last() =~= parameters@.take(i as int));
            assert(parameters@.take(i + 1).last() == parameters@[i as int]);
            match verdict_du_parametre_mail(parametre, max_message, dsn) {
                Verdict7::Compris => {},
                Verdict7::Envid => {
                    if let Some(decode) = &parametre.lecture.xtext {
                        envid = copier(decode.as_slice());
                    }
                },
                Verdict7::TropGros => {
                    proof { etat::lemme_fouille_mail_arretee(parameters@, i + 1, max_message, dsn); }
                    return Ok(Self::refus(Code::MessageTooLarge, Texte::MessageTooLarge));
                },
                Verdict7::Inconnu => {
                    proof { etat::lemme_fouille_mail_arretee(parameters@, i + 1, max_message, dsn); }
                    return Ok(Self::refus(Code::ParameterNotImplemented, Texte::ParameterNotRecognised));
                },
            }
            i = i + 1;
        }
        assert(parameters@.take(i as int) =~= parameters@);
        self.phase = Phase::Transaction { recipients: 0, chunked: false };
        self.envid = envid;
        self.retenir_le_chemin_de_retour(reverse_path);
        if self.retenir_l_expediteur(reverse_path) {
            // The identity can be checked: the caller resolves, and the session
            // says nothing until it knows.
            Ok(Self::muet(Action::CheckSender))
        } else {
            Ok(Self::simple(Code::Completed, Texte::SenderOk))
        }
    }

    /// Keeps an accepted recipient as `local@domain`. A bare `<Postmaster>`
    /// takes the domain of this server: the session is the one place that
    /// knows it. `<>` is no recipient.
    pub fn retenir(&mut self, forward_path: &Path) -> (r: bool)
        ensures
            match etat::adresse_du_destinataire(old(self).spec_config(), *forward_path) {
                Some(a) => {
                    &&& r == crate::recipients::tient(old(self)@.recipients, a)
                    &&& r ==> final(self)@ == (Etat {
                        recipients: crate::recipients::avec_adresse(old(self)@.recipients, a),
                        ..old(self)@
                    })
                    &&& !r ==> final(self)@ == old(self)@
                },
                None => !r && final(self)@ == old(self)@,
            },
            meme_cadre(*final(self), *old(self)),
    {
        let tableau: [u8; 1] = [64u8];
        let arobase: &[u8] = tableau.as_slice();
        assert(arobase@ =~= seq![64u8]);
        match forward_path {
            Path::Mailbox(boite) => {
                let m: [&[u8]; 3] = [boite.local_part.as_slice(), arobase, boite.domain.as_bytes()];
                assert(crate::tampon::vues(m@) =~= seq![boite.local_part@, seq![64u8], boite.domain.spec_octets()]);
                proof { lemme_morceaux(boite.local_part@, seq![64u8], boite.domain.spec_octets()); }
                self.recipients.push(&m)
            },
            Path::Postmaster => {
                let m: [&[u8]; 3] = ["postmaster".as_bytes(), arobase, self.config.domain()];
                assert(crate::tampon::vues(m@) =~= seq![etat::mot("postmaster"@), seq![64u8], self.config.spec_domain()]);
                proof { lemme_morceaux(etat::mot("postmaster"@), seq![64u8], self.config.spec_domain()); }
                self.recipients.push(&m)
            },
            Path::Null => false,
        }
    }

    /// What the verdict of the policy makes of a recipient, in a transaction
    /// with room for one more. The address is kept only if it fits:
    /// truncated, it would deliver the message to someone else.
    pub fn conclure_le_destinataire(
        &mut self,
        forward_path: &Path,
        notify: Notify,
        orcpt: &[u8],
        verdict: RecipientVerdict,
    ) -> (r: Result<Turn, Error>)
        requires
            attend_un_verdict(old(self)@, old(self).spec_config()),
        ensures
            (r, final(self)@) == conclure_rcpt(old(self)@, old(self).spec_config(), *forward_path, notify, orcpt@, verdict),
            meme_cadre(*final(self), *old(self)),
    {
        match verdict {
            RecipientVerdict::Accept => {
                let (recipients, chunked) = match self.phase {
                    Phase::Transaction { recipients, chunked } => (recipients, chunked),
                    _ => (0, false),
                };
                if !self.retenir(forward_path) {
                    return Ok(Self::simple(Code::TooManyRecipients, Texte::TooManyRecipients));
                }
                self.recipients.poser_le_rapport(notify, orcpt);
                self.phase = Phase::Transaction { recipients: recipients + 1, chunked };
                Ok(Self::simple(Code::Completed, Texte::RecipientOk))
            },
            RecipientVerdict::RejectPermanent => Ok(Self::refus_de_destinataire(Code::MailboxUnavailable, Texte::MailboxUnavailable)),
            RecipientVerdict::RejectTemporary => Ok(Self::simple(Code::MailboxBusy, Texte::MailboxBusy)),
            // A relay denied also answers whoever harvests: "not here" says as
            // much as "not this mailbox".
            RecipientVerdict::RelayDenied => Ok(Self::refus_de_destinataire(Code::MailboxUnavailable, Texte::RelayAccessDenied)),
        }
    }

    /// `RCPT TO:`: the one command the session does not decide alone.
    /// `NOTIFY` and `ORCPT` are per recipient, and only when `DSN` is
    /// announced.
    fn on_rcpt(&mut self, forward_path: &Path, parameters: &Vec<Parameter>) -> (r: Result<Turn, Error>)
        ensures
            exists|v: RecipientVerdict|
                #[trigger] apres_rcpt(old(self)@, old(self).spec_config(), *forward_path, parameters@, v) == (r, final(self)@)
                && (rcpt_consulte(old(self)@, old(self).spec_config(), parameters@)
                    ==> old(self).spec_policy().verdict_possible(*forward_path, old(self)@.authenticated, v)),
            meme_cadre(*final(self), *old(self)),
    {
        let dsn = self.config.capabilities().dsn;
        let mut notify = Notify::defaut();
        let mut orcpt: Vec<u8> = Vec::new();
        let mut i: usize = 0;
        while i < parameters.len()
            invariant
                i <= parameters@.len(),
                fouille_rcpt(parameters@.take(i as int), dsn) == (FouilleRcpt { refus: false, notify, orcpt: orcpt@ }),
                *self == *old(self),
                dsn == self.spec_config().spec_capabilities().dsn,
            decreases parameters@.len() - i,
        {
            let parametre = &parameters[i];
            assert(parameters@.take(i + 1).drop_last() =~= parameters@.take(i as int));
            assert(parameters@.take(i + 1).last() == parameters@[i as int]);
            let cle = parametre.keyword.as_slice();
            let servi = if egaux_sans_casse(cle, "NOTIFY".as_bytes()) {
                match (&parametre.value, &parametre.lecture.notify) {
                    (Some(_), Some(lu)) => if dsn {
                        notify = *lu;
                        true
                    } else {
                        false
                    },
                    _ => false,
                }
            } else if egaux_sans_casse(cle, "ORCPT".as_bytes()) {
                match (&parametre.value, &parametre.lecture.orcpt) {
                    (Some(_), Some(lu)) => if dsn {
                        orcpt = copier(lu.as_slice());
                        true
                    } else {
                        false
                    },
                    _ => false,
                }
            } else {
                false
            };
            if !servi {
                proof { etat::lemme_fouille_rcpt_arretee(parameters@, i + 1, dsn); }
                let r = Ok(Self::refus(Code::ParameterNotImplemented, Texte::ParameterNotRecognised));
                assert(apres_rcpt(old(self)@, old(self).spec_config(), *forward_path, parameters@, RecipientVerdict::Accept) == (r, self@));
                return r;
            }
            i = i + 1;
        }
        assert(parameters@.take(i as int) =~= parameters@);
        let recipients = match self.phase {
            Phase::Transaction { recipients, .. } => recipients,
            _ => {
                let r = Ok(Self::refus(Code::BadSequence, Texte::NeedMailBeforeRcpt));
                assert(apres_rcpt(old(self)@, old(self).spec_config(), *forward_path, parameters@, RecipientVerdict::Accept) == (r, self@));
                return r;
            },
        };
        if recipients >= self.config.max_recipients() {
            let r = Ok(Self::simple(Code::TooManyRecipients, Texte::TooManyRecipients));
            assert(apres_rcpt(old(self)@, old(self).spec_config(), *forward_path, parameters@, RecipientVerdict::Accept) == (r, self@));
            return r;
        }
        let verdict = self.policy.accepts_recipient(forward_path, self.authenticated);
        let r = self.conclure_le_destinataire(forward_path, notify, orcpt.as_slice(), verdict);
        assert(apres_rcpt(old(self)@, old(self).spec_config(), *forward_path, parameters@, verdict) == (r, self@));
        r
    }

    /// `DATA`: at least one accepted recipient. `BDAT` and `DATA` fight over
    /// the same message: whichever began ends it.
    fn on_data(&mut self) -> (r: Result<Turn, Error>)
        ensures
            (r, final(self)@) == apres_data(old(self)@),
            meme_cadre(*final(self), *old(self)),
    {
        match self.phase {
            Phase::Transaction { chunked: true, .. } => Ok(Self::refus(Code::BadSequence, Texte::BdatAlreadyStarted)),
            Phase::Transaction { recipients, .. } => if recipients > 0 {
                self.phase = Phase::Data;
                // A fresh receiver for each message: that of the previous one
                // carries its counters.
                self.octets = 0;
                Ok(Self::finir(Code::StartMailInput, Texte::StartMailInput, Action::ReceiveData))
            } else {
                Ok(Self::refus(Code::BadSequence, Texte::NeedRcptBeforeData))
            },
            _ => Ok(Self::refus(Code::BadSequence, Texte::NeedRcptBeforeData)),
        }
    }

    /// `BDAT size [LAST]` (RFC 3030 §2): at least one recipient. The turn
    /// answers nothing: §2 wants the `250` AFTER the bytes.
    fn on_bdat(&mut self, size: u64, last: bool) -> (r: Result<Turn, Error>)
        ensures
            (r, final(self)@) == apres_bdat(old(self)@, size, last),
            meme_cadre(*final(self), *old(self)),
    {
        match self.phase {
            Phase::Transaction { recipients, chunked } => if recipients == 0 {
                Ok(Self::refus(Code::BadSequence, Texte::NeedRcptBeforeBdat))
            } else {
                // A fresh receiver at the FIRST chunk only: the next ones go on
                // with the same message.
                if !chunked {
                    self.octets = 0;
                }
                self.phase = Phase::ChunkPending { recipients, size, last };
                Ok(Self::muet(Action::BeginChunk { size, last, fresh: !chunked }))
            },
            _ => Ok(Self::refus(Code::BadSequence, Texte::NeedMailAndRcptBeforeBdat)),
        }
    }

    /// `STARTTLS` (RFC 3207 §4).
    fn on_starttls(&self) -> (r: Result<Turn, Error>)
        ensures
            (r, self@) == apres_starttls(self@, self.spec_config()),
    {
        if !self.config.capabilities().starttls {
            return Ok(Self::refus(Code::NotImplemented, Texte::CommandNotImplemented));
        }
        if self.tls {
            return Ok(Self::refus(Code::BadSequence, Texte::TlsAlreadyActive));
        }
        if self.phase == Phase::Greeted {
            return Ok(Self::refus(Code::BadSequence, Texte::SendEhloFirst));
        }
        Ok(Self::finir(Code::ServiceReady, Texte::ReadyToStartTls, Action::StartTls))
    }

    /// The end of a SASL exchange: granted to `compte`, or refused. The
    /// refusal does not say what failed: "unknown user" and "wrong password"
    /// are two answers, and their difference is a directory for whoever
    /// measures it.
    pub fn conclure_l_authentification(&mut self, compte: Option<&[u8]>) -> (r: Result<Turn, Error>)
        ensures
            (r, final(self)@) == conclure_auth(old(self)@, match compte { Some(c) => Some(c@), None => None }),
            meme_cadre(*final(self), *old(self)),
    {
        self.phase = Phase::Identified;
        match compte {
            Some(nom) => {
                // WHO authenticated is kept, not only THAT someone did. A name
                // that does not fit leaves the buffer empty.
                let _ = self.compte.poser_un(nom);
                self.authenticated = true;
                Ok(Self::simple(Code::AuthSucceeded, Texte::AuthenticationSuccessful))
            },
            None => {
                self.authenticated = false;
                Ok(Self::refus(Code::AuthFailed, Texte::AuthenticationCredentialsInvalid))
            },
        }
    }

    /// What the answer of the policy on credentials makes of a SASL
    /// exchange: the account is granted when the policy accepts them, and
    /// only then. Without credentials nothing is granted.
    pub fn apres_authentification(&mut self, credentials: &Option<Credentials>, accorde: bool) -> (r: Result<Turn, Error>)
        ensures
            (r, final(self)@) == conclure_auth(old(self)@, compte_accorde(*credentials, accorde)),
            meme_cadre(*final(self), *old(self)),
    {
        match credentials {
            Some(c) => if accorde {
                self.conclure_l_authentification(Some(c.authentication_identity.as_slice()))
            } else {
                self.conclure_l_authentification(None)
            },
            None => self.conclure_l_authentification(None),
        }
    }

    /// Asks the policy about the credentials, and concludes.
    fn regler_authentification(&mut self, credentials: &Option<Credentials>) -> (r: Result<Turn, Error>)
        ensures
            exists|a: bool|
                #[trigger] conclure_auth(old(self)@, compte_accorde(*credentials, a)) == (r, final(self)@)
                && accord_possible(old(self).spec_policy(), *credentials, a),
            meme_cadre(*final(self), *old(self)),
    {
        let accorde = match credentials {
            Some(c) => self.policy.authenticate(c),
            None => false,
        };
        let ghost a = accorde;
        let r = self.apres_authentification(credentials, accorde);
        assert(conclure_auth(old(self)@, compte_accorde(*credentials, a)) == (r, self@));
        r
    }

    /// `AUTH` (RFC 4954): refused outside encryption, and that is no setting:
    /// a password sent in the clear is read by whoever watches the packets.
    fn on_auth(
        &mut self,
        mechanism: &Vec<u8>,
        initial_response: &Option<Vec<u8>>,
        credentials: &Option<Credentials>,
    ) -> (r: Result<Turn, Error>)
        ensures
            exists|a: bool| #[trigger] apres_auth(
                old(self)@,
                old(self).spec_config(),
                mechanism@,
                initial_response.is_some(),
                *credentials,
                a,
            ) == (r, final(self)@)
                && (auth_consulte(old(self)@, old(self).spec_config(), mechanism@, initial_response.is_some())
                    ==> accord_possible(old(self).spec_policy(), *credentials, a)),
            meme_cadre(*final(self), *old(self)),
    {
        let ghost e = self@;
        let ghost cfg = self.spec_config();
        let ghost initial = initial_response.is_some();
        if !self.config.capabilities().auth {
            let r = Ok(Self::refus(Code::NotImplemented, Texte::CommandNotImplemented));
            assert(apres_auth(e, cfg, mechanism@, initial, *credentials, false) == (r, self@));
            return r;
        }
        if !self.tls {
            let r = Ok(Self::refus(Code::EncryptionRequired, Texte::EncryptionRequired));
            assert(apres_auth(e, cfg, mechanism@, initial, *credentials, false) == (r, self@));
            return r;
        }
        if self.authenticated {
            let r = Ok(Self::refus(Code::BadSequence, Texte::AlreadyAuthenticated));
            assert(apres_auth(e, cfg, mechanism@, initial, *credentials, false) == (r, self@));
            return r;
        }
        if self.phase == Phase::Greeted {
            let r = Ok(Self::refus(Code::BadSequence, Texte::SendEhloFirst));
            assert(apres_auth(e, cfg, mechanism@, initial, *credentials, false) == (r, self@));
            return r;
        }
        // `504` and not `502`: `AUTH` is served, the mechanism is not.
        if !egaux(mechanism.as_slice(), "PLAIN".as_bytes()) {
            let r = Ok(Self::refus(Code::ParameterNotImplemented, Texte::UnrecognizedAuthenticationType));
            assert(apres_auth(e, cfg, mechanism@, initial, *credentials, false) == (r, self@));
            return r;
        }
        match initial_response {
            // With an initial response, NO challenge (RFC 4954 §4).
            Some(_) => {
                let r = self.regler_authentification(credentials);
                let ghost a = choose|a: bool|
                    #[trigger] conclure_auth(e, compte_accorde(*credentials, a)) == (r, self@)
                    && accord_possible(old(self).spec_policy(), *credentials, a);
                assert(apres_auth(e, cfg, mechanism@, initial, *credentials, a) == (r, self@));
                r
            },
            None => {
                self.phase = Phase::Auth;
                // The challenge of `PLAIN` is EMPTY.
                let r = Ok(Self::finir(Code::AuthChallenge, Texte::Nothing, Action::ReadAuthResponse));
                assert(apres_auth(e, cfg, mechanism@, initial, *credentials, false) == (r, self@));
                r
            },
        }
    }

    /// Handles a command line, as the grammar read it.
    ///
    /// A peer that sends anything at all gets a reply, never an error. For
    /// `RCPT TO:` the reply is that of the verdict of the policy, and for
    /// `AUTH` with an initial response, that of its verdict on the
    /// credentials; everything else is decided here alone.
    pub fn handle(&mut self, commande: Result<Command, ParseFault>) -> (r: Result<Turn, Error>)
        ensures
            exists|v: RecipientVerdict, a: bool|
                #[trigger] apres_commande(old(self)@, old(self).spec_config(), commande, v, a) == (r, final(self)@)
                && reponses_de_la_politique(old(self).spec_policy(), old(self)@, old(self).spec_config(), commande, v, a),
            !(commande matches Ok(Command::Rcpt { .. })) && !(commande matches Ok(Command::Auth { .. })) ==>
                apres_commande(old(self)@, old(self).spec_config(), commande, RecipientVerdict::Accept, false)
                    == (r, final(self)@),
            meme_cadre(*final(self), *old(self)),
    {
        let ghost e = self@;
        let ghost cfg = self.spec_config();
        match self.phase {
            Phase::Closed => {
                let r = Err(Error::SessionClosed);
                assert(apres_commande(e, cfg, commande, RecipientVerdict::Accept, false) == (r, self@));
                return r;
            },
            Phase::Greeted | Phase::Identified | Phase::Transaction { .. } => {},
            _ => {
                let r = Err(Error::NotInCommandPhase);
                assert(apres_commande(e, cfg, commande, RecipientVerdict::Accept, false) == (r, self@));
                return r;
            },
        }
        let ghost mut v0 = RecipientVerdict::Accept;
        let ghost mut a0 = false;
        let r = match &commande {
            Err(faute) => Ok(Self::on_parse_error(*faute)),
            Ok(Command::Ehlo(client)) => self.on_ehlo(client),
            Ok(Command::Helo(nom)) => self.on_helo(nom),
            Ok(Command::Mail { reverse_path, parameters }) => self.on_mail(reverse_path, parameters),
            Ok(Command::Rcpt { forward_path, parameters }) => {
                let r = self.on_rcpt(forward_path, parameters);
                proof {
                    v0 = choose|v: RecipientVerdict|
                        #[trigger] apres_rcpt(e, cfg, *forward_path, parameters@, v) == (r, self@)
                        && (rcpt_consulte(e, cfg, parameters@)
                            ==> old(self).spec_policy().verdict_possible(*forward_path, e.authenticated, v));
                }
                r
            },
            Ok(Command::Data) => self.on_data(),
            Ok(Command::Bdat { size, last }) => self.on_bdat(*size, *last),
            Ok(Command::Rset) => {
                self.quitter_la_transaction();
                Ok(Self::simple(Code::Completed, Texte::ResetOk))
            },
            Ok(Command::Noop) => Ok(Self::simple(Code::Completed, Texte::Okay)),
            Ok(Command::Quit) => {
                self.phase = Phase::Closed;
                Ok(Self::finir(Code::Closing, Texte::Bye, Action::Close))
            },
            Ok(Command::StartTls) => self.on_starttls(),
            Ok(Command::Auth { mechanism, initial_response, credentials }) => {
                let r = self.on_auth(mechanism, initial_response, credentials);
                proof {
                    a0 = choose|a: bool|
                        #[trigger] apres_auth(e, cfg, mechanism@, initial_response.is_some(), *credentials, a) == (r, self@)
                        && (auth_consulte(e, cfg, mechanism@, initial_response.is_some())
                            ==> accord_possible(old(self).spec_policy(), *credentials, a));
                }
                r
            },
            Ok(Command::Vrfy) => Ok(Self::simple(Code::CannotVerify, Texte::CannotVerify)),
            // `EXPN` publishes the members of a list; RFC 5321 §7.3 allows not
            // to serve it.
            Ok(Command::Expn) => Ok(Self::simple(Code::NotImplemented, Texte::ExpnNotAvailable)),
            Ok(Command::Help) => Ok(Self::simple(Code::HelpMessage, Texte::SeeRfc)),
        };
        assert(apres_commande(e, cfg, commande, v0, a0) == (r, self@));
        assert(reponses_de_la_politique(old(self).spec_policy(), e, cfg, commande, v0, a0));
        r
    }

    /// The line the peer answered the SASL challenge with, CRLF removed, and
    /// what the `PLAIN` reading of its base64 gives, if anything.
    ///
    /// `*` cancels the exchange (RFC 4954 §4): no fault of the peer.
    pub fn feed_auth(&mut self, response: &[u8], credentials: Option<Credentials>) -> (r: Result<Turn, Error>)
        ensures
            exists|a: bool|
                #[trigger] apres_reponse_sasl(old(self)@, response@, credentials, a) == (r, final(self)@)
                && (sasl_consulte(old(self)@, response@) ==> accord_possible(old(self).spec_policy(), credentials, a)),
            meme_cadre(*final(self), *old(self)),
    {
        let ghost e = self@;
        if self.phase != Phase::Auth {
            let r = Err(Error::NotInAuthExchange);
            assert(apres_reponse_sasl(e, response@, credentials, false) == (r, self@));
            return r;
        }
        if response.len() == 1 && response[0] == 42u8 {
            assert(response@ =~= seq![42u8]);
            self.phase = Phase::Identified;
            let r = Ok(Self::simple(Code::ArgumentError, Texte::AuthenticationAborted));
            assert(apres_reponse_sasl(e, response@, credentials, false) == (r, self@));
            return r;
        }
        assert(response@ != seq![42u8]) by {
            if response@ == seq![42u8] {
                assert(response@[0] == 42u8);
            }
        }
        let r = self.regler_authentification(&credentials);
        let ghost a = choose|a: bool|
            #[trigger] conclure_auth(e, compte_accorde(credentials, a)) == (r, self@)
            && accord_possible(old(self).spec_policy(), credentials, a);
        assert(apres_reponse_sasl(e, response@, credentials, a) == (r, self@));
        r
    }

    /// The message was read: the reply to send. The transaction ends here,
    /// and the peer may go on with another `MAIL` without naming itself again.
    ///
    /// A message refused by the grammar, or looping, cannot be accepted: the
    /// verdict is not consulted, and a careless caller cannot deliver what
    /// the decoder rejected.
    pub fn on_data_settled(&mut self, outcome: DataOutcome) -> (r: Result<Turn, Error>)
        ensures
            (r, final(self)@) == apres_message(old(self)@, outcome),
            meme_cadre(*final(self), *old(self)),
    {
        let refus = match self.phase {
            Phase::Looped => {
                self.quitter_la_transaction();
                return Ok(Self::refus(Code::TransactionFailed, Texte::TooManyHops));
            },
            Phase::Data => None,
            Phase::Chunk { last: true, .. } => None,
            Phase::DataFailed(cause) => Some(cause),
            Phase::ChunkFailed { last: true, cause, .. } => Some(cause),
            _ => return Err(Error::NotInCommandPhase),
        };
        self.quitter_la_transaction();
        if let Some(cause) = refus {
            return Ok(self.refus_de_morceau(cause));
        }
        match outcome {
            DataOutcome::Accepted => Ok(Self::simple(Code::Completed, Texte::MessageAccepted)),
            DataOutcome::RejectedPermanent => Ok(Self::simple(Code::TransactionFailed, Texte::MessageRejected)),
            // The reason is NAMED: the peer must be able to correct.
            DataOutcome::RejectedByPolicy => Ok(Self::simple(Code::MailboxUnavailable, Texte::RejectedByDomainPolicy)),
            DataOutcome::RejectedTemporary => Ok(Self::simple(Code::LocalError, Texte::MessageNotAccepted)),
        }
    }

    /// What the data receiver gave for the bytes it was handed, in the data
    /// phase. The content is counted, and its `Received:` fields: past
    /// [`HOPS_MAX`] the message loops, and the refusal is for good.
    ///
    /// On [`Error::DataRefused`], stop reading and call
    /// [`SmtpSession::on_data_settled`].
    pub fn feed_data(&mut self, lu: Result<DataEvent, DataFault>) -> (r: Result<(), Error>)
        ensures
            (r, final(self)@) == apres_donnees(old(self)@, lu_des_donnees(lu)),
            meme_cadre(*final(self), *old(self)),
    {
        if self.phase != Phase::Data {
            return Err(Error::NotInDataPhase);
        }
        match lu {
            Err(cause) => {
                self.phase = Phase::DataFailed(cause);
                Err(Error::DataRefused)
            },
            Ok(evenement) => {
                if let DataEvent::Content(morceau) = evenement {
                    self.sauts.update(morceau);
                    self.octets = ajouter_sature(self.octets, morceau.len());
                }
                if self.sauts.count() <= HOPS_MAX {
                    Ok(())
                } else {
                    self.phase = Phase::Looped;
                    Err(Error::DataRefused)
                }
            },
        }
    }

    /// Is the chunk in progress refused already? The caller then consumes
    /// what was announced without reading it: not consuming it would let its
    /// tail be read as commands.
    pub fn chunk_refused(&self) -> (r: bool)
        ensures
            r == (self@.phase is ChunkFailed),
    {
        match self.phase {
            Phase::ChunkFailed { .. } => true,
            _ => false,
        }
    }

    /// What the chunk receiver gave for bytes of the chunk in progress.
    ///
    /// A fault does not stop the reading, it stops the message: the session
    /// keeps that it is lost, and the caller goes on consuming.
    pub fn feed_chunk(&mut self, lu: Result<ChunkEvent, DataFault>) -> (r: Result<(), Error>)
        ensures
            (r, final(self)@) == apres_morceau(old(self)@, lu_du_morceau(lu)),
            meme_cadre(*final(self), *old(self)),
    {
        match self.phase {
            Phase::Chunk { recipients, last } => {
                match lu {
                    Err(cause) => {
                        self.phase = Phase::ChunkFailed { recipients, last, cause };
                    },
                    Ok(ChunkEvent::Content(morceau)) => {
                        self.octets = ajouter_sature(self.octets, morceau.len());
                    },
                    Ok(_) => {},
                }
                Ok(())
            },
            Phase::ChunkFailed { .. } => Ok(()),
            _ => Err(Error::NotInDataPhase),
        }
    }

    /// What the chunk receiver said of the chunk announced: `None` when it
    /// takes it, or the bound it crosses. The size is refused BEFORE being
    /// read.
    pub fn on_chunk_begun(&mut self, refus: Option<DataFault>) -> (r: Result<Turn, Error>)
        ensures
            (r, final(self)@) == apres_annonce(old(self)@, refus),
            meme_cadre(*final(self), *old(self)),
    {
        match self.phase {
            Phase::ChunkPending { recipients, size, last } => match refus {
                Some(cause) => {
                    self.quitter_la_transaction();
                    Ok(self.refus_de_morceau(cause))
                },
                None => {
                    self.phase = Phase::Chunk { recipients, last };
                    Ok(Self::muet(Action::ReceiveChunk { size, last }))
                },
            },
            _ => Err(Error::NotInCommandPhase),
        }
    }

    /// The chunk announced was read, and it was NOT the last: the `250` of
    /// §2, or the refusal the grammar imposes. The last chunk goes through
    /// [`SmtpSession::on_data_settled`].
    pub fn on_chunk_received(&mut self) -> (r: Result<Turn, Error>)
        ensures
            (r, final(self)@) == apres_morceau_lu(old(self)@),
            meme_cadre(*final(self), *old(self)),
    {
        match self.phase {
            Phase::Chunk { recipients, last: false } => {
                self.phase = Phase::Transaction { recipients, chunked: true };
                Ok(Self::simple(Code::Completed, Texte::ChunkOk))
            },
            Phase::ChunkFailed { cause, .. } => {
                self.quitter_la_transaction();
                Ok(self.refus_de_morceau(cause))
            },
            _ => Err(Error::NotInCommandPhase),
        }
    }

    /// Hands back the verdict of the check of the sender, and answers the
    /// `MAIL FROM:`.
    ///
    /// `fail` is the only verdict that refuses (`550 5.7.23`, RFC 7372 §3.2),
    /// and only under [`SenderPolicy::Enforce`]; `temperror` defers; the
    /// others oppose nothing (RFC 7208 §8.5 for `softfail`). The verdict is
    /// kept AFTER leaving the transaction: the record must say why.
    pub fn sender_checked(&mut self, verdict: SenderVerdict) -> (r: Turn)
        ensures
            (r, final(self)@) == apres_verdict(old(self)@, old(self).spec_config(), verdict),
            meme_cadre(*final(self), *old(self)),
    {
        if self.config.sender_policy() != SenderPolicy::Enforce {
            self.verdict = Some(verdict);
            return Self::simple(Code::Completed, Texte::SenderOk);
        }
        let tour = match verdict {
            SenderVerdict::Fail => {
                self.quitter_la_transaction();
                Self::refus(Code::MailboxUnavailable, Texte::SenderRejectedBySpf)
            },
            SenderVerdict::TempError => {
                self.quitter_la_transaction();
                Self::simple(Code::LocalError, Texte::SpfTemporaryError)
            },
            _ => Self::simple(Code::Completed, Texte::SenderOk),
        };
        self.verdict = Some(verdict);
        tour
    }

    /// The content bytes received for the message in progress; zero once the
    /// transaction is left.
    pub fn received_octets(&self) -> (r: u64)
        ensures
            r == self@.octets,
    {
        self.octets
    }

    /// Is the session encrypted?
    pub fn is_encrypted(&self) -> (r: bool)
        ensures
            r == self@.tls,
    {
        self.tls
    }

    /// Is the peer authenticated?
    pub fn is_authenticated(&self) -> (r: bool)
        ensures
            r == self@.authenticated,
    {
        self.authenticated
    }

    /// The name given at `HELO` or `EHLO`; empty for an address literal.
    pub fn helo(&self) -> (r: &[u8])
        ensures
            r@ == self@.helo,
    {
        self.helo.as_bytes()
    }

    /// The account that authenticated, if any. `None` says two things that
    /// the caller must treat alike: nobody authenticated, or the name given
    /// did not fit.
    pub fn submitter(&self) -> (r: Option<&[u8]>)
        ensures
            r.is_some() <==> (self@.authenticated && self@.compte.len() > 0),
            r matches Some(c) ==> c@ == self@.compte,
    {
        if self.authenticated && !self.compte.est_vide() {
            Some(self.compte.as_bytes())
        } else {
            None
        }
    }

    /// The address a non-delivery report would return to: `None` outside a
    /// transaction, for `<>` and for an address literal.
    pub fn return_path(&self) -> (r: Option<&[u8]>)
        ensures
            r.is_some() <==> self@.chemin_de_retour.len() > 0,
            r matches Some(c) ==> c@ == self@.chemin_de_retour,
    {
        if self.chemin_de_retour.est_vide() {
            None
        } else {
            Some(self.chemin_de_retour.as_bytes())
        }
    }

    /// The identity that the caller must check: `None` outside the turn that
    /// asked [`Action::CheckSender`].
    pub fn sender_identity(&self) -> (r: Option<SenderIdentity<'_>>)
        ensures
            r.is_some() <==> self@.domaine_verifie.len() > 0,
            r matches Some(s) ==> {
                &&& s.domain@ == self@.domaine_verifie
                &&& s.sender@ == self@.expediteur
                &&& s.helo@ == self@.helo
                &&& s.scope == if self@.identite_helo { Identity::Helo } else { Identity::MailFrom }
            },
    {
        if self.domaine_verifie.est_vide() {
            return None;
        }
        Some(SenderIdentity {
            domain: self.domaine_verifie.as_bytes(),
            sender: self.expediteur.as_bytes(),
            helo: self.helo.as_bytes(),
            scope: if self.identite_helo { Identity::Helo } else { Identity::MailFrom },
        })
    }

    /// What the `Received-SPF:` field of the transaction states, or `None`
    /// when nothing was checked: a field saying `none` without a resolution
    /// would lie about what was done.
    pub fn received_spf(&self) -> (r: Option<ReceivedSpf<'_>>)
        ensures
            r.is_some() <==> self@.verdict.is_some(),
            r matches Some(f) ==> {
                &&& Some(f.result) == self@.verdict
                &&& f.sender@ == self@.expediteur
                &&& f.helo@ == self@.helo
                &&& f.receiver@ == self.spec_config().spec_domain()
                &&& f.identity == if self@.identite_helo { Identity::Helo } else { Identity::MailFrom }
            },
    {
        match self.verdict {
            Some(verdict) => Some(ReceivedSpf {
                result: verdict,
                sender: self.expediteur.as_bytes(),
                helo: self.helo.as_bytes(),
                receiver: self.config.domain(),
                identity: if self.identite_helo { Identity::Helo } else { Identity::MailFrom },
            }),
            None => None,
        }
    }

    /// What the `Received:` field of this hop states (RFC 5321 §4.4).
    pub fn received(&self) -> (r: Received<'_>)
        ensures
            r.helo@ == self@.helo,
            r.receiver@ == self.spec_config().spec_domain(),
            r.with == transport_spec(self@.esmtp, self@.tls, self@.authenticated),
    {
        let with = if !self.esmtp {
            Transport::Smtp
        } else if !self.tls {
            Transport::Esmtp
        } else if !self.authenticated {
            Transport::Esmtps
        } else {
            Transport::EsmtpsA
        };
        Received { helo: self.helo.as_bytes(), receiver: self.config.domain(), with }
    }

    /// The reverse-path AS WRITTEN, for the `Return-Path:` of the final
    /// delivery; empty for `<>`, which says "this is a report". `None` only
    /// when no `MAIL FROM:` was accepted.
    pub fn received_return_path(&self) -> (r: Option<&[u8]>)
        ensures
            r.is_some() <==> self@.depose_vu,
            r matches Some(d) ==> d@ == self@.depose,
    {
        if self.depose_vu {
            Some(self.depose.as_bytes())
        } else {
            None
        }
    }

    /// The envelope identifier (RFC 3461 §4.4), DECODED, if one was given.
    pub fn envelope_id(&self) -> (r: Option<&[u8]>)
        ensures
            r.is_some() <==> self@.envid.len() > 0,
            r matches Some(x) ==> x@ == self@.envid,
    {
        if self.envid.len() == 0 {
            None
        } else {
            Some(self.envid.as_slice())
        }
    }

    /// What the recipient of rank `rang` asked (RFC 3461).
    pub fn recipient_report(&self, rang: usize) -> (r: Option<(Notify, &[u8])>)
        ensures
            r.is_some() <==> rang < self@.recipients.adresses.len(),
            r matches Some((n, o)) ==> (n, o@) == self@.recipients.rapports[rang as int],
    {
        self.recipients.rapport(rang)
    }

    /// The verdict kept for the transaction in progress, if any.
    pub fn sender_verdict(&self) -> (r: Option<SenderVerdict>)
        ensures
            r == self@.verdict,
    {
        self.verdict
    }

    /// The accepted recipients of the transaction in progress, in order.
    /// Emptied as soon as it ends.
    pub fn recipients(&self) -> (r: Vec<Vec<u8>>)
        ensures
            vues_vec(r@) == self@.recipients.adresses,
    {
        self.recipients.iter()
    }
}

} // verus!
