//! What holds of every SMTP session, whatever the peer sends.

use vstd::prelude::*;

use crate::policy::{Credentials, RecipientVerdict};
use crate::recipients::{Notify, avec_adresse, destinataires_vides, tient};
use crate::sauts::sauts_neufs;
use super::commande::{ClientId, Command, DataFault, Parameter, ParseFault, Path};
use super::config::{Config, SenderPolicy};
use super::etat::{
    Action, DataOutcome, Etat, Phase, Reponse, SenderVerdict, Transport, Turn, adresse_du_destinataire, apres_annonce,
    apres_auth, apres_bdat, apres_commande, apres_data, apres_donnees, apres_mail, apres_ehlo, apres_message, apres_morceau,
    apres_morceau_lu, apres_reponse_sasl, apres_tls, apres_verdict, conclure_rcpt, etat_initial,
    ligne_size, lignes_spec, mot, prend_les_commandes, refus,
};
use super::reponse::{Class, Code, Texte, ligne_spec, sans_statut, statut_spec};
use super::{Error, transport_spec};

verus! {

/// Authenticated only under encryption, and a SASL exchange only under
/// encryption.
pub open spec fn secret_sous_chiffrement(e: Etat) -> bool {
    &&& e.authenticated ==> e.tls
    &&& e.phase == Phase::Auth ==> e.tls
}

/// Nothing of a transaction is left: no recipient, no sender, no envelope,
/// no verdict, no count of the message.
pub open spec fn transaction_oubliee(e: Etat) -> bool {
    &&& e.recipients == destinataires_vides()
    &&& e.envid.len() == 0
    &&& e.expediteur.len() == 0
    &&& e.chemin_de_retour.len() == 0
    &&& e.depose.len() == 0
    &&& !e.depose_vu
    &&& e.domaine_verifie.len() == 0
    &&& e.verdict.is_none()
    &&& e.octets == 0
    &&& e.sauts == sauts_neufs()
}

/// A session opens with nothing to hide.
///
/// No session is authenticated, nor in a SASL exchange, without encryption;
/// and every step, whatever the peer sends and in whatever order, keeps it
/// so.
pub proof fn loi_le_secret_suit_le_chiffrement(
    e: Etat,
    cfg: Config,
    commande: Result<Command, ParseFault>,
    v: RecipientVerdict,
    accorde: bool,
    reponse: Seq<u8>,
    credentials: Option<Credentials>,
    outcome: DataOutcome,
    lu: Result<Option<Seq<u8>>, DataFault>,
    annonce: Option<DataFault>,
    verdict: SenderVerdict,
)
    requires
        secret_sous_chiffrement(e),
    ensures
        secret_sous_chiffrement(etat_initial()),
        secret_sous_chiffrement(apres_commande(e, cfg, commande, v, accorde).1),
        secret_sous_chiffrement(apres_reponse_sasl(e, reponse, credentials, accorde).1),
        secret_sous_chiffrement(apres_message(e, outcome).1),
        secret_sous_chiffrement(apres_donnees(e, lu).1),
        secret_sous_chiffrement(apres_morceau(e, lu).1),
        secret_sous_chiffrement(apres_annonce(e, annonce).1),
        secret_sous_chiffrement(apres_morceau_lu(e).1),
        secret_sous_chiffrement(apres_verdict(e, cfg, verdict).1),
        secret_sous_chiffrement(apres_tls(e)),
{
}

/// `AUTH` outside encryption is refused, whatever the mechanism and the
/// credentials, and changes nothing. It is no setting.
pub proof fn loi_pas_d_auth_en_clair(
    e: Etat,
    cfg: Config,
    mechanism: Seq<u8>,
    initial: bool,
    credentials: Option<Credentials>,
    accorde: bool,
)
    requires
        !e.tls,
        cfg.spec_capabilities().auth,
    ensures
        apres_auth(e, cfg, mechanism, initial, credentials, accorde)
            == (Ok::<_, Error>(refus(Code::EncryptionRequired, Texte::EncryptionRequired)), e),
{
}

/// `EHLO` announces only what the caller declared it conducts, `AUTH` only
/// under encryption, and `STARTTLS` only before it.
pub proof fn loi_rien_n_est_annonce_qu_on_ne_tienne(e: Etat, cfg: Config, client: ClientId)
    ensures
        apres_ehlo(e, cfg, client).0 matches Ok(t) && t.reply matches Some(Reponse::Ehlo { starttls, auth, dsn })
            && (auth ==> e.tls && cfg.spec_capabilities().auth)
            && (starttls ==> !e.tls && cfg.spec_capabilities().starttls)
            && (dsn == cfg.spec_capabilities().dsn),
{
}

/// The TLS handshake starts the session over (RFC 3207 §4.2): it is the
/// session of an opening, encrypted, that only remembers how the peer named
/// itself, which the peer must say again anyway.
pub proof fn loi_starttls_remet_a_zero(e: Etat)
    ensures
        apres_tls(e) == (Etat {
            tls: true,
            helo: e.helo,
            esmtp: e.esmtp,
            identite_helo: e.identite_helo,
            ..etat_initial()
        }),
{
}

/// A message that the grammar refused, or that loops, cannot be accepted:
/// whatever the caller decides, the reply is the refusal, and it is the
/// peer's fault.
pub proof fn loi_un_refus_de_la_grammaire_est_definitif(e: Etat, o1: DataOutcome, o2: DataOutcome)
    requires
        e.phase is DataFailed || e.phase == Phase::Looped || e.phase matches Phase::ChunkFailed { last: true, .. },
    ensures
        apres_message(e, o1) == apres_message(e, o2),
        apres_message(e, o1).0 matches Ok(t) && t.peer_fault && t.action == super::etat::Action::Continue,
{
}

/// Once the data receiver refuses, or the message loops, the session is in
/// a phase where the verdict of the caller is no longer consulted.
pub proof fn loi_les_donnees_refusees_le_restent(e: Etat, lu: Result<Option<Seq<u8>>, DataFault>)
    ensures
        apres_donnees(e, lu).0 == Err::<(), Error>(Error::DataRefused) ==> {
            let e1 = apres_donnees(e, lu).1;
            e1.phase is DataFailed || e1.phase == Phase::Looped
        },
{
}

/// Five paths leave a transaction: `RSET`, `EHLO`, `HELO`, the end of a
/// message and the TLS handshake. Each forgets everything the transaction
/// held, the recipients first: the next message cannot go to the recipients
/// of the previous one.
pub proof fn loi_cinq_chemins_oublient_la_transaction(
    e: Etat,
    cfg: Config,
    client: ClientId,
    nom: Vec<u8>,
    v: RecipientVerdict,
    accorde: bool,
    outcome: DataOutcome,
)
    requires
        prend_les_commandes(e.phase),
    ensures
        transaction_oubliee(apres_commande(e, cfg, Ok(Command::Rset), v, accorde).1),
        transaction_oubliee(apres_commande(e, cfg, Ok(Command::Ehlo(client)), v, accorde).1),
        transaction_oubliee(apres_commande(e, cfg, Ok(Command::Helo(nom)), v, accorde).1),
        apres_message(e, outcome).0.is_ok() ==> transaction_oubliee(apres_message(e, outcome).1),
        transaction_oubliee(apres_tls(e)),
{
}

/// A peer that sends anything at all gets a reply, never an error, as long
/// as the session takes commands.
pub proof fn loi_tout_pair_recoit_une_reponse(
    e: Etat,
    cfg: Config,
    commande: Result<Command, ParseFault>,
    v: RecipientVerdict,
    accorde: bool,
)
    requires
        prend_les_commandes(e.phase),
    ensures
        apres_commande(e, cfg, commande, v, accorde).0.is_ok(),
{
}

/// Only a `RCPT TO:` can signal a refused recipient, only a PERMANENT
/// refusal does, and a refusal is never the peer's fault.
pub proof fn loi_seul_un_refus_definitif_signale_une_recolte(
    e: Etat,
    cfg: Config,
    commande: Result<Command, ParseFault>,
    v: RecipientVerdict,
    accorde: bool,
)
    ensures
        apres_commande(e, cfg, commande, v, accorde).0 matches Ok(t) ==> (t.refused_recipient ==> {
            &&& commande matches Ok(Command::Rcpt { .. })
            &&& (v == RecipientVerdict::RejectPermanent || v == RecipientVerdict::RelayDenied)
            &&& !t.peer_fault
        }),
{
}

/// What the policy says of a recipient is answered in kind: a permanent
/// refusal is signalled, a temporary one is not, and neither is a fault.
pub proof fn loi_le_verdict_du_destinataire(
    e: Etat,
    cfg: Config,
    fp: Path,
    notify: Notify,
    orcpt: Seq<u8>,
    v: RecipientVerdict,
)
    ensures
        conclure_rcpt(e, cfg, fp, notify, orcpt, v).0 matches Ok(t)
            && t.refused_recipient == (v == RecipientVerdict::RejectPermanent || v == RecipientVerdict::RelayDenied)
            && !t.peer_fault,
{
}

/// An accepted recipient is kept WHOLE, after the others, or not at all and
/// answered `452`: a truncated address would deliver to someone else.
pub proof fn loi_un_destinataire_se_retient_entier(
    e: Etat,
    cfg: Config,
    fp: Path,
    notify: Notify,
    orcpt: Seq<u8>,
)
    requires
        e.phase is Transaction,
        adresse_du_destinataire(cfg, fp).is_some(),
    ensures
        ({
            let a = adresse_du_destinataire(cfg, fp).unwrap();
            let (r, e1) = conclure_rcpt(e, cfg, fp, notify, orcpt, RecipientVerdict::Accept);
            if tient(e.recipients, a) {
                &&& e1.recipients.adresses == e.recipients.adresses.push(a)
                &&& r == Ok::<_, Error>(super::etat::simple(Code::Completed, Texte::RecipientOk))
            } else {
                &&& e1 == e
                &&& r == Ok::<_, Error>(super::etat::simple(Code::TooManyRecipients, Texte::TooManyRecipients))
            }
        }),
{
    let a = adresse_du_destinataire(cfg, fp).unwrap();
    if tient(e.recipients, a) {
        assert(avec_adresse(e.recipients, a).adresses == e.recipients.adresses.push(a));
    }
}

/// A line that a reply may carry: one of the vocabulary, or one that names
/// this server from its configuration.
pub open spec fn ligne_permise(l: Seq<u8>, cfg: Config) -> bool {
    ||| exists|c: Code, t: Texte| l == #[trigger] ligne_spec(c, t)
    ||| l == cfg.spec_domain()
    ||| l == cfg.spec_domain() + mot(" ESMTP"@)
    ||| l == ligne_size(cfg)
    ||| l == mot("8BITMIME"@)
    ||| l == mot("ENHANCEDSTATUSCODES"@)
    ||| l == mot("PIPELINING"@)
    ||| l == mot("CHUNKING"@)
    ||| l == mot("DSN"@)
    ||| l == mot("STARTTLS"@)
    ||| l == mot("AUTH PLAIN"@)
}

/// No reply carries data that came from the peer: every line of every reply
/// is of the vocabulary or of the configuration. Reply injection is
/// inexpressible, not merely refused by the encoder.
pub proof fn loi_aucune_reponse_ne_reprend_le_pair(r: Reponse, cfg: Config)
    ensures
        forall|i: int| 0 <= i < lignes_spec(r, cfg).len() ==> ligne_permise(#[trigger] lignes_spec(r, cfg)[i], cfg),
{
    assert forall|i: int| 0 <= i < lignes_spec(r, cfg).len() implies ligne_permise(#[trigger] lignes_spec(r, cfg)[i], cfg) by {
        match r {
            Reponse::Ligne { code, texte } => {
                assert(lignes_spec(r, cfg)[i] == ligne_spec(code, texte));
            },
            _ => {},
        }
    }
}

/// The class of an enhanced status always comes from the code, never from
/// the text; and only a `3xx`, an invitation to go on, and the two texts
/// answered bare carry none.
pub proof fn loi_la_classe_vient_du_code(code: Code, texte: Texte)
    ensures
        statut_spec(code, texte) matches Some(s) ==> s.spec_accorde(code),
        statut_spec(code, texte).is_none() <==> (code.spec_classe() == Class::Intermediate || sans_statut(texte)),
{
}

/// A reply line ends with its whole text: what does not fit leaves without
/// its status, never truncated.
pub proof fn loi_aucun_texte_n_est_tronque(code: Code, texte: Texte)
    ensures
        ({
            let l = ligne_spec(code, texte);
            let t = texte.spec_octets();
            l.len() >= t.len() && l.subrange(l.len() - t.len(), l.len() as int) == t
        }),
{
    let l = ligne_spec(code, texte);
    let t = texte.spec_octets();
    assert(t.subrange(0, t.len() as int) =~= t);
    match statut_spec(code, texte) {
        Some(s) => {
            let prefixe = s.spec_octets() + seq![32u8];
            assert((prefixe + t).subrange(prefixe.len() as int, (prefixe + t).len() as int) =~= t);
        },
        None => {},
    }
}

/// `NOOP`, `VRFY`, `EXPN` and `HELP` change nothing of the session (RFC
/// 5321 §4.1.1.9): in a phase that takes commands the state after is the
/// state before, the transaction and its recipients included, and the
/// reply asks nothing more. `NOOP` is answered `250 OK`.
pub proof fn loi_les_commandes_sans_effet_ne_changent_rien(
    e: Etat,
    cfg: Config,
    c: Command,
    v: RecipientVerdict,
    a: bool,
)
    requires
        prend_les_commandes(e.phase),
        c is Noop || c is Vrfy || c is Expn || c is Help,
    ensures
        apres_commande(e, cfg, Ok(c), v, a).1 == e,
        apres_commande(e, cfg, Ok(c), v, a).0 matches Ok(t)
            && t.action == Action::Continue && !t.peer_fault && !t.refused_recipient,
        c is Noop ==> apres_commande(e, cfg, Ok(c), v, a).0 == Ok::<Turn, Error>(Turn {
            reply: Some(Reponse::Ligne { code: Code::Completed, texte: Texte::Okay }),
            action: Action::Continue,
            peer_fault: false,
            refused_recipient: false,
        }),
{
}

/// Under a sender policy other than `Enforce`, the verdict of the sender
/// check refuses nothing, whatever it is: the reply is `250 Sender ok`, the
/// transaction goes on as it was, and the verdict alone is kept, for the
/// record.
pub proof fn loi_hors_application_le_verdict_ne_refuse_rien(e: Etat, cfg: Config, v: SenderVerdict)
    requires
        cfg.spec_sender_policy() != SenderPolicy::Enforce,
    ensures
        apres_verdict(e, cfg, v).0 == (Turn {
            reply: Some(Reponse::Ligne { code: Code::Completed, texte: Texte::SenderOk }),
            action: Action::Continue,
            peer_fault: false,
            refused_recipient: false,
        }),
        apres_verdict(e, cfg, v).1 == (Etat { verdict: Some(v), ..e }),
{
}

/// One transaction at a time, and none before the peer named itself: a
/// `MAIL FROM:` inside a transaction, or before `EHLO`/`HELO`, is refused
/// with `503`, as the peer's fault, and changes nothing. A `MAIL FROM:` that
/// opens a transaction opens it empty, with no recipient and no chunk.
pub proof fn loi_une_transaction_a_la_fois(e: Etat, cfg: Config, rp: Path, ps: Seq<Parameter>)
    ensures
        (e.phase is Transaction || e.phase == Phase::Greeted) ==> {
            &&& apres_mail(e, cfg, rp, ps).1 == e
            &&& apres_mail(e, cfg, rp, ps).0 is Ok
            &&& apres_mail(e, cfg, rp, ps).0.unwrap().peer_fault
            &&& apres_mail(e, cfg, rp, ps).0.unwrap().reply matches Some(Reponse::Ligne { code, .. })
            &&& apres_mail(e, cfg, rp, ps).0.unwrap().reply.unwrap()->Ligne_code == Code::BadSequence
        },
        !(e.phase is Transaction) && apres_mail(e, cfg, rp, ps).1.phase is Transaction ==>
            apres_mail(e, cfg, rp, ps).1.phase == (Phase::Transaction { recipients: 0, chunked: false }),
{
}

/// No message is received without a sender and at least one accepted
/// recipient: `DATA` asks for the message exactly when a transaction holds
/// a recipient and no `BDAT` began it.
pub proof fn loi_pas_de_message_sans_destinataire(e: Etat)
    ensures
        (apres_data(e).0 matches Ok(t) && t.action == Action::ReceiveData)
            <==> (e.phase matches Phase::Transaction { recipients, chunked } && recipients > 0 && !chunked),
{
}

/// `BDAT` starts a chunk only in a transaction that holds a recipient, and
/// says which chunk it starts: its size, whether it is the last, and
/// whether it is the first of the message.
pub proof fn loi_pas_de_morceau_sans_destinataire(e: Etat, size: u64, last: bool)
    ensures
        (apres_bdat(e, size, last).0 matches Ok(t) && t.action is BeginChunk)
            <==> (e.phase matches Phase::Transaction { recipients, .. } && recipients > 0),
        (e.phase matches Phase::Transaction { recipients, chunked } && recipients > 0
            && apres_bdat(e, size, last).0.unwrap().action == (Action::BeginChunk { size, last, fresh: !chunked }))
            || !(e.phase matches Phase::Transaction { recipients, .. } && recipients > 0),
{
}

/// `QUIT` closes the session, answered `221 Bye`, and changes nothing else.
pub proof fn loi_quit_ferme(e: Etat, cfg: Config, v: RecipientVerdict, a: bool)
    requires
        prend_les_commandes(e.phase),
    ensures
        apres_commande(e, cfg, Ok(Command::Quit), v, a) == (
            Ok::<Turn, Error>(Turn {
                reply: Some(Reponse::Ligne { code: Code::Closing, texte: Texte::Bye }),
                action: Action::Close,
                peer_fault: false,
                refused_recipient: false,
            }),
            Etat { phase: Phase::Closed, ..e },
        ),
{
}

/// A recipient the policy refuses is not kept, and the session is left as
/// it was; the refusal says whether to try again: `450` for a temporary
/// refusal, `550` for a permanent one or a denied relay.
pub proof fn loi_un_destinataire_refuse_ne_change_rien(
    e: Etat,
    cfg: Config,
    fp: Path,
    notify: Notify,
    orcpt: Seq<u8>,
    v: RecipientVerdict,
)
    requires
        v != RecipientVerdict::Accept,
    ensures
        conclure_rcpt(e, cfg, fp, notify, orcpt, v).1 == e,
        conclure_rcpt(e, cfg, fp, notify, orcpt, v).0 is Ok,
        conclure_rcpt(e, cfg, fp, notify, orcpt, v).0.unwrap().reply
            == Some(Reponse::Ligne {
                code: if v == RecipientVerdict::RejectTemporary { Code::MailboxBusy } else { Code::MailboxUnavailable },
                texte: if v == RecipientVerdict::RejectTemporary {
                    Texte::MailboxBusy
                } else if v == RecipientVerdict::RelayDenied {
                    Texte::RelayAccessDenied
                } else {
                    Texte::MailboxUnavailable
                },
            }),
{
}

/// The caller's verdict on a message that was read whole is answered as it
/// is: `250` when accepted, `554` when refused, `550` when refused by the
/// domain's policy, `451` when it may be tried again later; and either way
/// the transaction ends.
pub proof fn loi_le_verdict_sur_le_message_est_repondu(e: Etat, outcome: DataOutcome)
    requires
        e.phase == Phase::Data,
    ensures
        apres_message(e, outcome).0 is Ok,
        apres_message(e, outcome).0.unwrap().reply == Some(Reponse::Ligne {
            code: match outcome {
                DataOutcome::Accepted => Code::Completed,
                DataOutcome::RejectedPermanent => Code::TransactionFailed,
                DataOutcome::RejectedByPolicy => Code::MailboxUnavailable,
                DataOutcome::RejectedTemporary => Code::LocalError,
            },
            texte: match outcome {
                DataOutcome::Accepted => Texte::MessageAccepted,
                DataOutcome::RejectedPermanent => Texte::MessageRejected,
                DataOutcome::RejectedByPolicy => Texte::RejectedByDomainPolicy,
                DataOutcome::RejectedTemporary => Texte::MessageNotAccepted,
            },
        }),
        transaction_oubliee(apres_message(e, outcome).1),
{
}

/// The `with` of the `Received:` field names what the hop really was
/// (RFC 3848): `ESMTP` after `EHLO`, `S` exactly when encrypted, `A`
/// exactly when authenticated as well.
pub proof fn loi_le_transport_dit_ce_qui_fut(esmtp: bool, tls: bool, authenticated: bool)
    ensures
        (transport_spec(esmtp, tls, authenticated) == Transport::Smtp) == !esmtp,
        (transport_spec(esmtp, tls, authenticated) == Transport::Esmtp) == (esmtp && !tls),
        (transport_spec(esmtp, tls, authenticated) == Transport::Esmtps) == (esmtp && tls && !authenticated),
        (transport_spec(esmtp, tls, authenticated) == Transport::EsmtpsA) == (esmtp && tls && authenticated),
{
}

} // verus!
