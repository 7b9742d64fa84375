//! What holds of every POP3 session, whatever the peer sends.

use vstd::prelude::*;

use crate::policy::Authenticator;
use super::{
    Action, Command, Mailbox, Message, MessageNumber, Reponse, Session, Status, Texte, Turn, numero,
    compte_spec, prochaine_ligne, refus,
};

verus! {

/// `USER` and `PASS` outside encryption are refused, and change nothing: the
/// password would cross the wire as it is. It is no setting.
pub proof fn loi_pas_de_secret_en_clair<A: Authenticator, M: Mailbox>(
    avant: Session<A, M>,
    commande: Command,
    t: Turn,
    apres: Session<A, M>,
)
    requires
        Session::<A, M>::hors_boite(avant, commande, t, apres),
        !avant.chiffree(),
        commande is User || commande is Pass,
    ensures
        t == refus(Message::EncryptionRequired),
        apres.meme_etat(avant),
{
}

/// Deletions are applied in the UPDATE state only, which only `QUIT` from
/// TRANSACTION reaches: a `QUIT` from AUTHORIZATION, like any other command,
/// deletes nothing (RFC 1939 §6).
pub proof fn loi_seul_quit_en_transaction_efface<A: Authenticator, M: Mailbox>(
    avant: Session<A, M>,
    commande: Command,
    t: Turn,
    apres: Session<A, M>,
)
    ensures
        Session::<A, M>::hors_boite(avant, commande, t, apres) ==> t.action != Action::CommitAndClose,
        Session::<A, M>::de_transaction(avant, commande, t, apres) ==>
            (t.action == Action::CommitAndClose <==> commande is Quit),
{
}

/// Without an open mailbox, the commands of TRANSACTION are refused, and no
/// mailbox appears.
pub proof fn loi_rien_de_la_boite_avant_son_ouverture<A: Authenticator, M: Mailbox>(
    avant: Session<A, M>,
    commande: Command,
    t: Turn,
    apres: Session<A, M>,
)
    requires
        Session::<A, M>::hors_boite(avant, commande, t, apres),
        !(commande is User || commande is Pass || commande is Stls || commande is Noop
            || commande is Capa || commande is Quit),
    ensures
        t == refus(Message::CommandNotValidInThisState),
        apres.boite().is_none(),
{
}

/// The capabilities say what is really available: `USER` only under
/// encryption, `STLS` only before it and only when the caller conducts it.
pub proof fn loi_les_capacites_ne_mentent_pas<A: Authenticator, M: Mailbox>(s: Session<A, M>)
    ensures
        s.capacite(2).len() > 0 <==> s.chiffree(),
        s.capacite(3).len() > 0 <==> (s.stls_offert() && !s.chiffree()),
{
}

/// `UIDL n` answers the lasting identifier of message `n` as the mailbox
/// gives it, and `LIST n` its size: a client recognises a message across
/// sessions by the first, and the second is what it will download. A message
/// that has none (absent, or marked deleted) is refused.
pub proof fn loi_une_ligne_dit_ce_que_sait_la_boite<A: Authenticator, M: Mailbox>(
    avant: Session<A, M>,
    m: MessageNumber,
    uidl: bool,
    t: Turn,
    apres: Session<A, M>,
)
    requires
        avant.boite().is_some(),
        Session::<A, M>::de_transaction(
            avant,
            if uidl { Command::Uidl(Some(m)) } else { Command::List(Some(m)) },
            t,
            apres,
        ),
    ensures
        uidl ==> match avant.boite().unwrap().spec_uid(m) {
            Some(u) => t.reply == Some(Reponse { statut: Status::Positive, texte: Texte::Nombres(m.spec_value() as u64, u as u64) }),
            None => t == refus(Message::NoSuchMessage),
        },
        !uidl ==> match avant.boite().unwrap().spec_size(m) {
            Some(taille) => t.reply == Some(Reponse { statut: Status::Positive, texte: Texte::Nombres(m.spec_value() as u64, taille) }),
            None => t == refus(Message::NoSuchMessage),
        },
{
}

/// A listing goes through the messages in order from `depuis`: the next
/// line is for the first message that has a lasting identifier (`UIDL`) or
/// a size (`LIST`), and gives that identifier or that size; the messages
/// passed over have none, and when no line is left, no message up to the
/// highest has one.
pub proof fn loi_la_liste_dit_ce_que_sait_la_boite<M: Mailbox>(b: M, depuis: u32, uidl: bool)
    ensures
        prochaine_ligne(b, depuis, uidl) matches Some((n, v)) ==> {
            &&& 0 < depuis <= n <= b.spec_highest()
            &&& uidl ==> (b.spec_uid(numero(n)) matches Some(u) && v == u as u64)
            &&& !uidl ==> b.spec_size(numero(n)) == Some(v)
            &&& forall|k: u32| depuis <= k < n ==> #[trigger] b.spec_uid(numero(k)) is None || !uidl
            &&& forall|k: u32| depuis <= k < n ==> #[trigger] b.spec_size(numero(k)) is None || uidl
        },
        prochaine_ligne(b, depuis, uidl) is None && 0 < depuis ==> {
            &&& forall|k: u32| depuis <= k <= b.spec_highest() ==> #[trigger] b.spec_uid(numero(k)) is None || !uidl
            &&& forall|k: u32| depuis <= k <= b.spec_highest() ==> #[trigger] b.spec_size(numero(k)) is None || uidl
        },
    decreases b.spec_highest() + 1 - depuis,
{
    if depuis == 0 || depuis > b.spec_highest() {
    } else if depuis == u32::MAX {
    } else {
        loi_la_liste_dit_ce_que_sait_la_boite(b, (depuis + 1) as u32, uidl);
    }
}

/// `STAT`, `LIST n`, `UIDL n` and `NOOP` only read: the session and its
/// mailbox stay as they were, and the reply asks nothing more.
pub proof fn loi_les_consultations_ne_changent_rien<A: Authenticator, M: Mailbox>(
    avant: Session<A, M>,
    c: Command,
    t: Turn,
    apres: Session<A, M>,
)
    requires
        avant.boite().is_some(),
        c is Stat || (c matches Command::List(Some(_))) || (c matches Command::Uidl(Some(_))) || c is Noop,
        Session::<A, M>::de_transaction(avant, c, t, apres),
    ensures
        apres.meme_etat(avant),
        apres.boite() == avant.boite(),
        apres.emetteur() == avant.emetteur(),
        t.action == Action::Continue,
{
}

/// `STAT` counts the messages that are there and not marked deleted, and
/// their bytes: never more messages than numbers, all of them when none is
/// missing, none when all are; and every message counted weighs in the
/// total, which saturates rather than wraps.
pub proof fn loi_stat_compte_ce_qui_reste<M: Mailbox>(b: M, h: u32)
    ensures
        compte_spec(b, h).0 <= h,
        (forall|k: u32| 1 <= k <= h ==> #[trigger] b.spec_size(numero(k)) is Some) ==> compte_spec(b, h).0 == h,
        (forall|k: u32| 1 <= k <= h ==> #[trigger] b.spec_size(numero(k)) is None) ==> compte_spec(b, h) == (0u32, 0u64),
        forall|k: u32| 1 <= k <= h && #[trigger] b.spec_size(numero(k)) is Some
            ==> b.spec_size(numero(k)).unwrap() <= compte_spec(b, h).1,
    decreases h,
{
    if h > 0 {
        let p = (h - 1) as u32;
        loi_stat_compte_ce_qui_reste(b, p);
        assert forall|k: u32| 1 <= k <= h && #[trigger] b.spec_size(numero(k)) is Some
            implies b.spec_size(numero(k)).unwrap() <= compte_spec(b, h).1 by {
            if k < h {
                assert(b.spec_size(numero(k)).unwrap() <= compte_spec(b, p).1);
            }
        }
    }
}

/// `DELE n` takes message `n` out of what the session serves: after it the
/// message has no size, so no `LIST`, `RETR` or `STAT` counts it; it is
/// answered `+OK` if the message was there, refused otherwise.
pub proof fn loi_dele_retire_le_message<A: Authenticator, M: Mailbox>(
    avant: Session<A, M>,
    m: MessageNumber,
    t: Turn,
    apres: Session<A, M>,
)
    requires
        avant.boite().is_some(),
        Session::<A, M>::de_transaction(avant, Command::Dele(m), t, apres),
    ensures
        apres.boite().unwrap().spec_size(m) is None,
        apres.meme_etat(avant),
        avant.boite().unwrap().spec_size(m) is Some ==> (t.reply matches Some(r) && r.statut == Status::Positive),
        avant.boite().unwrap().spec_size(m) is None ==> t == refus(Message::NoSuchMessage),
{
}

} // verus!
