use ams_session::digits::deux_nombres;
use ams_session::policy::{Authenticator, Credentials};
use ams_session::pop3::{
    Action, Command, Error, Mailbox, MessageNumber, ParseFault, Reponse, Session, Status, Texte,
};

/// The only account the test policy knows.
const COMPTE: &[u8] = b"jean";
/// Its password.
const SECRET: &[u8] = b"ouvre-toi";

/// A policy that knows one account.
struct UnCompte;

impl Authenticator for UnCompte {
    fn authenticate(&self, credentials: &Credentials) -> bool {
        credentials.authentication_identity == COMPTE && credentials.password == SECRET
    }
}

/// An in-memory mailbox whose messages can be deleted.
#[derive(Debug, Clone)]
struct Boite {
    tailles: Vec<u64>,
    effaces: Vec<bool>,
}

impl Boite {
    fn nouvelle(tailles: &[u64]) -> Self {
        Self { tailles: tailles.to_vec(), effaces: vec![false; tailles.len()] }
    }

    fn rang(&self, message: MessageNumber) -> Option<usize> {
        let rang = (message.value() - 1) as usize;
        (rang < self.tailles.len()).then_some(rang)
    }
}

impl Mailbox for Boite {
    // The specification functions of the trait, which compiled code sees as
    // ordinary methods: they say the same as the methods below.
    fn spec_highest(&self) -> u32 {
        self.highest()
    }

    fn spec_size(&self, message: MessageNumber) -> Option<u64> {
        self.size(message)
    }

    fn spec_uid(&self, message: MessageNumber) -> Option<u32> {
        self.uid(message)
    }

    fn highest(&self) -> u32 {
        u32::try_from(self.tailles.len()).unwrap_or(u32::MAX)
    }

    fn size(&self, message: MessageNumber) -> Option<u64> {
        let rang = self.rang(message)?;
        (!self.effaces[rang]).then(|| self.tailles[rang])
    }

    fn uid(&self, message: MessageNumber) -> Option<u32> {
        let rang = self.rang(message)?;
        // A hundred times the number, so that no test mixes up a UID and a rank.
        (!self.effaces[rang]).then(|| message.value().saturating_mul(100))
    }

    fn mark_deleted(&mut self, message: MessageNumber) -> bool {
        let Some(rang) = self.rang(message) else {
            return false;
        };
        if self.effaces[rang] {
            return false;
        }
        self.effaces[rang] = true;
        true
    }

    fn reset_deletions(&mut self) {
        self.effaces.fill(false);
    }
}

/// Reads a command line the way the POP3 grammar does, for the commands these
/// tests send: the verb, its arguments, and the `CRLF`. An argument is at
/// most `borne` bytes.
fn analyser(ligne: &[u8], borne: usize) -> Result<Command, ParseFault> {
    let corps = ligne.strip_suffix(b"\r\n").ok_or(ParseFault::MalformedLineEnding)?;
    let texte = std::str::from_utf8(corps).map_err(|_| ParseFault::UnknownVerb)?;
    let mots: Vec<&str> = texte.split(' ').collect();
    if mots.iter().skip(1).any(|mot| mot.len() > borne) {
        return Err(ParseFault::LineTooLong);
    }
    let numero = |mot: &str| -> Result<MessageNumber, ParseFault> {
        let n: u32 = mot.parse().map_err(|_| ParseFault::BadArguments)?;
        MessageNumber::new(n).ok_or(ParseFault::BadArguments)
    };
    let verbe = mots[0].to_ascii_uppercase();
    match (verbe.as_str(), &mots[1..]) {
        ("USER", [nom]) => Ok(Command::User(nom.as_bytes().to_vec())),
        ("PASS", [secret]) => Ok(Command::Pass(secret.as_bytes().to_vec())),
        ("STLS", []) => Ok(Command::Stls),
        ("CAPA", []) => Ok(Command::Capa),
        ("QUIT", []) => Ok(Command::Quit),
        ("NOOP", []) => Ok(Command::Noop),
        ("STAT", []) => Ok(Command::Stat),
        ("RSET", []) => Ok(Command::Rset),
        ("LIST", []) => Ok(Command::List(None)),
        ("LIST", [n]) => Ok(Command::List(Some(numero(n)?))),
        ("UIDL", []) => Ok(Command::Uidl(None)),
        ("UIDL", [n]) => Ok(Command::Uidl(Some(numero(n)?))),
        ("RETR", [n]) => Ok(Command::Retr(numero(n)?)),
        ("DELE", [n]) => Ok(Command::Dele(numero(n)?)),
        ("TOP", [n, l]) => Ok(Command::Top {
            message: numero(n)?,
            lines: l.parse().map_err(|_| ParseFault::BadArguments)?,
        }),
        ("USER" | "PASS" | "STLS" | "CAPA" | "QUIT" | "NOOP" | "STAT" | "RSET" | "LIST" | "UIDL"
        | "RETR" | "DELE" | "TOP", _) => Err(ParseFault::BadArguments),
        _ => Err(ParseFault::UnknownVerb),
    }
}

/// The reply on the wire: the status word, a space and the text if any, CRLF.
fn ligne(reponse: Option<Reponse>) -> String {
    let Some(reponse) = reponse else {
        return String::new();
    };
    let mot = match reponse.statut {
        Status::Positive => "+OK",
        Status::Negative => "-ERR",
    };
    let texte = match reponse.texte {
        Texte::Message(message) => message.texte().to_string(),
        Texte::Nombres(a, b) => String::from_utf8(deux_nombres(a, b)).expect("ASCII"),
    };
    if texte.is_empty() {
        format!("{mot}\r\n")
    } else {
        format!("{mot} {texte}\r\n")
    }
}

fn session() -> Session<UnCompte, Boite> {
    Session::new(true, UnCompte)
}

/// Plays a line and returns the reply.
fn jouer(session: &mut Session<UnCompte, Boite>, l: &[u8]) -> String {
    let tour = session.handle(analyser(l, 64)).expect("réponse");
    ligne(tour.reply())
}

/// Brings a session to TRANSACTION, mailbox open.
fn ouvrir(tailles: &[u64]) -> Session<UnCompte, Boite> {
    let mut session = session();
    session.on_tls_established();
    jouer(&mut session, b"USER jean\r\n");
    let tour = session.handle(analyser(b"PASS ouvre-toi\r\n", 64)).expect("réponse");
    assert_eq!(tour.action(), Action::OpenMailbox);
    session.on_mailbox_opened(Some(Boite::nouvelle(tailles))).expect("ouverture");
    session
}

/// Every line of a multi-line reply, terminator included.
fn multiligne(session: &mut Session<UnCompte, Boite>) -> Vec<String> {
    let mut lignes = Vec::new();
    while let Some(l) = session.next_listing().expect("ligne") {
        lignes.push(String::from_utf8_lossy(&l).into_owned());
        assert!(lignes.len() < 100, "listing sans fin");
    }
    lignes
}

// ── AUTHORIZATION ───────────────────────────────────────────────────────────

#[test]
fn la_banniere_ne_porte_aucun_horodatage_apop() {
    let session = session();
    let banniere = ligne(Some(session.greeting()));
    assert_eq!(banniere, "+OK POP3 server ready\r\n");
    assert!(!banniere.contains('<'));
    assert_eq!(ligne(Some(session.unavailable())), "-ERR Service not available\r\n");
}

#[test]
fn user_et_pass_sont_refuses_hors_chiffrement() {
    let mut session = session();
    assert_eq!(jouer(&mut session, b"USER jean\r\n"), "-ERR Encryption required\r\n");
    assert_eq!(jouer(&mut session, b"PASS ouvre-toi\r\n"), "-ERR Encryption required\r\n");
}

#[test]
fn stls_puis_user_et_pass_ouvrent_la_session() {
    let mut session = session();
    let tour = session.handle(analyser(b"STLS\r\n", 64)).expect("réponse");
    assert_eq!(tour.action(), Action::StartTls);
    session.on_tls_established();
    assert!(session.is_encrypted());

    assert_eq!(jouer(&mut session, b"USER jean\r\n"), "+OK Send PASS\r\n");
    let tour = session.handle(analyser(b"PASS ouvre-toi\r\n", 64)).expect("réponse");
    assert_eq!(tour.action(), Action::OpenMailbox);
    assert_eq!(tour.reply(), None, "une commande, une réponse");
    assert_eq!(session.user(), COMPTE);

    let tour = session.on_mailbox_opened(Some(Boite::nouvelle(&[10]))).expect("ouverture");
    assert_eq!(ligne(tour.reply()), "+OK Mailbox open\r\n");
    assert!(session.is_open());
}

#[test]
fn la_poignee_de_main_efface_ce_qui_a_ete_dit_en_clair() {
    let mut session = session();
    session.on_tls_established();
    jouer(&mut session, b"USER jean\r\n");
    session.on_tls_established();
    assert_eq!(jouer(&mut session, b"PASS ouvre-toi\r\n"), "-ERR Send USER first\r\n");
}

#[test]
fn un_mot_de_passe_faux_oublie_le_nom_et_ne_dit_pas_pourquoi() {
    let mut session = session();
    session.on_tls_established();
    jouer(&mut session, b"USER jean\r\n");
    let tour = session.handle(analyser(b"PASS autre\r\n", 64)).expect("réponse");
    assert_eq!(ligne(tour.reply()), "-ERR Authentication failed\r\n");
    assert!(tour.peer_fault());
    assert_eq!(jouer(&mut session, b"PASS ouvre-toi\r\n"), "-ERR Send USER first\r\n");

    // An UNKNOWN account gets exactly the same reply.
    jouer(&mut session, b"USER paul\r\n");
    assert_eq!(jouer(&mut session, b"PASS ouvre-toi\r\n"), "-ERR Authentication failed\r\n");
}

#[test]
fn un_nom_plus_long_que_tout_compte_possible_est_refuse() {
    let mut session = session();
    session.on_tls_established();
    let long = format!("USER {}\r\n", "a".repeat(65));
    assert_eq!(jouer(&mut session, long.as_bytes()), "-ERR Invalid command\r\n");
}

#[test]
fn une_boite_indisponible_renvoie_a_l_autorisation() {
    let mut session = session();
    session.on_tls_established();
    jouer(&mut session, b"USER jean\r\n");
    session.handle(analyser(b"PASS ouvre-toi\r\n", 64)).expect("réponse");
    let tour = session.on_mailbox_opened(None).expect("refus d'ouverture");
    assert_eq!(ligne(tour.reply()), "-ERR Mailbox unavailable\r\n");
    assert!(!session.is_open());
    assert_eq!(jouer(&mut session, b"STAT\r\n"), "-ERR Command not valid in this state\r\n");
}

#[test]
fn stls_ne_se_repete_pas_et_n_existe_pas_sans_de_quoi_chiffrer() {
    let mut session = session();
    session.on_tls_established();
    assert_eq!(jouer(&mut session, b"STLS\r\n"), "-ERR Already using TLS\r\n");

    let mut sans: Session<UnCompte, Boite> = Session::new(false, UnCompte);
    assert_eq!(jouer(&mut sans, b"STLS\r\n"), "-ERR Command not supported\r\n");
}

#[test]
fn les_capacites_disent_ce_qui_est_reellement_servi() {
    let mut session = session();
    let tour = session.handle(analyser(b"CAPA\r\n", 64)).expect("réponse");
    assert_eq!(tour.action(), Action::SendListing);
    assert_eq!(multiligne(&mut session), ["TOP\r\n", "UIDL\r\n", "STLS\r\n", ".\r\n"]);

    session.on_tls_established();
    session.handle(analyser(b"CAPA\r\n", 64)).expect("réponse");
    assert_eq!(multiligne(&mut session), ["TOP\r\n", "UIDL\r\n", "USER\r\n", ".\r\n"]);
}

#[test]
fn un_quit_depuis_l_autorisation_n_efface_rien() {
    let mut session = session();
    let tour = session.handle(analyser(b"QUIT\r\n", 64)).expect("réponse");
    assert_eq!(tour.action(), Action::Close);
    assert_eq!(session.handle(analyser(b"NOOP\r\n", 64)), Err(Error::SessionClosed));
}

// ── TRANSACTION ─────────────────────────────────────────────────────────────

#[test]
fn noop_repond_avant_meme_l_ouverture() {
    let mut session = session();
    assert_eq!(jouer(&mut session, b"NOOP\r\n"), "+OK\r\n");
}

#[test]
fn stat_compte_les_messages_et_leurs_octets() {
    let mut session = ouvrir(&[100, 200, 300]);
    assert_eq!(jouer(&mut session, b"STAT\r\n"), "+OK 3 600\r\n");
    // A deleted message no longer counts (RFC 1939 §5).
    jouer(&mut session, b"DELE 2\r\n");
    assert_eq!(jouer(&mut session, b"STAT\r\n"), "+OK 2 400\r\n");
}

#[test]
fn list_et_uidl_repondent_pour_un_message_ou_pour_tous() {
    let mut session = ouvrir(&[100, 200]);
    assert_eq!(jouer(&mut session, b"LIST 2\r\n"), "+OK 2 200\r\n");
    assert_eq!(jouer(&mut session, b"UIDL 2\r\n"), "+OK 2 200\r\n");

    session.handle(analyser(b"LIST\r\n", 64)).expect("réponse");
    assert_eq!(multiligne(&mut session), ["1 100\r\n", "2 200\r\n", ".\r\n"]);

    session.handle(analyser(b"UIDL\r\n", 64)).expect("réponse");
    assert_eq!(multiligne(&mut session), ["1 100\r\n", "2 200\r\n", ".\r\n"]);
}

#[test]
fn un_message_efface_disparait_des_listes_sans_renumeroter_les_autres() {
    let mut session = ouvrir(&[100, 200, 300]);
    jouer(&mut session, b"DELE 2\r\n");
    session.handle(analyser(b"LIST\r\n", 64)).expect("réponse");
    assert_eq!(multiligne(&mut session), ["1 100\r\n", "3 300\r\n", ".\r\n"]);
    assert_eq!(jouer(&mut session, b"LIST 2\r\n"), "-ERR No such message\r\n");
}

#[test]
fn dele_ne_marque_qu_une_fois_et_rset_oublie_tout() {
    let mut session = ouvrir(&[100, 200]);
    assert_eq!(jouer(&mut session, b"DELE 1\r\n"), "+OK Message deleted\r\n");
    assert_eq!(jouer(&mut session, b"DELE 1\r\n"), "-ERR No such message\r\n");
    assert_eq!(jouer(&mut session, b"DELE 9\r\n"), "-ERR No such message\r\n");
    assert_eq!(jouer(&mut session, b"RSET\r\n"), "+OK Deletions reset\r\n");
    assert_eq!(jouer(&mut session, b"STAT\r\n"), "+OK 2 300\r\n");
}

#[test]
fn noop_repond_sans_texte_en_trop() {
    let mut session = ouvrir(&[100]);
    assert_eq!(jouer(&mut session, b"NOOP\r\n"), "+OK\r\n");
}

#[test]
fn un_quit_depuis_la_transaction_demande_d_appliquer_les_effacements() {
    let mut session = ouvrir(&[100]);
    jouer(&mut session, b"DELE 1\r\n");
    let tour = session.handle(analyser(b"QUIT\r\n", 64)).expect("réponse");
    assert_eq!(tour.action(), Action::CommitAndClose);

    let reprise = session.take_mailbox().expect("la boîte devait être là");
    assert!(reprise.effaces[0], "la marque devait avoir suivi");
    assert!(!session.is_open());
    assert!(session.take_mailbox().is_none(), "elle ne revient pas");
}

#[test]
fn l_appelant_peut_lire_la_boite_pour_en_tirer_un_message() {
    let neuve = session();
    assert!(neuve.mailbox().is_none(), "rien à lire avant l'ouverture");

    let mut session = ouvrir(&[100, 200]);
    session.handle(analyser(b"RETR 2\r\n", 64)).expect("réponse");
    let boite = session.mailbox().expect("boîte ouverte");
    assert_eq!(boite.tailles, [100, 200]);
}

#[test]
fn une_commande_du_mauvais_etat_ne_dit_pas_lequel() {
    let mut session = session();
    session.on_tls_established();
    for l in [&b"STAT\r\n"[..], b"RETR 1\r\n", b"DELE 1\r\n", b"RSET\r\n"] {
        assert_eq!(jouer(&mut session, l), "-ERR Command not valid in this state\r\n", "{l:?}");
    }
    let mut ouverte = ouvrir(&[100]);
    for l in [&b"USER jean\r\n"[..], b"PASS x\r\n", b"STLS\r\n"] {
        assert_eq!(jouer(&mut ouverte, l), "-ERR Command not valid in this state\r\n", "{l:?}");
    }
}

#[test]
fn une_ligne_irrecevable_est_une_faute_sans_explication() {
    let mut session = ouvrir(&[100]);
    for l in [&b"XYZZY\r\n"[..], b"RETR 0\r\n", b"QUIT\n", b"TOP 1\r\n"] {
        let tour = session.handle(analyser(l, 64)).expect("réponse");
        assert_eq!(ligne(tour.reply()), "-ERR Invalid command\r\n", "{l:?}");
        assert!(tour.peer_fault(), "{l:?}");
    }
}

// ── SENDING A MESSAGE ───────────────────────────────────────────────────────

/// Passes `corps` through the sender, chunk by chunk, and returns the whole.
fn emettre(session: &mut Session<UnCompte, Boite>, corps: &[u8], taille_des_morceaux: usize) -> Vec<u8> {
    let mut sortie = Vec::new();
    let mut reste = corps;
    while !reste.is_empty() && !session.body_complete() {
        let morceau = &reste[..taille_des_morceaux.min(reste.len())];
        // A DELIBERATELY small output: the transformation must resume where it
        // stopped.
        let (lus, emis) = session.feed_body(morceau, 8).expect("émission");
        sortie.extend_from_slice(&emis);
        reste = &reste[lus..];
    }
    sortie.extend_from_slice(&session.finish_body().expect("terminateur"));
    sortie
}

#[test]
fn retr_double_les_points_et_termine_le_message() {
    let mut session = ouvrir(&[100]);
    let tour = session.handle(analyser(b"RETR 1\r\n", 64)).expect("réponse");
    assert_eq!(
        tour.action(),
        Action::SendBody { message: MessageNumber::new(1).expect("non nul"), lines: None }
    );
    let corps = b"Subject: essai\r\n\r\n.cache\r\nfin\r\n";
    assert_eq!(emettre(&mut session, corps, 4), b"Subject: essai\r\n\r\n..cache\r\nfin\r\n.\r\n");
}

#[test]
fn un_message_sans_fin_de_ligne_en_recoit_une() {
    let mut session = ouvrir(&[100]);
    session.handle(analyser(b"RETR 1\r\n", 64)).expect("réponse");
    assert_eq!(emettre(&mut session, b"sans fin", 3), b"sans fin\r\n.\r\n");
}

#[test]
fn top_rend_l_entete_puis_le_compte_de_lignes_demande() {
    let corps = b"Subject: essai\r\nFrom: jean\r\n\r\nun\r\ndeux\r\ntrois\r\n";

    let mut session = ouvrir(&[100]);
    session.handle(analyser(b"TOP 1 0\r\n", 64)).expect("réponse");
    assert_eq!(emettre(&mut session, corps, 5), b"Subject: essai\r\nFrom: jean\r\n\r\n.\r\n");

    let mut session = ouvrir(&[100]);
    session.handle(analyser(b"TOP 1 2\r\n", 64)).expect("réponse");
    assert_eq!(
        emettre(&mut session, corps, 5),
        b"Subject: essai\r\nFrom: jean\r\n\r\nun\r\ndeux\r\n.\r\n"
    );

    let mut session = ouvrir(&[100]);
    session.handle(analyser(b"TOP 1 99\r\n", 64)).expect("réponse");
    assert_eq!(
        emettre(&mut session, corps, 5),
        b"Subject: essai\r\nFrom: jean\r\n\r\nun\r\ndeux\r\ntrois\r\n.\r\n"
    );
}

#[test]
fn l_emission_est_independante_du_decoupage() {
    let corps = b"a\r\n.b\r\n\r\n.\r\nfin\r\n";
    let mut attendu = Vec::new();
    for taille in [1, 2, 3, 5, 17, 64] {
        let mut session = ouvrir(&[100]);
        session.handle(analyser(b"RETR 1\r\n", 64)).expect("réponse");
        let vu = emettre(&mut session, corps, taille);
        if attendu.is_empty() {
            attendu = vu;
        } else {
            assert_eq!(vu, attendu, "découpage par {taille}");
        }
    }
    assert_eq!(attendu, b"a\r\n..b\r\n\r\n..\r\nfin\r\n.\r\n");
}

#[test]
fn un_message_absent_ne_s_emet_pas() {
    let mut session = ouvrir(&[100]);
    assert_eq!(jouer(&mut session, b"RETR 9\r\n"), "-ERR No such message\r\n");
    assert_eq!(jouer(&mut session, b"TOP 9 0\r\n"), "-ERR No such message\r\n");
    jouer(&mut session, b"DELE 1\r\n");
    assert_eq!(jouer(&mut session, b"RETR 1\r\n"), "-ERR No such message\r\n");
}

// ── What the CALLER is refused ──────────────────────────────────────────────

#[test]
fn l_appelant_ne_peut_pas_sauter_les_etapes() {
    let mut session = session();
    assert_eq!(session.on_mailbox_opened(None).err(), Some(Error::NotInCommandPhase));
    assert_eq!(session.next_listing(), Err(Error::NotInCommandPhase));
    assert_eq!(session.feed_body(b"x", 512).err(), Some(Error::NotInCommandPhase));
    assert_eq!(session.finish_body(), Err(Error::NotInCommandPhase));
    let mut session = ouvrir(&[100]);
    session.handle(analyser(b"CAPA\r\n", 64)).expect("réponse");
    assert_eq!(session.handle(analyser(b"NOOP\r\n", 64)), Err(Error::NotInCommandPhase));
}

#[test]
fn un_nom_trop_long_pour_la_session_est_refuse_meme_si_la_grammaire_l_accepte() {
    let mut session = session();
    session.on_tls_established();
    let long = format!("USER {}\r\n", "a".repeat(100));
    assert_eq!(jouer_borne(&mut session, long.as_bytes(), 200), "-ERR Invalid user\r\n");
}

/// Plays a line under a wider argument bound.
fn jouer_borne(session: &mut Session<UnCompte, Boite>, l: &[u8], borne: usize) -> String {
    let tour = session.handle(analyser(l, borne)).expect("réponse");
    ligne(tour.reply())
}

#[test]
fn une_liste_vide_ne_rend_que_son_terminateur() {
    let mut session = ouvrir(&[]);
    session.handle(analyser(b"LIST\r\n", 64)).expect("réponse");
    assert_eq!(multiligne(&mut session), [".\r\n"]);
    assert_eq!(jouer(&mut session, b"STAT\r\n"), "+OK 0 0\r\n");
}

#[test]
fn nourrir_apres_la_fin_consomme_sans_rien_emettre() {
    let mut session = ouvrir(&[100]);
    session.handle(analyser(b"TOP 1 0\r\n", 64)).expect("réponse");
    let (lus, emis) = session.feed_body(b"Subject: x\r\n\r\n", 512).expect("émission");
    assert_eq!(lus, 14);
    assert_eq!(emis, b"Subject: x\r\n\r\n");
    assert!(session.body_complete());

    let (lus, emis) = session.feed_body(b"corps que personne n'a demande\r\n", 512).expect("émission");
    assert_eq!(lus, 32, "le morceau doit être consommé en entier");
    assert!(emis.is_empty(), "rien ne devait sortir");
}

#[test]
fn les_erreurs_se_distinguent() {
    assert_ne!(Error::NotInCommandPhase, Error::SessionClosed);
    assert_eq!(Error::SessionClosed, Error::SessionClosed);
}

#[test]
fn une_sortie_bornee_s_arrete_avant_un_point_double_qui_ne_tient_pas() {
    let mut session = ouvrir(&[100]);
    session.handle(analyser(b"RETR 1\r\n", 64)).expect("réponse");
    let (lus, emis) = session.feed_body(b"ab\r\n.c", 5).expect("émission");
    // `a`, `b`, CR, LF fit; the doubled dot needs two places and only one is left.
    assert_eq!(lus, 4);
    assert_eq!(emis, b"ab\r\n");
    let (lus, emis) = session.feed_body(b".c", 5).expect("émission");
    assert_eq!(lus, 2);
    assert_eq!(emis, b"..c");
}
