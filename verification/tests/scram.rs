use ams_session::scram::{auth_message, AvecScram, EtatScram, BARE_MAX, FIRST_MAX};

#[test]
fn ce_qui_est_retenu_se_relit_tel_quel() {
    let etat = EtatScram::neuf(b"n=jean,r=abc", b"r=abcdef,s=c2Vs,i=32768").expect("tient");
    assert_eq!(etat.bare(), b"n=jean,r=abc");
    assert_eq!(etat.first(), b"r=abcdef,s=c2Vs,i=32768");
}

#[test]
fn le_vide_se_retient_aussi() {
    // A policy may return an empty `server-first` when it refuses: the session
    // must be able to carry it.
    let etat = EtatScram::neuf(b"", b"").expect("tient");
    assert_eq!(etat.bare(), b"");
    assert_eq!(etat.first(), b"");
}

#[test]
fn ce_qui_deborde_est_refuse_et_non_tronque() {
    let trop_long = [b'a'; BARE_MAX + 1];
    assert!(EtatScram::neuf(&trop_long, b"r=x").is_none());
    let trop_long = [b'a'; FIRST_MAX + 1];
    assert!(EtatScram::neuf(b"n=jean,r=abc", &trop_long).is_none());
    // And the EXACT limit fits: it is a bound, not a ban.
    let juste = [b'a'; BARE_MAX];
    assert!(EtatScram::neuf(&juste, b"r=x").is_some());
    let juste = [b'a'; FIRST_MAX];
    assert!(EtatScram::neuf(b"n=jean,r=abc", &juste).is_some());
}

#[test]
fn l_etat_se_copie_et_se_debogue() {
    let etat = EtatScram::neuf(b"n=jean,r=abc", b"r=abc,s=c2Vs,i=4096").expect("tient");
    let copie = etat;
    assert_eq!(copie.bare(), etat.bare());
    assert!(!format!("{etat:?}").is_empty());
}

#[test]
fn le_message_d_authentification_joint_les_trois_messages_par_des_virgules() {
    assert_eq!(
        auth_message(b"n=jean,r=abc", b"r=abcdef,s=c2Vs,i=4096", b"c=biws,r=abcdef"),
        b"n=jean,r=abc,r=abcdef,s=c2Vs,i=4096,c=biws,r=abcdef".to_vec()
    );
    assert_eq!(auth_message(b"", b"", b""), b",,".to_vec());
}

#[test]
fn les_trois_modes_du_banc_se_distinguent() {
    assert_ne!(AvecScram::Aucun, AvecScram::Complet);
    assert_ne!(AvecScram::Complet, AvecScram::SansConclure);
}
