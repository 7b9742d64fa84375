use ams_session::sauts::Sauts;

/// Counts the hops of a message given in one piece.
fn compter(message: &[u8]) -> u32 {
    let mut sauts = Sauts::new();
    sauts.update(message);
    sauts.count()
}

#[test]
fn un_message_sans_trace_n_a_fait_aucun_saut() {
    assert_eq!(compter(b"From: moi\r\n\r\nbonjour\r\n"), 0);
    assert_eq!(Sauts::default().count(), 0);
}

#[test]
fn chaque_received_compte_pour_un_saut() {
    assert_eq!(
        compter(b"Received: par un\r\nReceived: par deux\r\nFrom: moi\r\n\r\ncorps\r\n"),
        2
    );
}

#[test]
fn la_casse_du_nom_de_champ_ne_compte_pas() {
    assert_eq!(compter(b"RECEIVED: un\r\nrEcEiVeD: deux\r\n\r\n"), 2);
}

#[test]
fn le_corps_ne_compte_pas() {
    assert_eq!(
        compter(b"From: moi\r\n\r\nReceived: ceci est du texte\r\nReceived: encore\r\n"),
        0
    );
}

#[test]
fn un_champ_replie_ne_compte_qu_une_fois() {
    assert_eq!(
        compter(b"Received: de loin\r\n\tby nous\r\n\t; hier\r\n\r\n"),
        1
    );
}

#[test]
fn ce_qui_ressemble_a_received_sans_en_etre_ne_compte_pas() {
    assert_eq!(
        compter(b"Received-SPF: pass\r\nX-Received: un\r\nReceive: deux\r\n\r\n"),
        0
    );
}

#[test]
fn le_decoupage_des_lectures_ne_change_rien() {
    let message = b"Received: un\r\nRECEIVED: deux\r\nFrom: moi\r\n\r\nReceived: corps\r\n";
    let entier = compter(message);
    assert_eq!(entier, 2);
    for coupe in 0..=message.len() {
        let mut sauts = Sauts::new();
        sauts.update(&message[..coupe]);
        sauts.update(&message[coupe..]);
        assert_eq!(sauts.count(), entier, "coupe à {coupe}");
    }
    let mut sauts = Sauts::new();
    for octet in message {
        sauts.update(&[*octet]);
    }
    assert_eq!(sauts.count(), entier);
    assert!(!format!("{sauts:?}").is_empty());
}

#[test]
fn un_saut_se_compte_des_que_son_nom_est_complet() {
    assert_eq!(compter(b"Received: un\r\n"), 1);
    assert_eq!(compter(b"Received:"), 1, "le nom suffit");
    assert_eq!(
        compter(b"Received"),
        0,
        "sans deux-points, ce n'est pas un champ"
    );
}

#[test]
fn seul_un_debut_de_ligne_compte_et_jamais_plus_d_un_par_deux_points() {
    let mut s = Sauts::new();
    // The second name is not at the start of a line: one field, not two.
    s.update(b"Received: Received: x\r\n");
    assert_eq!(s.count(), 1);
    // Nothing read changes nothing.
    s.update(b"");
    assert_eq!(s.count(), 1);
    // After the empty line, nothing counts any more, however it is cut.
    s.update(b"\r\n");
    s.update(b"Received: y\r\n");
    assert_eq!(s.count(), 1);
}
