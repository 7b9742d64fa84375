//! The recipients of a transaction, under their two bounds.

use ams_session::{ARENA_OCTETS, Notify, RECIPIENTS_MAX, Recipients};

fn liste(adresses: &[&[u8]]) -> Recipients {
    let mut retenus = Recipients::new();
    for adresse in adresses {
        assert!(retenus.push(&[adresse]));
    }
    retenus
}

fn adresses(retenus: &Recipients) -> Vec<Vec<u8>> {
    retenus.iter()
}

/// An address that follows an `ORCPT` comes out whole: the original address
/// shares the arena, and belongs to neither address around it.
#[test]
fn une_adresse_qui_suit_un_orcpt_ressort_entiere() {
    let mut retenus = Recipients::new();
    assert!(retenus.push(&[&b"jean@example.com"[..]]));
    retenus.poser_le_rapport(Notify::defaut(), b"rfc822;origine@ailleurs.test");
    assert!(retenus.push(&[&b"marie@example.com"[..]]));
    assert_eq!(
        adresses(&retenus),
        vec![b"jean@example.com".to_vec(), b"marie@example.com".to_vec()],
        "l'adresse suivante ne porte pas l'`ORCPT` du précédent"
    );
}

/// And the `ORCPT` itself reads back, in its place.
#[test]
fn l_orcpt_se_relit_apres_l_adresse_suivante() {
    let mut retenus = Recipients::new();
    assert!(retenus.push(&[&b"jean@example.com"[..]]));
    retenus.poser_le_rapport(Notify::defaut(), b"rfc822;origine@ailleurs.test");
    assert!(retenus.push(&[&b"marie@example.com"[..]]));
    let (_, orcpt) = retenus.rapport(0).expect("un rapport au premier");
    assert_eq!(orcpt, b"rfc822;origine@ailleurs.test");
}

#[test]
fn les_adresses_ressortent_dans_l_ordre() {
    let retenus = liste(&[b"jean@example.com", b"paul@example.org"]);
    assert_eq!(retenus.len(), 2);
    assert!(!retenus.is_empty());
    assert_eq!(adresses(&retenus), vec![b"jean@example.com".to_vec(), b"paul@example.org".to_vec()]);
}

#[test]
fn une_adresse_se_compose_de_plusieurs_morceaux() {
    let mut retenus = Recipients::new();
    assert!(retenus.push(&[b"jean", b"@", b"example.com"]));
    assert_eq!(adresses(&retenus), vec![b"jean@example.com".to_vec()]);
}

#[test]
fn une_liste_neuve_ou_videe_ne_rend_rien() {
    let mut retenus = liste(&[b"jean@example.com"]);
    retenus.clear();
    assert!(retenus.is_empty());
    assert_eq!(retenus.iter().len(), 0);
    assert_eq!(Recipients::default().iter().len(), 0);
}

#[test]
fn la_borne_de_nombre_arrete_avant_de_deborder() {
    let mut retenus = Recipients::new();
    for _ in 0..RECIPIENTS_MAX {
        assert!(retenus.push(&[b"a@b.co"]));
    }
    assert!(!retenus.push(&[b"a@b.co"]));
    assert_eq!(retenus.len(), RECIPIENTS_MAX);
}

#[test]
fn la_borne_de_place_arrete_aussi_et_n_ecrit_rien_a_moitie() {
    let longue = [b'a'; 1000];
    let mut retenus = Recipients::new();
    let mut posees = 0_usize;
    while retenus.push(&[&longue]) {
        posees = posees.saturating_add(1);
    }
    assert!(posees < RECIPIENTS_MAX, "la place aurait dû borner avant");
    assert_eq!(posees, ARENA_OCTETS / 1000);
    for adresse in retenus.iter() {
        assert_eq!(adresse.len(), 1000);
    }
}

#[test]
fn une_adresse_plus_grande_que_l_arene_est_refusee_seule() {
    let enorme = [b'a'; ARENA_OCTETS + 1];
    let mut retenus = Recipients::new();
    assert!(!retenus.push(&[&enorme]));
    assert!(retenus.is_empty());
}

#[test]
fn on_peut_recommencer_apres_avoir_vide() {
    let mut retenus = liste(&[b"jean@example.com"]);
    retenus.clear();
    assert!(retenus.push(&[b"paul@example.org"]));
    assert_eq!(adresses(&retenus), vec![b"paul@example.org".to_vec()]);
}

/// An original address that does not fit is forgotten, not truncated.
#[test]
fn une_adresse_d_origine_qui_ne_tient_pas_est_oubliee() {
    let mut liste = Recipients::new();
    let bourrage = [b'a'; 512];
    while liste.push(&[&bourrage]) {}
    assert!(liste.rapport(0).is_some(), "au moins une adresse est passée");

    let dernier = (0..RECIPIENTS_MAX).take_while(|rang| liste.rapport(*rang).is_some()).count().saturating_sub(1);
    liste.poser_le_rapport(Notify::defaut(), &bourrage);
    let (notify, orcpt) = liste.rapport(dernier).expect("un rapport");
    assert!(notify.on_failure(), "ce qu'on demandait est retenu");
    assert!(orcpt.is_empty(), "l'adresse d'origine a été oubliée");
}

/// Without a recipient there is nothing to tie a report to.
#[test]
fn un_rapport_sans_destinataire_ne_se_pose_pas() {
    let mut liste = Recipients::new();
    liste.poser_le_rapport(Notify::defaut(), b"marie@x.test");
    assert_eq!(liste.rapport(0), None);

    assert!(liste.push(&[b"marie@x.test"]));
    liste.poser_le_rapport(Notify::defaut(), b"marie+liste@x.test");
    let (notify, orcpt) = liste.rapport(0).expect("un rapport");
    assert!(notify.on_failure() && !notify.never());
    assert_eq!(orcpt, b"marie+liste@x.test");
    assert_eq!(liste.rapport(1), None);
}

/// The room taken grows by what is kept, and only by that.
#[test]
fn la_place_prise_est_celle_de_ce_qui_est_retenu() {
    let mut retenus = Recipients::new();
    assert!(retenus.push(&[b"jean", b"@", b"example.com"]));
    retenus.poser_le_rapport(Notify::default(), b"");
    assert_eq!(retenus.rapport(0).expect("un rapport").1, b"");
    assert_eq!(Notify::default(), Notify::defaut());
}
