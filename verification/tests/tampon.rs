use ams_session::tampon::Tampon;

#[test]
fn ce_qui_tient_se_retient() {
    let mut tampon = Tampon::<16>::vide();
    assert!(tampon.est_vide());
    assert!(tampon.poser(&[b"jean", b"@", b"example.com"]));
    assert_eq!(tampon.as_bytes(), b"jean@example.com");
    assert!(!tampon.est_vide());
}

#[test]
fn ce_qui_ne_tient_pas_ne_se_tronque_pas() {
    // A truncated content would name something else: `jean@example.com` cut
    // at eight bytes is another address.
    let mut tampon = Tampon::<8>::vide();
    assert!(!tampon.poser(&[b"jean", b"@", b"example.com"]));
    assert!(tampon.est_vide());
    assert_eq!(tampon.as_bytes(), b"");
}

#[test]
fn poser_efface_ce_qui_precede() {
    let mut tampon = Tampon::<16>::vide();
    assert!(tampon.poser(&[b"premier"]));
    assert!(tampon.poser(&[b"second"]));
    assert_eq!(tampon.as_bytes(), b"second");
    tampon.vider();
    assert_eq!(tampon.as_bytes(), b"");
    assert!(tampon.est_vide());
    assert!(!format!("{tampon:?}").is_empty());
}

#[test]
fn la_borne_exacte_tient() {
    let mut tampon = Tampon::<4>::vide();
    assert!(tampon.poser(&[b"je", b"an"]));
    assert_eq!(tampon.as_bytes(), b"jean");
    assert!(!tampon.poser(&[b"jean", b"!"]));
    assert!(tampon.est_vide());
}
