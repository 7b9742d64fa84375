use ams_session::mecanisme::Mecanisme;

#[test]
fn chaque_mecanisme_porte_le_nom_de_sa_rfc() {
    assert_eq!(Mecanisme::Plain.nom(), "PLAIN");
    assert_eq!(Mecanisme::Login.nom(), "LOGIN");
    assert_eq!(Mecanisme::UserPass.nom(), "USER/PASS");
    assert_eq!(Mecanisme::ScramSha256.nom(), "SCRAM-SHA-256");
    assert_eq!(Mecanisme::ScramSha256Plus.nom(), "SCRAM-SHA-256-PLUS");
}

#[test]
fn la_liaison_au_canal_distingue_les_deux_scram() {
    assert_eq!(Mecanisme::scram(true), Mecanisme::ScramSha256Plus);
    assert_eq!(Mecanisme::scram(false), Mecanisme::ScramSha256);
}
