//! What a policy decides when nobody taught it anything.

use ams_session::policy::ScramFirst;
use ams_session::smtp::commande::Path;
use ams_session::{Authenticator, Credentials, Policy, RecipientVerdict};

/// A policy that always gives the same verdict, and implements nothing of
/// authentication.
struct Toujours(RecipientVerdict);

impl Authenticator for Toujours {}

impl Policy for Toujours {
    fn accepts_recipient(&self, _forward_path: &Path, _submitter: bool) -> RecipientVerdict {
        self.0
    }
}

/// Credentials that would be right, if anyone knew them.
fn identifiants() -> Credentials {
    Credentials {
        authorization_identity: Vec::new(),
        authentication_identity: b"jean".to_vec(),
        password: b"ouvre-toi".to_vec(),
    }
}

/// Asks authentication through a generic, so that the implementation for a
/// reference is the one borrowed when `P` is one.
fn authentifier<P: Authenticator>(politique: P) -> bool {
    politique.authenticate(&identifiants())
}

#[test]
fn le_defaut_refuse_tout_le_monde() {
    assert!(!authentifier(Toujours(RecipientVerdict::Accept)));
}

#[test]
fn une_reference_partagee_authentifie_comme_sa_cible() {
    struct Ouvre;
    impl Authenticator for Ouvre {
        fn authenticate(&self, credentials: &Credentials) -> bool {
            credentials.authentication_identity == b"jean"
        }
    }
    impl Policy for Ouvre {
        fn accepts_recipient(&self, _forward_path: &Path, _submitter: bool) -> RecipientVerdict {
            RecipientVerdict::Accept
        }
    }
    let politique = Ouvre;
    assert!(authentifier(&politique));
    assert!(authentifier(Ouvre));
    assert_eq!(interroger(&politique), RecipientVerdict::Accept);
}

/// Asks a policy through a generic.
fn interroger<P: Policy>(politique: P) -> RecipientVerdict {
    politique.accepts_recipient(&Path::Null, false)
}

/// Asks SCRAM through a generic.
fn tenter_scram<P: Authenticator>(politique: P) -> (Option<ScramFirst>, Option<usize>) {
    let mut sortie = vec![0_u8; 64];
    let premier = politique.scram_first(b"n,,n=jean,r=abc", &mut sortie);
    let dernier = politique.scram_final(b"n=jean,r=abc", b"r=abcdef,s=c2Vs,i=4096", b"c=biws,r=abcdef,p=AAAA", &mut sortie);
    (premier, dernier)
}

#[test]
fn le_defaut_ne_sert_pas_scram_et_la_reference_non_plus() {
    let politique = Toujours(RecipientVerdict::Accept);
    let (premier, dernier) = tenter_scram(&politique);
    assert!(premier.is_none() && dernier.is_none());
    let (premier, dernier) = tenter_scram(Toujours(RecipientVerdict::Accept));
    assert!(premier.is_none() && dernier.is_none());
}

#[test]
fn le_nom_canonique_par_defaut_recopie_l_identite() {
    fn canonique<P: Authenticator>(politique: P, identite: &[u8], place: &mut Vec<u8>) -> usize {
        politique.canonical_login(identite, place)
    }
    let politique = Toujours(RecipientVerdict::Accept);
    let mut place = vec![0_u8; 16];
    let taille = canonique(&politique, b"jean", &mut place);
    assert_eq!(place.get(..taille), Some(&b"jean"[..]));
    let mut etroite = vec![0_u8; 2];
    let taille = canonique(Toujours(RecipientVerdict::Accept), b"jean", &mut etroite);
    assert_eq!(etroite.get(..taille), Some(&b"je"[..]));
}

#[test]
fn une_reference_partagee_est_une_politique() {
    let politique = Toujours(RecipientVerdict::RelayDenied);
    assert_eq!(interroger(&politique), RecipientVerdict::RelayDenied);
    assert_eq!(interroger(Toujours(RecipientVerdict::Accept)), RecipientVerdict::Accept);
}
