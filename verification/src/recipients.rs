//! The accepted recipients of a transaction, under two bounds.
//!
//! The list belongs to the transaction, and the transaction lives in the
//! session: the caller sees neither `MAIL`, nor `RSET`, nor the end of a
//! message, and would not know when to empty a list of its own.
//!
//! [`RECIPIENTS_MAX`] bounds the number, [`ARENA_OCTETS`] the room. The second
//! is no redundancy: a hundred addresses of two hundred bytes do not fit where
//! a hundred addresses of twenty do. When either is reached the answer is the
//! same, `452` (RFC 5321 §4.5.3.1.10), and nothing is written by half.

use vstd::prelude::*;

use crate::tampon::{concatenation, vues};

verus! {

/// How many recipients a transaction keeps: the minimum that RFC 5321
/// §4.5.3.1.8 requires a server to accept.
pub const RECIPIENTS_MAX: usize = 100;

/// The room that the addresses, and the original addresses of RFC 3461
/// §4.2, share.
pub const ARENA_OCTETS: usize = 8192;

/// What a recipient asked to be told of its message (RFC 3461 §4.1).
#[derive(Debug, Clone, Copy, PartialEq, Eq, Structural)]
pub struct Notify {
    /// `SUCCESS`.
    pub success: bool,
    /// `FAILURE`.
    pub failure: bool,
    /// `DELAY`.
    pub delay: bool,
    /// `NEVER`: nothing at all.
    pub never: bool,
}

impl Notify {
    /// What a recipient that asked nothing is told: failures and delays
    /// (RFC 3461 §4.1).
    pub open spec fn spec_defaut() -> Notify {
        Notify { success: false, failure: true, delay: true, never: false }
    }

    /// What a recipient that asked nothing is told.
    pub fn defaut() -> (r: Notify)
        ensures
            r == Notify::spec_defaut(),
    {
        Notify { success: false, failure: true, delay: true, never: false }
    }

    /// Is a success report asked for?
    pub fn on_success(&self) -> (r: bool)
        ensures
            r == self.success,
    {
        self.success
    }

    /// Is a failure report asked for?
    pub fn on_failure(&self) -> (r: bool)
        ensures
            r == self.failure,
    {
        self.failure
    }

    /// Is a delay report asked for?
    pub fn on_delay(&self) -> (r: bool)
        ensures
            r == self.delay,
    {
        self.delay
    }

    /// Is every report refused?
    pub fn never(&self) -> (r: bool)
        ensures
            r == self.never,
    {
        self.never
    }
}

impl Default for Notify {
    fn default() -> (r: Notify)
        ensures
            r == Notify::spec_defaut(),
    {
        Notify::defaut()
    }
}

/// What a recipient asked, and where it came from.
#[derive(Debug, Clone, PartialEq, Eq)]
pub struct Rapport {
    /// What is to be reported (§4.1).
    pub notify: Notify,
    /// The original address (§4.2); empty when the peer gave none.
    orcpt: Vec<u8>,
}

impl Rapport {
    /// The report as values.
    pub closed spec fn vue(self) -> (Notify, Seq<u8>) {
        (self.notify, self.orcpt@)
    }

    /// The original address, if the peer gave one.
    pub fn orcpt(&self) -> (r: &[u8])
        ensures
            r@ == self.vue().1,
    {
        self.orcpt.as_slice()
    }
}

/// The report of a recipient that asked nothing.
pub open spec fn rapport_vide() -> (Notify, Seq<u8>) {
    (Notify::spec_defaut(), Seq::empty())
}

/// What a list of recipients holds, as values.
pub struct VueDestinataires {
    /// The addresses, in the order they were accepted.
    pub adresses: Seq<Seq<u8>>,
    /// What each one asked, at the same rank.
    pub rapports: Seq<(Notify, Seq<u8>)>,
    /// The room taken in the arena.
    pub utilise: nat,
}

/// An empty list.
pub open spec fn destinataires_vides() -> VueDestinataires {
    VueDestinataires { adresses: Seq::empty(), rapports: Seq::empty(), utilise: 0 }
}

/// An accepted recipient: its address, and what it asked.
#[derive(Debug)]
struct Entree {
    adresse: Vec<u8>,
    rapport: Rapport,
}

/// Does `adresse` fit, in number and in room?
pub open spec fn tient(v: VueDestinataires, adresse: Seq<u8>) -> bool {
    v.adresses.len() < RECIPIENTS_MAX && v.utilise + adresse.len() <= ARENA_OCTETS
}

/// The list once `adresse` is kept, with the report of a recipient that asked
/// nothing.
pub open spec fn avec_adresse(v: VueDestinataires, adresse: Seq<u8>) -> VueDestinataires {
    VueDestinataires {
        adresses: v.adresses.push(adresse),
        rapports: v.rapports.push(rapport_vide()),
        utilise: v.utilise + adresse.len(),
    }
}

/// The list once the last recipient's report is `notify` and `orcpt`; the
/// original address is kept only when it fits.
pub open spec fn avec_rapport(v: VueDestinataires, notify: Notify, orcpt: Seq<u8>) -> VueDestinataires {
    if v.adresses.len() == 0 {
        v
    } else {
        let garde = orcpt.len() > 0 && v.utilise + orcpt.len() <= ARENA_OCTETS;
        VueDestinataires {
            adresses: v.adresses,
            rapports: v.rapports.update(v.rapports.len() - 1, (notify, if garde { orcpt } else { Seq::empty() })),
            utilise: v.utilise + if garde { orcpt.len() } else { 0 },
        }
    }
}

/// The accepted recipients.
pub struct Recipients {
    entrees: Vec<Entree>,
    utilise: usize,
}

/// The views of a sequence of byte vectors.
pub open spec fn vues_vec(v: Seq<Vec<u8>>) -> Seq<Seq<u8>> {
    v.map_values(|o: Vec<u8>| o@)
}

/// Both bounds hold.
pub open spec fn dans_les_bornes(v: VueDestinataires) -> bool {
    &&& v.adresses.len() == v.rapports.len()
    &&& v.adresses.len() <= RECIPIENTS_MAX
    &&& v.utilise <= ARENA_OCTETS
}

impl Recipients {
    /// Both bounds hold, whatever was pushed.
    #[verifier::type_invariant]
    spec fn bornee(self) -> bool {
        self.entrees@.len() <= RECIPIENTS_MAX && self.utilise <= ARENA_OCTETS
    }

    /// What the list holds.
    pub closed spec fn view(self) -> VueDestinataires {
        VueDestinataires {
            adresses: self.entrees@.map_values(|e: Entree| e.adresse@),
            rapports: self.entrees@.map_values(|e: Entree| e.rapport.vue()),
            utilise: self.utilise as nat,
        }
    }

    /// An empty list.
    pub fn new() -> (r: Self)
        ensures
            r@ == destinataires_vides(),
            dans_les_bornes(r@),
    {
        let r = Recipients { entrees: Vec::new(), utilise: 0 };
        assert(r@.adresses =~= Seq::<Seq<u8>>::empty());
        assert(r@.rapports =~= Seq::<(Notify, Seq<u8>)>::empty());
        r
    }

    /// Forgets everything.
    pub fn clear(&mut self)
        ensures
            final(self)@ == destinataires_vides(),
            dans_les_bornes(final(self)@),
    {
        proof { use_type_invariant(&*self); }
        self.entrees = Vec::new();
        self.utilise = 0;
        assert(self@.adresses =~= Seq::<Seq<u8>>::empty());
        assert(self@.rapports =~= Seq::<(Notify, Seq<u8>)>::empty());
    }

    /// How many recipients are kept.
    pub fn len(&self) -> (r: usize)
        ensures
            r == self@.adresses.len(),
            dans_les_bornes(self@),
    {
        proof { use_type_invariant(self); }
        self.entrees.len()
    }

    /// Is no recipient kept?
    pub fn is_empty(&self) -> (r: bool)
        ensures
            r == (self@.adresses.len() == 0),
    {
        self.entrees.len() == 0
    }

    /// Keeps the address made of `morceaux` end to end, if it fits.
    ///
    /// Returns `false`, and changes nothing, when either bound is reached: a
    /// truncated address would deliver to someone else.
    pub fn push(&mut self, morceaux: &[&[u8]]) -> (r: bool)
        ensures
            r == tient(old(self)@, concatenation(vues(morceaux@))),
            r ==> final(self)@ == avec_adresse(old(self)@, concatenation(vues(morceaux@))),
            !r ==> final(self)@ == old(self)@,
            dans_les_bornes(final(self)@),
    {
        proof { use_type_invariant(&*self); }
        if self.entrees.len() >= RECIPIENTS_MAX || self.utilise > ARENA_OCTETS {
            return false;
        }
        let ghost vs = vues(morceaux@);
        let reste: usize = ARENA_OCTETS - self.utilise;
        let mut adresse: Vec<u8> = Vec::new();
        let mut i: usize = 0;
        while i < morceaux.len()
            invariant
                i <= morceaux@.len(),
                vs == vues(morceaux@),
                adresse@ == concatenation(vs.take(i as int)),
                adresse@.len() <= reste,
                *self == *old(self),
                self@.utilise <= ARENA_OCTETS,
                self@.adresses.len() < RECIPIENTS_MAX,
                reste == ARENA_OCTETS - self@.utilise,
            decreases morceaux@.len() - i,
        {
            let morceau = morceaux[i];
            assert(vs.take(i + 1).drop_last() == vs.take(i as int));
            assert(vs.take(i + 1).last() == morceau@);
            if morceau.len() > reste - adresse.len() {
                proof {
                    crate::tampon::lemme_concatenation_croit(vs, i as int + 1);
                }
                return false;
            }
            crate::octets::ajouter(&mut adresse, morceau);
            i = i + 1;
        }
        assert(vs.take(i as int) == vs);
        let longueur = adresse.len();
        let mut entrees: Vec<Entree> = Vec::new();
        std::mem::swap(&mut entrees, &mut self.entrees);
        entrees.push(Entree { adresse, rapport: Rapport { notify: Notify::defaut(), orcpt: Vec::new() } });
        self.entrees = entrees;
        self.utilise = self.utilise + longueur;
        proof {
            assert(self@.adresses =~= old(self)@.adresses.push(concatenation(vs)));
            assert(self@.rapports =~= old(self)@.rapports.push(rapport_vide()));
        }
        true
    }

    /// Keeps what the LAST accepted recipient asked (RFC 3461).
    ///
    /// The original address goes in the same arena as the addresses; when it
    /// does not fit it is forgotten rather than truncated. Without a
    /// recipient nothing is kept.
    pub fn poser_le_rapport(&mut self, notify: Notify, orcpt: &[u8])
        ensures
            final(self)@ == avec_rapport(old(self)@, notify, orcpt@),
            dans_les_bornes(final(self)@),
    {
        proof { use_type_invariant(&*self); }
        if self.entrees.len() == 0 {
            return;
        }
        let dernier = self.entrees.len() - 1;
        let garde = orcpt.len() > 0 && self.utilise <= ARENA_OCTETS && orcpt.len() <= ARENA_OCTETS - self.utilise;
        let gardee = if garde { crate::octets::copier(orcpt) } else { Vec::new() };
        let longueur = gardee.len();
        let adresse = crate::octets::copier(self.entrees[dernier].adresse.as_slice());
        let mut entrees: Vec<Entree> = Vec::new();
        std::mem::swap(&mut entrees, &mut self.entrees);
        entrees.set(dernier, Entree { adresse, rapport: Rapport { notify, orcpt: gardee } });
        self.entrees = entrees;
        self.utilise = self.utilise + longueur;
        proof {
            assert(self@.adresses =~= old(self)@.adresses);
            assert(self@.rapports =~= old(self)@.rapports.update(
                dernier as int,
                (notify, if garde { orcpt@ } else { Seq::empty() }),
            ));
        }
    }

    /// What the recipient of rank `rang` asked, if there is one.
    pub fn rapport(&self, rang: usize) -> (r: Option<(Notify, &[u8])>)
        ensures
            r.is_some() <==> rang < self@.adresses.len(),
            r matches Some((n, o)) ==> (n, o@) == self@.rapports[rang as int],
    {
        if rang < self.entrees.len() {
            let e = &self.entrees[rang];
            Some((e.rapport.notify, e.rapport.orcpt()))
        } else {
            None
        }
    }

    /// The addresses kept, in the order they were accepted.
    pub fn iter(&self) -> (r: Vec<Vec<u8>>)
        ensures
            vues_vec(r@) == self@.adresses,
    {
        let mut r: Vec<Vec<u8>> = Vec::new();
        let mut i: usize = 0;
        while i < self.entrees.len()
            invariant
                i <= self.entrees@.len(),
                vues_vec(r@) == self@.adresses.take(i as int),
            decreases self.entrees@.len() - i,
        {
            let ghost avant = r@;
            let copie = crate::octets::copier(self.entrees[i].adresse.as_slice());
            r.push(copie);
            assert(self@.adresses[i as int] == self.entrees@[i as int].adresse@);
            assert(vues_vec(r@) =~= vues_vec(avant).push(copie@));
            assert(self@.adresses.take(i + 1) =~= self@.adresses.take(i as int).push(self@.adresses[i as int]));
            i = i + 1;
        }
        assert(self@.adresses.take(i as int) =~= self@.adresses);
        r
    }
}

impl Default for Recipients {
    fn default() -> (r: Recipients)
        ensures
            r@ == destinataires_vides(),
    {
        Recipients::new()
    }
}

} // verus!
