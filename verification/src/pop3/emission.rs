//! The sender of a message body: it doubles leading dots, and counts the
//! lines that `TOP` asked for.

use vstd::prelude::*;

verus! {

/// The body sender of a message (RFC 1939 §3).
#[derive(Debug, Clone, Copy, PartialEq, Eq, Structural)]
pub struct BodySender {
    /// Does the next byte start a line?
    pub debut_de_ligne: bool,
    /// How many bytes have been seen on the current line. This count, and
    /// not `debut_de_ligne`, recognises the empty line.
    pub octets_de_la_ligne: usize,
    /// `TOP`: how many body lines remain to be given.
    pub lignes_restantes: Option<u32>,
    /// Has the header block been passed (the first empty line)?
    pub dans_le_corps: bool,
    /// Was the last byte given a `CR`?
    pub cr_vu: bool,
    /// Everything that had to be given has been.
    pub fini: bool,
}

/// `a + 1`, saturating at `usize::MAX`.
pub open spec fn plus_un(a: usize) -> usize {
    if a == usize::MAX { usize::MAX } else { (a + 1) as usize }
}

/// `a - 1`, saturating at zero.
pub open spec fn moins_un(a: u32) -> u32 {
    if a == 0 { 0 } else { (a - 1) as u32 }
}

/// What one byte of the message gives, and what the sender becomes.
///
/// A line that starts with `.` receives a second one, lest it be taken for
/// the terminator. A line ends with a `LF` preceded by a `CR`; an empty line
/// holds only its `CRLF`.
pub open spec fn pas_emission(s: BodySender, octet: u8) -> (BodySender, Seq<u8>) {
    if s.fini {
        (s, Seq::empty())
    } else {
        let point = s.debut_de_ligne && octet == 46u8;
        let emis = if point { seq![46u8, octet] } else { seq![octet] };
        let fin_de_ligne = octet == 10u8 && s.cr_vu;
        let octets = plus_un(s.octets_de_la_ligne);
        let suivant = if !fin_de_ligne {
            BodySender { octets_de_la_ligne: octets, cr_vu: octet == 13u8, debut_de_ligne: false, ..s }
        } else if s.dans_le_corps {
            let restantes = match s.lignes_restantes {
                Some(r) => Some(moins_un(r)),
                None => None,
            };
            BodySender {
                octets_de_la_ligne: 0,
                cr_vu: false,
                debut_de_ligne: true,
                lignes_restantes: restantes,
                fini: restantes == Some(0u32),
                ..s
            }
        } else if octets == 2 {
            BodySender {
                octets_de_la_ligne: 0,
                cr_vu: false,
                debut_de_ligne: true,
                dans_le_corps: true,
                fini: s.lignes_restantes == Some(0u32),
                ..s
            }
        } else {
            BodySender { octets_de_la_ligne: 0, cr_vu: false, debut_de_ligne: true, ..s }
        };
        (suivant, emis)
    }
}

/// What a chunk gives when at most `place` bytes may be emitted: how many
/// bytes were read, what the sender becomes, and what is emitted. Reading
/// stops at the first byte whose emission would not fit.
pub open spec fn ecoulement(s: BodySender, morceau: Seq<u8>, place: nat) -> (nat, BodySender, Seq<u8>)
    decreases morceau.len(),
{
    if morceau.len() == 0 {
        (0, s, Seq::empty())
    } else {
        let (s1, emis) = pas_emission(s, morceau[0]);
        if emis.len() > place {
            (0, s, Seq::empty())
        } else {
            let (n, s2, reste) = ecoulement(s1, morceau.drop_first(), (place - emis.len()) as nat);
            (n + 1, s2, emis + reste)
        }
    }
}

/// What a whole message gives with no bound on the output.
pub open spec fn emission_entiere(s: BodySender, octets: Seq<u8>) -> (BodySender, Seq<u8>)
    decreases octets.len(),
{
    if octets.len() == 0 {
        (s, Seq::empty())
    } else {
        let (s1, e1) = emission_entiere(s, octets.drop_last());
        let (s2, e2) = pas_emission(s1, octets.last());
        (s2, e1 + e2)
    }
}

/// The body sender that is not sending anything.
pub open spec fn emission_inerte() -> BodySender {
    BodySender {
        debut_de_ligne: true,
        octets_de_la_ligne: 0,
        lignes_restantes: None,
        dans_le_corps: false,
        cr_vu: false,
        fini: true,
    }
}

/// The body sender of a fresh message, `lignes` being the body lines of `TOP`.
pub open spec fn emission_neuve(lignes: Option<u32>) -> BodySender {
    BodySender {
        debut_de_ligne: true,
        octets_de_la_ligne: 0,
        lignes_restantes: lignes,
        dans_le_corps: false,
        cr_vu: false,
        fini: false,
    }
}

impl BodySender {
    /// A sender that sends nothing.
    pub fn inerte() -> (s: Self)
        ensures
            s == emission_inerte(),
    {
        BodySender {
            debut_de_ligne: true,
            octets_de_la_ligne: 0,
            lignes_restantes: None,
            dans_le_corps: false,
            cr_vu: false,
            fini: true,
        }
    }

    /// A sender for a fresh message; `lignes` is the body line count of `TOP`.
    pub fn nouveau(lignes: Option<u32>) -> (s: Self)
        ensures
            s == emission_neuve(lignes),
    {
        BodySender {
            debut_de_ligne: true,
            octets_de_la_ligne: 0,
            lignes_restantes: lignes,
            dans_le_corps: false,
            cr_vu: false,
            fini: false,
        }
    }

    /// One byte of the message.
    fn avancer(&mut self, octet: u8) -> (emis: Vec<u8>)
        ensures
            (*final(self), emis@) == pas_emission(*old(self), octet),
    {
        let mut emis = Vec::new();
        if self.fini {
            return emis;
        }
        let point = self.debut_de_ligne && octet == 46u8;
        if point {
            emis.push(46u8);
        }
        emis.push(octet);
        // The end of a line is a `LF` preceded by a `CR`: a bare `LF` ends
        // nothing.
        let fin_de_ligne = octet == 10u8 && self.cr_vu;
        self.cr_vu = octet == 13u8;
        self.octets_de_la_ligne = self.octets_de_la_ligne.saturating_add(1);
        if fin_de_ligne {
            // An EMPTY line holds only its `CRLF`, two bytes.
            let vide = self.octets_de_la_ligne == 2;
            self.octets_de_la_ligne = 0;
            self.cr_vu = false;
            if self.dans_le_corps {
                match self.lignes_restantes {
                    Some(reste) => {
                        let apres = reste.saturating_sub(1);
                        self.lignes_restantes = Some(apres);
                        if apres == 0 {
                            self.fini = true;
                        }
                    },
                    None => {},
                }
            } else if vide {
                // The separation of header and body (RFC 5322 §2.1).
                self.dans_le_corps = true;
                if self.lignes_restantes == Some(0u32) {
                    self.fini = true;
                }
            }
        }
        self.debut_de_ligne = fin_de_ligne;
        proof {
            if point {
                assert(emis@ == seq![46u8, octet]);
            } else {
                assert(emis@ == seq![octet]);
            }
        }
        emis
    }

    /// Transforms what fits in `place` bytes, and returns how many bytes of
    /// `morceau` were read and what to emit.
    ///
    /// Call again while fewer bytes were read than the chunk holds: the output
    /// is bounded, and a doubled dot takes two places for one. Once `TOP` has
    /// given its count, bytes are consumed without anything being emitted.
    pub fn transformer(&mut self, morceau: &[u8], place: usize) -> (r: (usize, Vec<u8>))
        ensures
            ecoulement(*old(self), morceau@, place as nat) == (r.0 as nat, *final(self), r.1@),
    {
        let mut lus: usize = 0;
        let mut sortie: Vec<u8> = Vec::new();
        let mut plein = false;
        let ghost depart = *self;
        proof {
            assert(morceau@.skip(0) == morceau@);
            let (n, s2, reste) = ecoulement(*self, morceau@, place as nat);
            assert(sortie@ + reste == reste);
        }
        while lus < morceau.len() && !plein
            invariant
                lus <= morceau@.len(),
                sortie@.len() <= place,
                ({
                    let (n, s2, reste) = ecoulement(*self, morceau@.skip(lus as int), (place - sortie@.len()) as nat);
                    ecoulement(depart, morceau@, place as nat) == ((lus + n) as nat, s2, sortie@ + reste)
                }),
                plein ==> ecoulement(*self, morceau@.skip(lus as int), (place - sortie@.len()) as nat)
                    == (0nat, *self, Seq::<u8>::empty()),
            decreases morceau@.len() - lus + (if plein { 0int } else { 1int }),
        {
            let octet = morceau[lus];
            let ghost avant = *self;
            let ghost avant_sortie = sortie@;
            let ghost suite = morceau@.skip(lus as int);
            assert(suite[0] == octet);
            assert(suite.drop_first() == morceau@.skip(lus + 1));
            let besoin: usize = if self.fini {
                0
            } else if self.debut_de_ligne && octet == 46u8 {
                2
            } else {
                1
            };
            if besoin > place - sortie.len() {
                plein = true;
            } else {
                let mut emis = self.avancer(octet);
                assert(emis@.len() == besoin);
                ajouter_vec(&mut sortie, &mut emis);
                lus = lus + 1;
                proof {
                    let (n, s2, reste) = ecoulement(*self, morceau@.skip(lus as int), (place - sortie@.len()) as nat);
                    assert(avant_sortie + (emis_de(avant, octet) + reste) == sortie@ + reste);
                }
            }
        }
        proof {
            if !plein {
                assert(morceau@.skip(lus as int).len() == 0);
                assert(sortie@ + Seq::<u8>::empty() == sortie@);
            } else {
                assert(sortie@ + Seq::<u8>::empty() == sortie@);
            }
        }
        (lus, sortie)
    }
}

/// What one byte emits from a given sender.
pub open spec fn emis_de(s: BodySender, octet: u8) -> Seq<u8> {
    pas_emission(s, octet).1
}

/// Moves the content of `b` to the end of `a`.
fn ajouter_vec(a: &mut Vec<u8>, b: &mut Vec<u8>)
    ensures
        final(a)@ == old(a)@ + old(b)@,
{
    a.append(b);
}

/// Sending a message in two pieces gives what sending it whole gives: the
/// sender only keeps a position, and the reader chooses where it cuts.
pub proof fn loi_emission_independante_du_decoupage(s: BodySender, a: Seq<u8>, b: Seq<u8>)
    ensures
        ({
            let (s1, e1) = emission_entiere(s, a);
            let (s2, e2) = emission_entiere(s1, b);
            emission_entiere(s, a + b) == (s2, e1 + e2)
        }),
    decreases b.len(),
{
    if b.len() == 0 {
        assert(a + b == a);
        let (s1, e1) = emission_entiere(s, a);
        assert(e1 + Seq::<u8>::empty() == e1);
    } else {
        loi_emission_independante_du_decoupage(s, a, b.drop_last());
        assert((a + b).drop_last() == a + b.drop_last());
        assert((a + b).last() == b.last());
        let (s1, e1) = emission_entiere(s, a);
        let (t1, f1) = emission_entiere(s1, b.drop_last());
        let (t2, f2) = pas_emission(t1, b.last());
        assert(e1 + f1 + f2 == e1 + (f1 + f2));
    }
}

/// What a bounded call reads and emits is what sending the bytes it read
/// gives, with no bound.
pub proof fn loi_ecoulement_borne(s: BodySender, m: Seq<u8>, place: nat)
    ensures
        ({
            let (n, s2, sortie) = ecoulement(s, m, place);
            &&& n <= m.len()
            &&& sortie.len() <= place
            &&& (s2, sortie) == emission_entiere(s, m.take(n as int))
        }),
    decreases m.len(),
{
    if m.len() == 0 {
        assert(m.take(0).len() == 0);
    } else {
        let (s1, e) = pas_emission(s, m[0]);
        if e.len() > place {
            assert(m.take(0).len() == 0);
        } else {
            let reste = m.drop_first();
            loi_ecoulement_borne(s1, reste, (place - e.len()) as nat);
            let (n, s2, sortie) = ecoulement(s1, reste, (place - e.len()) as nat);
            assert(m.take(n as int + 1) == seq![m[0]] + reste.take(n as int));
            loi_emission_independante_du_decoupage(s, seq![m[0]], reste.take(n as int));
            assert(seq![m[0]].drop_last().len() == 0);
            assert(seq![m[0]].last() == m[0]);
            assert(emission_entiere(s, seq![m[0]].drop_last()) == (s, Seq::<u8>::empty()));
            assert(emission_entiere(s, seq![m[0]]) == (s1, Seq::<u8>::empty() + e));
            assert(Seq::<u8>::empty() + e == e);
        }
    }
}

/// A call with room for two bytes reads at least one, when there is one to
/// read: a byte emits at most two. A loop of such calls always ends.
pub proof fn loi_deux_places_suffisent(s: BodySender, m: Seq<u8>, place: nat)
    requires
        place >= 2,
        m.len() > 0,
    ensures
        ecoulement(s, m, place).0 >= 1,
{
    let (s1, e) = pas_emission(s, m[0]);
    assert(e.len() <= 2);
}

/// What a loop of calls gives, the `i`-th with room for `places[i]` bytes,
/// each going on where the previous one stopped: how many bytes were read in
/// all, what the sender becomes, and the emitted bytes end to end.
pub open spec fn ecoulements(s: BodySender, m: Seq<u8>, places: Seq<nat>) -> (nat, BodySender, Seq<u8>)
    decreases places.len(),
{
    if places.len() == 0 || m.len() == 0 {
        (0, s, Seq::empty())
    } else {
        let (n1, s1, e1) = ecoulement(s, m, places[0]);
        let (n2, s2, e2) = ecoulements(s1, m.skip(n1 as int), places.drop_first());
        (n1 + n2, s2, e1 + e2)
    }
}

/// A loop of bounded calls emits what sending the bytes it read gives at
/// once; and when each call has room for two bytes and there are as many
/// calls as bytes, it reads everything, so it emits the whole transformation.
pub proof fn loi_la_boucle_emet_tout(s: BodySender, m: Seq<u8>, places: Seq<nat>)
    ensures
        ({
            let (n, s2, e) = ecoulements(s, m, places);
            &&& n <= m.len()
            &&& (s2, e) == emission_entiere(s, m.take(n as int))
            &&& (forall|i: int| 0 <= i < places.len() ==> #[trigger] places[i] >= 2) && places.len() >= m.len()
                ==> n == m.len() && (s2, e) == emission_entiere(s, m)
        }),
    decreases places.len(),
{
    if places.len() == 0 || m.len() == 0 {
        assert(m.take(0).len() == 0);
        if m.len() == 0 {
            assert(m.take(0) =~= m);
        }
    } else {
        let (n1, s1, e1) = ecoulement(s, m, places[0]);
        loi_ecoulement_borne(s, m, places[0]);
        let reste = m.skip(n1 as int);
        loi_la_boucle_emet_tout(s1, reste, places.drop_first());
        let (n2, s2, e2) = ecoulements(s1, reste, places.drop_first());
        assert(m.take((n1 + n2) as int) =~= m.take(n1 as int) + reste.take(n2 as int));
        loi_emission_independante_du_decoupage(s, m.take(n1 as int), reste.take(n2 as int));
        if (forall|i: int| 0 <= i < places.len() ==> #[trigger] places[i] >= 2) && places.len() >= m.len() {
            loi_deux_places_suffisent(s, m, places[0]);
            assert forall|i: int| 0 <= i < places.drop_first().len() implies #[trigger] places.drop_first()[i] >= 2 by {
                assert(places.drop_first()[i] == places[i + 1]);
            }
            assert(m.take(m.len() as int) =~= m);
        }
    }
}

/// Does the next byte after `lu` start a line: nothing was read yet, or the
/// last two bytes read are a `CRLF`?
pub open spec fn en_debut_de_ligne(lu: Seq<u8>) -> bool {
    lu.len() == 0 || (lu.len() >= 2 && lu[lu.len() - 2] == 13u8 && lu[lu.len() - 1] == 10u8)
}

/// How many bytes were read since the last `CRLF`, or since the start.
pub open spec fn longueur_de_ligne(lu: Seq<u8>) -> nat
    decreases lu.len(),
{
    if lu.len() == 0 || en_debut_de_ligne(lu) {
        0
    } else {
        longueur_de_ligne(lu.drop_last()) + 1
    }
}

/// Has the empty line that ends the header block been read: a line made of
/// its `CRLF` alone?
pub open spec fn entete_lu(lu: Seq<u8>) -> bool
    decreases lu.len(),
{
    if lu.len() == 0 {
        false
    } else {
        entete_lu(lu.drop_last()) || (en_debut_de_ligne(lu) && longueur_de_ligne(lu.drop_last()) == 1)
    }
}

/// How many body lines were read: every line ended by a `CRLF` after the
/// header block, the empty ones included.
pub open spec fn lignes_de_corps_lues(lu: Seq<u8>) -> nat
    decreases lu.len(),
{
    if lu.len() == 0 {
        0
    } else {
        lignes_de_corps_lues(lu.drop_last()) + if entete_lu(lu.drop_last()) && en_debut_de_ligne(lu) { 1nat } else { 0nat }
    }
}

/// Has everything asked been given: the header block and `n` body lines for
/// `TOP n`; never for `RETR` (`None`), which gives the whole message.
pub open spec fn tout_donne(lu: Seq<u8>, lignes: Option<u32>) -> bool {
    match lignes {
        None => false,
        Some(n) => entete_lu(lu) && lignes_de_corps_lues(lu) >= n,
    }
}

/// What sending `message` must emit: each byte as it is, but a `.` that
/// starts a line is preceded by a second `.`; and nothing once everything
/// asked has been given.
pub open spec fn emission_attendue(message: Seq<u8>, lignes: Option<u32>) -> Seq<u8>
    decreases message.len(),
{
    if message.len() == 0 {
        Seq::empty()
    } else {
        let lu = message.drop_last();
        let c = message.last();
        emission_attendue(lu, lignes) + if tout_donne(lu, lignes) {
            Seq::<u8>::empty()
        } else if c == 46u8 && en_debut_de_ligne(lu) {
            seq![46u8, 46u8]
        } else {
            seq![c]
        }
    }
}

/// Before the header block ends, no body line is counted.
proof fn lemme_pas_de_corps_avant_l_entete(lu: Seq<u8>)
    ensures
        !entete_lu(lu) ==> lignes_de_corps_lues(lu) == 0,
    decreases lu.len(),
{
    if lu.len() > 0 {
        lemme_pas_de_corps_avant_l_entete(lu.drop_last());
    }
}

/// What the sender of a fresh message knows of the bytes it was given.
spec fn emission_conforme(lu: Seq<u8>, lignes: Option<u32>) -> bool {
    let (s, e) = emission_entiere(emission_neuve(lignes), lu);
    &&& e == emission_attendue(lu, lignes)
    &&& s.fini == tout_donne(lu, lignes)
    &&& !s.fini ==> {
        &&& s.debut_de_ligne == en_debut_de_ligne(lu)
        &&& s.cr_vu == (lu.len() > 0 && lu.last() == 13u8)
        &&& s.octets_de_la_ligne as nat == if longueur_de_ligne(lu) < usize::MAX { longueur_de_ligne(lu) } else { usize::MAX as nat }
        &&& s.dans_le_corps == entete_lu(lu)
        &&& s.lignes_restantes == match lignes {
            None => None,
            Some(n) => Some((n - lignes_de_corps_lues(lu)) as u32),
        }
        &&& lignes matches Some(n) ==> lignes_de_corps_lues(lu) <= n
    }
}

/// One more byte keeps the sender faithful to the bytes it was given.
proof fn lemme_emission_un_octet(lu: Seq<u8>, c: u8, lignes: Option<u32>)
    requires
        emission_conforme(lu, lignes),
    ensures
        emission_conforme(lu.push(c), lignes),
{
    let q = lu.push(c);
    assert(q.drop_last() =~= lu);
    assert(q.last() == c);
    let (s, e) = emission_entiere(emission_neuve(lignes), lu);
    assert(emission_entiere(emission_neuve(lignes), q) == (pas_emission(s, c).0, e + pas_emission(s, c).1));
    lemme_pas_de_corps_avant_l_entete(lu);
    if s.fini {
        assert(pas_emission(s, c).1 =~= Seq::<u8>::empty());
        assert(e + Seq::<u8>::empty() =~= e);
    } else {
        assert(en_debut_de_ligne(q) == (c == 10u8 && s.cr_vu));
        if c == 10u8 && s.cr_vu {
            assert(en_debut_de_ligne(q));
        } else {
            assert(!en_debut_de_ligne(q));
            assert(longueur_de_ligne(q) == longueur_de_ligne(lu) + 1);
        }
    }
}

/// The sender reads the bytes of a fresh message faithfully.
proof fn lemme_emission(lu: Seq<u8>, lignes: Option<u32>)
    ensures
        emission_conforme(lu, lignes),
    decreases lu.len(),
{
    if lu.len() == 0 {
        assert(emission_attendue(lu, lignes) == Seq::<u8>::empty());
    } else {
        lemme_emission(lu.drop_last(), lignes);
        lemme_emission_un_octet(lu.drop_last(), lu.last(), lignes);
        assert(lu.drop_last().push(lu.last()) =~= lu);
    }
}

/// What a fresh message gives, however it is cut (see
/// [`loi_emission_independante_du_decoupage`]): its bytes with a second `.`
/// before each `.` that starts a line, and nothing else added. `RETR`
/// (`None`) gives the whole message; `TOP n` stops after the header block,
/// its empty line, and exactly `n` body lines ended by a `CRLF`, empty ones
/// counted, or at the end of the message.
pub proof fn loi_ce_qu_un_message_emet(message: Seq<u8>, lignes: Option<u32>)
    ensures
        emission_entiere(emission_neuve(lignes), message).1 == emission_attendue(message, lignes),
        emission_entiere(emission_neuve(lignes), message).0.fini == tout_donne(message, lignes),
{
    lemme_emission(message, lignes);
}

} // verus!
