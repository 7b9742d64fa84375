//! The count of hops already made (RFC 5321 §6.3).
//!
//! Two misconfigured servers that send a message back and forth multiply it
//! on every round. The only method that works without shared memory is to
//! count the `Received:` fields, and to refuse beyond a wide threshold. This
//! counter sees the bytes go by without keeping them: it only knows its
//! position in a line, and whether that line looked like the start of
//! `Received:`. Nothing grows with the message.

use vstd::prelude::*;

verus! {

/// The name of the counted field, in lower case: `received:`.
pub open spec fn champ() -> Seq<u8> {
    seq![114u8, 101u8, 99u8, 101u8, 105u8, 118u8, 101u8, 100u8, 58u8]
}

/// ASCII lower case of a byte.
pub open spec fn minuscule(c: u8) -> u8 {
    if 65u8 <= c <= 90u8 {
        (c + 32) as u8
    } else {
        c
    }
}

/// What the counter is reading.
#[derive(Debug, Clone, Copy, PartialEq, Eq, Structural)]
pub enum Ou {
    /// At the start of a line, `vus` bytes of the field name already matched.
    Debut { vus: usize },
    /// Elsewhere in the line: nothing to recognise before the next `LF`.
    Ailleurs,
    /// The empty line has been seen: the header block is over.
    Corps,
}

/// Counts the `Received:` fields of a header block, byte by byte.
#[derive(Debug, Clone)]
///
/// Its fields are the whole reading position, open so that the counting
/// rule ([`pas`], [`apres`]) can be read and computed by its callers.
pub struct Sauts {
    /// What is being read.
    pub ou: Ou,
    /// Bytes already read on the current line, `LF` excluded.
    pub dans_la_ligne: usize,
    /// The `Received:` fields counted so far, saturating.
    pub combien: u32,
}

/// The counter at the start of a fresh message.
pub open spec fn sauts_neufs() -> Sauts {
    Sauts { ou: Ou::Debut { vus: 0 }, dans_la_ligne: 0, combien: 0 }
}

/// The counter after one more byte.
pub open spec fn pas(s: Sauts, octet: u8) -> Sauts {
    if s.ou == Ou::Corps {
        s
    } else if octet == 10u8 {
        Sauts {
            ou: if s.dans_la_ligne <= 1 { Ou::Corps } else { Ou::Debut { vus: 0 } },
            dans_la_ligne: 0,
            combien: s.combien,
        }
    } else {
        let dans_la_ligne = if s.dans_la_ligne == usize::MAX {
            usize::MAX
        } else {
            (s.dans_la_ligne + 1) as usize
        };
        match s.ou {
            Ou::Debut { vus } => {
                if vus < champ().len() && champ()[vus as int] == minuscule(octet) {
                    if vus + 1 == champ().len() {
                        Sauts {
                            ou: Ou::Ailleurs,
                            dans_la_ligne,
                            combien: if s.combien == u32::MAX {
                                u32::MAX
                            } else {
                                (s.combien + 1) as u32
                            },
                        }
                    } else {
                        Sauts { ou: Ou::Debut { vus: (vus + 1) as usize }, dans_la_ligne, combien: s.combien }
                    }
                } else {
                    Sauts { ou: Ou::Ailleurs, dans_la_ligne, combien: s.combien }
                }
            },
            _ => Sauts { ou: s.ou, dans_la_ligne, combien: s.combien },
        }
    }
}

/// The counter after a sequence of bytes, read in order.
pub open spec fn apres(s: Sauts, octets: Seq<u8>) -> Sauts
    decreases octets.len(),
{
    if octets.len() == 0 {
        s
    } else {
        pas(apres(s, octets.drop_last()), octets.last())
    }
}

impl Sauts {
    /// The number of `Received:` fields seen by this state.
    pub open spec fn spec_count(self) -> u32 {
        self.combien
    }

    /// Has the counter reached the body of the message?
    pub open spec fn dans_le_corps(self) -> bool {
        self.ou == Ou::Corps
    }

    /// A counter for a fresh message.
    pub fn new() -> (s: Self)
        ensures
            s == sauts_neufs(),
            s.spec_count() == 0,
    {
        Sauts { ou: Ou::Debut { vus: 0 }, dans_la_ligne: 0, combien: 0 }
    }

    /// How many `Received:` fields have been seen.
    pub fn count(&self) -> (r: u32)
        ensures
            r == self.spec_count(),
    {
        self.combien
    }

    /// Gives bytes of the message.
    ///
    /// How the message is cut does not matter: see
    /// [`loi_le_decoupage_ne_change_rien`].
    pub fn update(&mut self, morceau: &[u8])
        ensures
            *final(self) == apres(*old(self), morceau@),
    {
        let mut i: usize = 0;
        while i < morceau.len()
            invariant
                i <= morceau@.len(),
                *self == apres(*old(self), morceau@.take(i as int)),
            decreases morceau@.len() - i,
        {
            assert(morceau@.take(i + 1).drop_last() == morceau@.take(i as int));
            self.avancer(morceau[i]);
            i = i + 1;
        }
        assert(morceau@.take(i as int) == morceau@);
    }

    /// One more byte.
    fn avancer(&mut self, octet: u8)
        ensures
            *final(self) == pas(*old(self), octet),
    {
        if self.ou == Ou::Corps {
            return;
        }
        if octet == 10u8 {
            // An EMPTY line closes the header block. The `CR` of `CRLF`
            // counts for one byte: an empty line therefore holds exactly one.
            if self.dans_la_ligne <= 1 {
                self.ou = Ou::Corps;
            } else {
                self.ou = Ou::Debut { vus: 0 };
            }
            self.dans_la_ligne = 0;
            return;
        }
        self.dans_la_ligne = self.dans_la_ligne.saturating_add(1);
        let vus = match self.ou {
            Ou::Debut { vus } => vus,
            _ => {
                return;
            },
        };
        // Case does not matter: a field name compares without it
        // (RFC 5322 §2.2).
        let attendu = octet_du_champ(vus);
        if attendu.is_some() && attendu.unwrap() == en_minuscule(octet) {
            let vus = vus + 1;
            if vus == 9 {
                self.combien = self.combien.saturating_add(1);
                self.ou = Ou::Ailleurs;
            } else {
                self.ou = Ou::Debut { vus };
            }
            return;
        }
        self.ou = Ou::Ailleurs;
    }
}

/// The byte of `received:` at rank `vus`, if there is one.
fn octet_du_champ(vus: usize) -> (r: Option<u8>)
    ensures
        vus < champ().len() ==> r == Some(champ()[vus as int]),
        vus >= champ().len() ==> r.is_none(),
{
    match vus {
        0 => Some(114u8),
        1 => Some(101u8),
        2 => Some(99u8),
        3 => Some(101u8),
        4 => Some(105u8),
        5 => Some(118u8),
        6 => Some(101u8),
        7 => Some(100u8),
        8 => Some(58u8),
        _ => None,
    }
}

/// ASCII lower case of a byte.
fn en_minuscule(c: u8) -> (r: u8)
    ensures
        r == minuscule(c),
{
    if 65u8 <= c && c <= 90u8 {
        c + 32
    } else {
        c
    }
}

/// How a message is cut into reads changes nothing: two calls are worth one
/// call on the concatenation.
pub proof fn loi_le_decoupage_ne_change_rien(s: Sauts, a: Seq<u8>, b: Seq<u8>)
    ensures
        apres(apres(s, a), b) == apres(s, a + b),
    decreases b.len(),
{
    if b.len() == 0 {
        assert(a + b == a);
    } else {
        loi_le_decoupage_ne_change_rien(s, a, b.drop_last());
        assert((a + b).drop_last() == a + b.drop_last());
        assert((a + b).last() == b.last());
    }
}

/// What stands after the empty line counts for nothing: once in the body,
/// no byte changes the count.
pub proof fn loi_le_corps_ne_compte_pas(s: Sauts, octets: Seq<u8>)
    requires
        s.dans_le_corps(),
    ensures
        apres(s, octets) == s,
    decreases octets.len(),
{
    if octets.len() > 0 {
        loi_le_corps_ne_compte_pas(s, octets.drop_last());
    }
}

/// The count never goes down.
pub proof fn loi_le_compte_ne_decroit_pas(s: Sauts, octets: Seq<u8>)
    ensures
        apres(s, octets).spec_count() >= s.spec_count(),
    decreases octets.len(),
{
    if octets.len() > 0 {
        loi_le_compte_ne_decroit_pas(s, octets.drop_last());
    }
}

/// Reading nothing changes nothing.
pub proof fn loi_rien_ne_change_rien(s: Sauts)
    ensures
        apres(s, Seq::empty()) == s,
{
}

/// The number of colons in `octets`.
pub open spec fn deux_points(octets: Seq<u8>) -> nat
    decreases octets.len(),
{
    if octets.len() == 0 {
        0
    } else {
        deux_points(octets.drop_last()) + if octets.last() == 58u8 { 1nat } else { 0nat }
    }
}

/// A field is counted at its colon: the count grows by at most one per
/// colon read, and saturates rather than wraps.
pub proof fn loi_un_saut_par_deux_points(s: Sauts, octets: Seq<u8>)
    ensures
        s.spec_count() <= apres(s, octets).spec_count(),
        apres(s, octets).spec_count() <= s.spec_count() + deux_points(octets),
    decreases octets.len(),
{
    if octets.len() > 0 {
        loi_un_saut_par_deux_points(s, octets.drop_last());
        let avant = apres(s, octets.drop_last());
        let c = octets.last();
        assert(champ()[8] == 58u8);
        if pas(avant, c).spec_count() != avant.spec_count() {
            assert(c == 58u8);
        }
    }
}

/// How many bytes stand since the last `LF` of `octets`, or since its start.
pub open spec fn depuis_la_fin_de_ligne(octets: Seq<u8>) -> nat
    decreases octets.len(),
{
    if octets.len() == 0 {
        0
    } else if octets.last() == 10u8 {
        0
    } else {
        depuis_la_fin_de_ligne(octets.drop_last()) + 1
    }
}

/// Does `octets` hold an empty line: an `LF` preceded by at most one byte
/// since the previous `LF` or the start (the `CR` of `CRLF`)?
pub open spec fn ligne_vide(octets: Seq<u8>) -> bool {
    exists|i: int| 0 <= i < octets.len() && octets[i] == 10u8 && #[trigger] depuis_la_fin_de_ligne(octets.take(i)) <= 1
}

/// Outside the body, the counter knows how many bytes its line holds.
proof fn lemme_position(octets: Seq<u8>)
    ensures
        !apres(sauts_neufs(), octets).dans_le_corps() ==> apres(sauts_neufs(), octets).dans_la_ligne as nat == if depuis_la_fin_de_ligne(octets) < usize::MAX {
            depuis_la_fin_de_ligne(octets)
        } else {
            usize::MAX as nat
        },
    decreases octets.len(),
{
    if octets.len() > 0 {
        lemme_position(octets.drop_last());
        let avant = apres(sauts_neufs(), octets.drop_last());
        if avant.dans_le_corps() {
            loi_le_corps_ne_compte_pas(avant, seq![octets.last()]);
            assert(apres(avant, seq![octets.last()]) == pas(avant, octets.last())) by {
                assert(seq![octets.last()].drop_last() =~= Seq::<u8>::empty());
            }
        }
    }
}

/// Once the empty line is read, the header block is over: what follows,
/// however it is cut, never changes the count.
pub proof fn loi_apres_la_ligne_vide_rien_ne_compte(entete: Seq<u8>, suite: Seq<u8>)
    requires
        ligne_vide(entete),
    ensures
        apres(sauts_neufs(), entete).dans_le_corps(),
        apres(sauts_neufs(), entete + suite).spec_count() == apres(sauts_neufs(), entete).spec_count(),
{
    let i = choose|i: int| 0 <= i < entete.len() && entete[i] == 10u8 && #[trigger] depuis_la_fin_de_ligne(entete.take(i)) <= 1;
    lemme_position(entete.take(i));
    let debut = entete.take(i + 1);
    assert(debut.drop_last() =~= entete.take(i));
    assert(debut.last() == 10u8);
    assert(apres(sauts_neufs(), debut).dans_le_corps());
    assert(entete =~= debut + entete.skip(i + 1));
    loi_le_decoupage_ne_change_rien(sauts_neufs(), debut, entete.skip(i + 1));
    loi_le_corps_ne_compte_pas(apres(sauts_neufs(), debut), entete.skip(i + 1));
    loi_le_decoupage_ne_change_rien(sauts_neufs(), entete, suite);
    loi_le_corps_ne_compte_pas(apres(sauts_neufs(), entete), suite);
}

/// Does the last byte of `octets` complete the name `Received:` at the start
/// of a line of the header block? The name compares without case.
pub open spec fn complete_un_champ(octets: Seq<u8>) -> bool {
    &&& octets.len() >= 9
    &&& {
        let i = octets.len() - 9;
        &&& (i == 0 || octets[i - 1] == 10u8)
        &&& !ligne_vide(octets.take(i))
        &&& forall|k: int| 0 <= k < 9 ==> #[trigger] minuscule(octets[i + k]) == champ()[k]
    }
}

/// How many `Received:` field names the header block of `octets` holds.
pub open spec fn received_lus(octets: Seq<u8>) -> nat
    decreases octets.len(),
{
    if octets.len() == 0 {
        0
    } else {
        received_lus(octets.drop_last()) + if complete_un_champ(octets) { 1nat } else { 0nat }
    }
}

/// The bytes of the current line spell the start of `received:`.
pub open spec fn prefixe_du_champ(octets: Seq<u8>) -> bool {
    let d = depuis_la_fin_de_ligne(octets);
    &&& d < 9
    &&& forall|k: int| 0 <= k < d ==> #[trigger] minuscule(octets[octets.len() - d + k]) == champ()[k]
}

/// A count that saturates at `u32::MAX`.
pub open spec fn sature(n: nat) -> u32 {
    if n < u32::MAX { n as u32 } else { u32::MAX }
}

/// Where the last line of `octets` starts, and that it holds no `LF`.
proof fn lemme_fin_de_ligne(octets: Seq<u8>)
    ensures
        depuis_la_fin_de_ligne(octets) <= octets.len(),
        depuis_la_fin_de_ligne(octets) < octets.len() ==> octets[octets.len() - depuis_la_fin_de_ligne(octets) - 1] == 10u8,
        forall|j: int| octets.len() - depuis_la_fin_de_ligne(octets) <= j < octets.len() ==> octets[j] != 10u8,
    decreases octets.len(),
{
    if octets.len() > 0 {
        let avant = octets.drop_last();
        lemme_fin_de_ligne(avant);
        if octets.last() != 10u8 {
            assert forall|j: int| octets.len() - depuis_la_fin_de_ligne(octets) <= j < octets.len() implies octets[j] != 10u8 by {
                if j < avant.len() {
                    assert(octets[j] == avant[j]);
                }
            }
        }
    }
}

/// A line that starts at `i` and holds no `LF` is `len - i` bytes long.
proof fn lemme_debut_de_ligne(octets: Seq<u8>, i: int)
    requires
        0 <= i <= octets.len(),
        i == 0 || octets[i - 1] == 10u8,
        forall|j: int| i <= j < octets.len() ==> octets[j] != 10u8,
    ensures
        depuis_la_fin_de_ligne(octets) == octets.len() - i,
    decreases octets.len(),
{
    if octets.len() > i {
        lemme_debut_de_ligne(octets.drop_last(), i);
    } else if octets.len() > 0 {
        assert(octets.last() == 10u8);
    }
}

/// An empty line found in a prefix is found in the whole.
proof fn lemme_ligne_vide_prefixe(octets: Seq<u8>, i: int)
    requires
        0 <= i <= octets.len(),
        ligne_vide(octets.take(i)),
    ensures
        ligne_vide(octets),
{
    let j = choose|j: int| 0 <= j < octets.take(i).len() && octets.take(i)[j] == 10u8
        && #[trigger] depuis_la_fin_de_ligne(octets.take(i).take(j)) <= 1;
    assert(octets.take(i).take(j) =~= octets.take(j));
    assert(octets[j] == 10u8);
    assert(depuis_la_fin_de_ligne(octets.take(j)) <= 1);
}

/// A byte that is no `LF` neither makes nor unmakes an empty line.
proof fn lemme_ligne_vide_octet(octets: Seq<u8>, c: u8)
    requires
        c != 10u8,
    ensures
        ligne_vide(octets.push(c)) == ligne_vide(octets),
{
    let q = octets.push(c);
    assert(q.take(octets.len() as int) =~= octets);
    if ligne_vide(octets) {
        lemme_ligne_vide_prefixe(q, octets.len() as int);
    }
    if ligne_vide(q) {
        let j = choose|j: int| 0 <= j < q.len() && q[j] == 10u8 && #[trigger] depuis_la_fin_de_ligne(q.take(j)) <= 1;
        assert(j < octets.len());
        assert(q.take(j) =~= octets.take(j));
        assert(octets[j] == 10u8);
        assert(depuis_la_fin_de_ligne(octets.take(j)) <= 1);
    }
}

/// What completing a field name asks of the last line.
proof fn lemme_complete(octets: Seq<u8>)
    requires
        complete_un_champ(octets),
    ensures
        depuis_la_fin_de_ligne(octets) == 9,
        octets.last() == 58u8,
{
    let i = octets.len() - 9;
    assert forall|j: int| i <= j < octets.len() implies octets[j] != 10u8 by {
        assert(minuscule(octets[i + (j - i)]) == champ()[j - i]);
    }
    lemme_debut_de_ligne(octets, i);
    assert(minuscule(octets[i + 8]) == champ()[8]);
}

/// What the counter knows of a prefix it read from the start.
spec fn lecture_conforme(octets: Seq<u8>) -> bool {
    let s = apres(sauts_neufs(), octets);
    &&& s.dans_le_corps() == ligne_vide(octets)
    &&& s.combien == sature(received_lus(octets))
    &&& !s.dans_le_corps() && prefixe_du_champ(octets)
        ==> s.ou == (Ou::Debut { vus: depuis_la_fin_de_ligne(octets) as usize })
    &&& !s.dans_le_corps() && !prefixe_du_champ(octets) ==> s.ou == Ou::Ailleurs
}

/// One more byte keeps the counter faithful to the bytes it read.
proof fn lemme_un_octet(octets: Seq<u8>, c: u8)
    requires
        lecture_conforme(octets),
    ensures
        lecture_conforme(octets.push(c)),
{
    let q = octets.push(c);
    let s = apres(sauts_neufs(), octets);
    assert(q.drop_last() =~= octets);
    assert(apres(sauts_neufs(), q) == pas(s, c));
    let d: int = depuis_la_fin_de_ligne(octets) as int;
    lemme_fin_de_ligne(octets);
    lemme_position(octets);
    if complete_un_champ(q) {
        lemme_complete(q);
    }
    if s.dans_le_corps() {
        // The empty line stays before any line that could complete a name.
        lemme_ligne_vide_prefixe(q, octets.len() as int);
        assert(q.take(octets.len() as int) =~= octets);
        if complete_un_champ(q) {
            let i = q.len() - 9;
            let j = choose|j: int| 0 <= j < octets.len() && octets[j] == 10u8 && #[trigger] depuis_la_fin_de_ligne(octets.take(j)) <= 1;
            lemme_fin_de_ligne(q);
            assert(j < i);
            assert(q.take(i).take(j) =~= octets.take(j));
            assert(q.take(i)[j] == 10u8);
            assert(depuis_la_fin_de_ligne(q.take(i).take(j)) <= 1);
            assert(ligne_vide(q.take(i)));
        }
    } else if c == 10u8 {
        assert(!complete_un_champ(q));
        if s.dans_la_ligne <= 1 {
            assert(q.take(octets.len() as int) =~= octets);
            assert(q[octets.len() as int] == 10u8);
            assert(depuis_la_fin_de_ligne(q.take(octets.len() as int)) <= 1);
            assert(ligne_vide(q));
        } else {
            assert(!ligne_vide(q)) by {
                if ligne_vide(q) {
                    let j = choose|j: int| 0 <= j < q.len() && q[j] == 10u8 && #[trigger] depuis_la_fin_de_ligne(q.take(j)) <= 1;
                    assert(q.take(j) =~= octets.take(j) || j == octets.len());
                    if j < octets.len() {
                        assert(q.take(j) =~= octets.take(j));
                        assert(octets[j] == 10u8);
                        assert(depuis_la_fin_de_ligne(octets.take(j)) <= 1);
                    } else {
                        assert(q.take(j) =~= octets);
                    }
                }
            }
            assert(prefixe_du_champ(q));
        }
    } else {
        lemme_ligne_vide_octet(octets, c);
        let i = q.len() - 9;
        // The current line grows by `c`.
        assert(depuis_la_fin_de_ligne(q) == d + 1);
        assert forall|k: int| 0 <= k < d implies #[trigger] q[q.len() - (d + 1) + k] == octets[octets.len() - d + k] by {}
        assert(q[q.len() - (d + 1) + d] == c);
        if prefixe_du_champ(q) {
            assert(prefixe_du_champ(octets)) by {
                assert forall|k: int| 0 <= k < d implies #[trigger] minuscule(octets[octets.len() - d + k]) == champ()[k] by {
                    assert(minuscule(q[q.len() - (d + 1) + k]) == champ()[k]);
                }
            }
        }
        if complete_un_champ(q) {
            assert(d == 8);
            assert(prefixe_du_champ(octets)) by {
                assert forall|k: int| 0 <= k < d implies #[trigger] minuscule(octets[octets.len() - d + k]) == champ()[k] by {
                    assert(minuscule(q[i + k]) == champ()[k]);
                }
            }
            assert(minuscule(q[i + 8]) == champ()[8]);
        }
        if prefixe_du_champ(octets) {
            let vus = d as usize;
            if vus < champ().len() && champ()[vus as int] == minuscule(c) {
                if d + 1 < 9 {
                    assert(prefixe_du_champ(q)) by {
                        assert forall|k: int| 0 <= k < d + 1 implies #[trigger] minuscule(q[q.len() - (d + 1) + k]) == champ()[k] by {
                            if k < d {
                                assert(minuscule(octets[octets.len() - d + k]) == champ()[k]);
                            }
                        }
                    }
                    assert(!complete_un_champ(q));
                } else {
                    assert(d == 8);
                    assert(complete_un_champ(q)) by {
                        if i > 0 {
                            assert(octets[octets.len() - d - 1] == 10u8);
                            assert(q[i - 1] == 10u8);
                        }
                        assert(q.take(i) =~= octets.take(i));
                        if ligne_vide(octets.take(i)) {
                            lemme_ligne_vide_prefixe(octets, i);
                        }
                        assert forall|k: int| 0 <= k < 9 implies #[trigger] minuscule(q[i + k]) == champ()[k] by {
                            if k < 8 {
                                assert(minuscule(octets[octets.len() - d + k]) == champ()[k]);
                            }
                        }
                    }
                }
            } else {
                assert(!prefixe_du_champ(q)) by {
                    if prefixe_du_champ(q) {
                        assert(minuscule(q[q.len() - (d + 1) + d]) == champ()[d]);
                    }
                }
                if complete_un_champ(q) {
                    assert(minuscule(q[i + 8]) == champ()[8]);
                }
            }
        }
    }
}

/// The counter reads the bytes it was given, from the start.
proof fn lemme_lecture(octets: Seq<u8>)
    ensures
        lecture_conforme(octets),
    decreases octets.len(),
{
    if octets.len() == 0 {
        assert(prefixe_du_champ(octets));
        assert(!ligne_vide(octets));
    } else {
        lemme_lecture(octets.drop_last());
        lemme_un_octet(octets.drop_last(), octets.last());
        assert(octets.drop_last().push(octets.last()) =~= octets);
    }
}

/// The count of a fresh counter is the number of `Received:` fields that
/// start a line of the header block, name compared without case, counted at
/// their colon, saturating at `u32::MAX`.
pub proof fn loi_le_compte_est_celui_des_champs(octets: Seq<u8>)
    ensures
        apres(sauts_neufs(), octets).spec_count() == sature(received_lus(octets)),
{
    lemme_lecture(octets);
}

/// The lines of `octets`, cut at each `LF`, which no line keeps. The last
/// line is what follows the last `LF`, possibly nothing.
pub open spec fn lignes(octets: Seq<u8>) -> Seq<Seq<u8>>
    decreases octets.len(),
{
    if octets.len() == 0 {
        seq![Seq::<u8>::empty()]
    } else if octets.last() == 10u8 {
        lignes(octets.drop_last()).push(Seq::empty())
    } else {
        let l = lignes(octets.drop_last());
        l.update(l.len() - 1, l.last().push(octets.last()))
    }
}

/// Does a line start with the field name `received:`, without case?
pub open spec fn nomme_received(ligne: Seq<u8>) -> bool {
    &&& ligne.len() >= 9
    &&& forall|k: int| 0 <= k < 9 ==> #[trigger] minuscule(ligne[k]) == champ()[k]
}

/// No one of these lines, all ended by an `LF`, is the empty line that ends
/// the header block (at most one byte: the `CR` of `CRLF`).
pub open spec fn entete_ouverte(lignes: Seq<Seq<u8>>) -> bool {
    forall|j: int| 0 <= j < lignes.len() ==> #[trigger] lignes[j].len() > 1
}

/// How many lines of the header block name `Received:`: a line counts when
/// no line before it ended the block.
pub open spec fn received_des_lignes(lignes: Seq<Seq<u8>>) -> nat
    decreases lignes.len(),
{
    if lignes.len() == 0 {
        0
    } else {
        received_des_lignes(lignes.drop_last())
            + if entete_ouverte(lignes.drop_last()) && nomme_received(lignes.last()) { 1nat } else { 0nat }
    }
}

/// The last line is what was read since the last `LF`.
proof fn lemme_derniere_ligne(octets: Seq<u8>)
    ensures
        lignes(octets).len() >= 1,
        lignes(octets).last() == octets.skip(octets.len() - depuis_la_fin_de_ligne(octets)),
    decreases octets.len(),
{
    lemme_fin_de_ligne(octets);
    if octets.len() > 0 {
        let avant = octets.drop_last();
        lemme_derniere_ligne(avant);
        lemme_fin_de_ligne(avant);
        if octets.last() == 10u8 {
            assert(octets.skip(octets.len() as int) =~= Seq::<u8>::empty());
        } else {
            let d = depuis_la_fin_de_ligne(avant);
            assert(avant.skip(avant.len() - d).push(octets.last()) =~= octets.skip(octets.len() - (d + 1)));
        }
    } else {
        assert(octets.skip(0) =~= Seq::<u8>::empty());
    }
}

/// The lines before the last are those of the bytes before the last line.
proof fn lemme_lignes_du_debut(octets: Seq<u8>)
    ensures
        depuis_la_fin_de_ligne(octets) <= octets.len(),
        lignes(octets.take(octets.len() - depuis_la_fin_de_ligne(octets))).drop_last() == lignes(octets).drop_last(),
    decreases octets.len(),
{
    lemme_fin_de_ligne(octets);
    if octets.len() == 0 {
        assert(octets.take(0) =~= octets);
    } else {
        let avant = octets.drop_last();
        lemme_lignes_du_debut(avant);
        lemme_derniere_ligne(avant);
        if octets.last() == 10u8 {
            assert(octets.take(octets.len() as int) =~= octets);
        } else {
            let d = depuis_la_fin_de_ligne(avant);
            let i = avant.len() - d;
            assert(octets.take(i) =~= avant.take(i));
            let l = lignes(avant);
            assert(l.update(l.len() - 1, l.last().push(octets.last())).drop_last() =~= l.drop_last());
        }
    }
}

/// Reading an `LF` makes an empty line exactly when the line it ends holds
/// at most one byte.
proof fn lemme_ligne_vide_lf(octets: Seq<u8>)
    ensures
        ligne_vide(octets.push(10u8)) == (ligne_vide(octets) || depuis_la_fin_de_ligne(octets) <= 1),
{
    let q = octets.push(10u8);
    assert(q.take(octets.len() as int) =~= octets);
    if ligne_vide(octets) {
        lemme_ligne_vide_prefixe(q, octets.len() as int);
    }
    if depuis_la_fin_de_ligne(octets) <= 1 {
        assert(q[octets.len() as int] == 10u8);
        assert(depuis_la_fin_de_ligne(q.take(octets.len() as int)) <= 1);
    }
    if ligne_vide(q) {
        let j = choose|j: int| 0 <= j < q.len() && q[j] == 10u8 && #[trigger] depuis_la_fin_de_ligne(q.take(j)) <= 1;
        if j < octets.len() {
            assert(q.take(j) =~= octets.take(j));
            assert(octets[j] == 10u8);
            assert(depuis_la_fin_de_ligne(octets.take(j)) <= 1);
        }
    }
}

/// The header block is closed exactly when one of the ended lines is empty.
proof fn lemme_ligne_vide_des_lignes(octets: Seq<u8>)
    ensures
        ligne_vide(octets) == !entete_ouverte(lignes(octets).drop_last()),
    decreases octets.len(),
{
    if octets.len() == 0 {
        assert(lignes(octets).drop_last() =~= Seq::<Seq<u8>>::empty());
        assert(!ligne_vide(octets));
    } else {
        let avant = octets.drop_last();
        let c = octets.last();
        assert(avant.push(c) =~= octets);
        lemme_ligne_vide_des_lignes(avant);
        lemme_derniere_ligne(avant);
        let l = lignes(avant);
        if c == 10u8 {
            lemme_ligne_vide_lf(avant);
            assert(lignes(octets).drop_last() =~= l);
            assert(l =~= l.drop_last().push(l.last()));
            assert(entete_ouverte(l) == (entete_ouverte(l.drop_last()) && l.last().len() > 1)) by {
                if entete_ouverte(l.drop_last()) && l.last().len() > 1 {
                    assert forall|j: int| 0 <= j < l.len() implies #[trigger] l[j].len() > 1 by {
                        if j < l.len() - 1 {
                            assert(l[j] == l.drop_last()[j]);
                        }
                    }
                }
                if entete_ouverte(l) {
                    assert(l[l.len() - 1].len() > 1);
                    assert forall|j: int| 0 <= j < l.drop_last().len() implies #[trigger] l.drop_last()[j].len() > 1 by {
                        assert(l.drop_last()[j] == l[j]);
                    }
                }
            }
            lemme_fin_de_ligne(avant);
        } else {
            lemme_ligne_vide_octet(avant, c);
            assert(l.update(l.len() - 1, l.last().push(c)).drop_last() =~= l.drop_last());
        }
    }
}

/// Counting the completed names and counting the named lines agree.
proof fn lemme_received_des_lignes(octets: Seq<u8>)
    ensures
        received_lus(octets) == received_des_lignes(lignes(octets)),
    decreases octets.len(),
{
    if octets.len() > 0 {
        let avant = octets.drop_last();
        let c = octets.last();
        assert(avant.push(c) =~= octets);
        lemme_received_des_lignes(avant);
        lemme_derniere_ligne(avant);
        lemme_fin_de_ligne(avant);
        let l = lignes(avant);
        let d = depuis_la_fin_de_ligne(avant);
        if complete_un_champ(octets) {
            lemme_complete(octets);
        }
        assert(received_lus(octets) == received_lus(avant) + if complete_un_champ(octets) { 1nat } else { 0nat });
        if c == 10u8 {
            let q = lignes(octets);
            assert(q.drop_last() =~= l);
            assert(q.last() == Seq::<u8>::empty());
            assert(!nomme_received(q.last()));
            assert(!complete_un_champ(octets));
            assert(received_des_lignes(q) == received_des_lignes(l)
                + if entete_ouverte(l) && nomme_received(q.last()) { 1nat } else { 0nat });
            assert(received_lus(octets) == received_des_lignes(q));
        } else {
            let q = lignes(octets);
            let ld = l.drop_last();
            let derniere = l.last();
            assert(q.drop_last() =~= ld);
            assert(q.last() == derniere.push(c));
            assert(l.drop_last() == ld);
            assert(derniere == avant.skip(avant.len() - d));
            // The bytes before the current line close the header block as
            // the ended lines do.
            let i = avant.len() - d;
            lemme_lignes_du_debut(avant);
            lemme_ligne_vide_des_lignes(avant.take(i));
            assert(octets.take(i) =~= avant.take(i));
            assert(entete_ouverte(ld) == !ligne_vide(octets.take(i)));
            assert(depuis_la_fin_de_ligne(octets) == d + 1);
            assert(l =~= ld.push(derniere));
            assert(received_des_lignes(l) == received_des_lignes(ld)
                + if entete_ouverte(ld) && nomme_received(derniere) { 1nat } else { 0nat });
            assert(received_des_lignes(q) == received_des_lignes(ld)
                + if entete_ouverte(ld) && nomme_received(derniere.push(c)) { 1nat } else { 0nat });
            if nomme_received(derniere) {
                assert(nomme_received(derniere.push(c))) by {
                    assert forall|k: int| 0 <= k < 9 implies #[trigger] minuscule(derniere.push(c)[k]) == champ()[k] by {
                        assert(derniere.push(c)[k] == derniere[k]);
                    }
                }
            }
            if complete_un_champ(octets) {
                assert(d == 8);
                assert(octets.len() - 9 == i);
                assert(entete_ouverte(ld));
                assert(!nomme_received(derniere));
                assert(nomme_received(derniere.push(c))) by {
                    assert forall|k: int| 0 <= k < 9 implies #[trigger] minuscule(derniere.push(c)[k]) == champ()[k] by {
                        assert(derniere.push(c)[k] == octets[i + k]);
                        assert(minuscule(octets[i + k]) == champ()[k]);
                    }
                }
            }
            if !nomme_received(derniere) && nomme_received(derniere.push(c)) && entete_ouverte(ld) {
                if derniere.len() >= 9 {
                    assert(nomme_received(derniere)) by {
                        assert forall|k: int| 0 <= k < 9 implies #[trigger] minuscule(derniere[k]) == champ()[k] by {
                            assert(derniere.push(c)[k] == derniere[k]);
                        }
                    }
                }
                assert(d == 8);
                assert(complete_un_champ(octets)) by {
                    if i > 0 {
                        assert(avant[avant.len() - d - 1] == 10u8);
                        assert(octets[i - 1] == 10u8);
                    }
                    assert forall|k: int| 0 <= k < 9 implies #[trigger] minuscule(octets[i + k]) == champ()[k] by {
                        assert(derniere.push(c)[k] == octets[i + k]);
                    }
                }
            }
            let a = entete_ouverte(ld);
            let n0 = nomme_received(derniere);
            let n1 = nomme_received(derniere.push(c));
            let cc = complete_un_champ(octets);
            assert(n0 ==> n1);
            assert(cc ==> a && !n0 && n1);
            assert(a && !n0 && n1 ==> cc);
            assert(received_lus(octets) == received_des_lignes(q));
        }
    } else {
        let q = lignes(octets);
        assert(q.drop_last() =~= Seq::<Seq<u8>>::empty());
        assert(received_des_lignes(q.drop_last()) == 0);
        assert(!nomme_received(q.last()));
        assert(received_des_lignes(q) == 0);
        assert(received_lus(octets) == 0);
    }
}

/// The count of a fresh counter, said with lines: cut the bytes at each
/// `LF`; the header block ends at the first ended line of at most one byte
/// (an empty line, its `CR` aside); the count is the number of lines before
/// it that start with `received:`, without case, saturating at `u32::MAX`.
pub proof fn loi_le_compte_est_celui_des_lignes(octets: Seq<u8>)
    ensures
        apres(sauts_neufs(), octets).spec_count() == sature(received_des_lignes(lignes(octets))),
{
    loi_le_compte_est_celui_des_champs(octets);
    lemme_received_des_lignes(octets);
}

/// A counter for a fresh message.
impl Default for Sauts {
    fn default() -> (s: Self)
        ensures
            s == sauts_neufs(),
            s.spec_count() == 0,
    {
        Sauts::new()
    }
}

} // verus!
