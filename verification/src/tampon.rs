//! A bounded buffer, for what a session must remember about its peer.

use vstd::prelude::*;

verus! {

/// The concatenation of a sequence of byte strings, in order.
pub open spec fn concatenation(morceaux: Seq<Seq<u8>>) -> Seq<u8>
    decreases morceaux.len(),
{
    if morceaux.len() == 0 {
        Seq::empty()
    } else {
        concatenation(morceaux.drop_last()) + morceaux.last()
    }
}

/// The views of a slice of byte slices.
pub open spec fn vues(morceaux: Seq<&[u8]>) -> Seq<Seq<u8>> {
    morceaux.map_values(|m: &[u8]| m@)
}

/// What a buffer of `n` bytes keeps of `s`: all of it, or nothing.
pub open spec fn tenu(s: Seq<u8>, n: nat) -> Seq<u8> {
    if s.len() <= n {
        s
    } else {
        Seq::empty()
    }
}

/// What a session remembers of a peer, in bytes, never more than `N`.
///
/// The `HELO` domain and the envelope sender serve after the command that
/// carried them. Bounding what is kept is what keeps a peer from choosing how
/// much memory a connection costs.
#[derive(Debug)]
pub struct Tampon<const N: usize> {
    octets: Vec<u8>,
}

impl<const N: usize> Tampon<N> {
    /// Never more than `N` bytes are held.
    #[verifier::type_invariant]
    spec fn borne(self) -> bool {
        self.octets@.len() <= N
    }

    /// The bytes held.
    pub closed spec fn view(self) -> Seq<u8> {
        self.octets@
    }

    /// An empty buffer.
    pub fn vide() -> (t: Self)
        ensures
            t.view() == Seq::<u8>::empty(),
    {
        Tampon { octets: Vec::new() }
    }

    /// Replaces the content by the concatenation of `morceaux`.
    ///
    /// Returns `false`, and leaves the buffer empty, when that does not fit:
    /// a truncated content would name something other than what was received.
    pub fn poser(&mut self, morceaux: &[&[u8]]) -> (r: bool)
        ensures
            r == (concatenation(vues(morceaux@)).len() <= N),
            r ==> final(self).view() == concatenation(vues(morceaux@)),
            !r ==> final(self).view() == Seq::<u8>::empty(),
    {
        let ghost vs = vues(morceaux@);
        let mut octets: Vec<u8> = Vec::new();
        let mut i: usize = 0;
        while i < morceaux.len()
            invariant
                i <= morceaux@.len(),
                vs == vues(morceaux@),
                octets@ == concatenation(vs.take(i as int)),
                octets@.len() <= N,
            decreases morceaux@.len() - i,
        {
            let morceau = morceaux[i];
            assert(vs.take(i + 1).drop_last() == vs.take(i as int));
            assert(vs.take(i + 1).last() == morceau@);
            if morceau.len() > N - octets.len() {
                proof {
                    lemme_concatenation_croit(vs, i as int + 1);
                }
                self.octets = Vec::new();
                return false;
            }
            let mut j: usize = 0;
            let ghost avant = octets@;
            while j < morceau.len()
                invariant
                    j <= morceau@.len(),
                    octets@ == avant + morceau@.take(j as int),
                    avant.len() + morceau@.len() <= N,
                decreases morceau@.len() - j,
            {
                octets.push(morceau[j]);
                assert(morceau@.take(j + 1) == morceau@.take(j as int).push(morceau@[j as int]));
                j = j + 1;
            }
            assert(morceau@.take(j as int) == morceau@);
            i = i + 1;
        }
        assert(vs.take(i as int) == vs);
        self.octets = octets;
        true
    }

    /// Replaces the content by `a`, if it fits.
    pub fn poser_un(&mut self, a: &[u8]) -> (r: bool)
        ensures
            r == (a@.len() <= N),
            final(self).view() == tenu(a@, N as nat),
    {
        let m: [&[u8]; 1] = [a];
        assert(vues(m@) =~= seq![a@]);
        proof { lemme_morceaux(a@, Seq::empty(), Seq::empty()); }
        self.poser(&m)
    }

    /// Replaces the content by `a` and `b` end to end, if they fit.
    pub fn poser_deux(&mut self, a: &[u8], b: &[u8]) -> (r: bool)
        ensures
            r == ((a@ + b@).len() <= N),
            final(self).view() == tenu(a@ + b@, N as nat),
    {
        let m: [&[u8]; 2] = [a, b];
        assert(vues(m@) =~= seq![a@, b@]);
        proof { lemme_morceaux(a@, b@, Seq::empty()); }
        self.poser(&m)
    }

    /// Replaces the content by `a`, `b` and `c` end to end, if they fit.
    pub fn poser_trois(&mut self, a: &[u8], b: &[u8], c: &[u8]) -> (r: bool)
        ensures
            r == ((a@ + b@ + c@).len() <= N),
            final(self).view() == tenu(a@ + b@ + c@, N as nat),
    {
        let m: [&[u8]; 3] = [a, b, c];
        assert(vues(m@) =~= seq![a@, b@, c@]);
        proof { lemme_morceaux(a@, b@, c@); }
        self.poser(&m)
    }

    /// Forgets the content.
    pub fn vider(&mut self)
        ensures
            final(self).view() == Seq::<u8>::empty(),
    {
        self.octets = Vec::new();
    }

    /// The bytes held.
    pub fn as_bytes(&self) -> (r: &[u8])
        ensures
            r@ == self.view(),
            r@.len() <= N,
    {
        proof { use_type_invariant(self); }
        self.octets.as_slice()
    }

    /// Is nothing held?
    pub fn est_vide(&self) -> (r: bool)
        ensures
            r == (self.view().len() == 0),
    {
        self.octets.len() == 0
    }
}

/// One, two or three pieces, end to end.
pub proof fn lemme_morceaux(a: Seq<u8>, b: Seq<u8>, c: Seq<u8>)
    ensures
        concatenation(seq![a]) == a,
        concatenation(seq![a, b]) == a + b,
        concatenation(seq![a, b, c]) == a + b + c,
{
    reveal_with_fuel(concatenation, 4);
    assert(seq![a, b, c].drop_last() =~= seq![a, b]);
    assert(seq![a, b].drop_last() =~= seq![a]);
    assert(seq![a].drop_last() =~= Seq::<Seq<u8>>::empty());
    assert(Seq::<u8>::empty() + a =~= a);
}

/// The concatenation of a prefix is never longer than that of a longer prefix.
pub proof fn lemme_concatenation_croit(morceaux: Seq<Seq<u8>>, k: int)
    requires
        0 <= k <= morceaux.len(),
    ensures
        concatenation(morceaux.take(k)).len() <= concatenation(morceaux).len(),
    decreases morceaux.len(),
{
    if k < morceaux.len() {
        assert(morceaux.drop_last().take(k) == morceaux.take(k));
        lemme_concatenation_croit(morceaux.drop_last(), k);
    } else {
        assert(morceaux.take(k) == morceaux);
    }
}

} // verus!
