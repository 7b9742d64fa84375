//! Decimal numbers, written and read, without truncation.

use vstd::prelude::*;

verus! {

/// The most digits a `u64` takes in decimal.
pub const MAX_DIGITS: usize = 20;

/// Is this byte an ASCII digit?
pub open spec fn est_chiffre(c: u8) -> bool {
    48u8 <= c <= 57u8
}

/// Are all these bytes ASCII digits?
pub open spec fn que_des_chiffres(s: Seq<u8>) -> bool {
    forall|i: int| 0 <= i < s.len() ==> est_chiffre(#[trigger] s[i])
}

/// The value of a string of ASCII digits, most significant first.
pub open spec fn valeur_decimale(s: Seq<u8>) -> int
    decreases s.len(),
{
    if s.len() == 0 {
        0
    } else {
        valeur_decimale(s.drop_last()) * 10 + (s.last() - 48u8)
    }
}

/// The shortest decimal writing of `n`.
pub open spec fn ecriture_decimale(n: nat) -> Seq<u8>
    decreases n,
{
    if n < 10 {
        seq![(48u8 + n) as u8]
    } else {
        ecriture_decimale(n / 10).push((48u8 + n % 10) as u8)
    }
}

/// Two numbers in decimal, separated by a single space.
pub open spec fn deux_nombres_spec(a: nat, b: nat) -> Seq<u8> {
    ecriture_decimale(a) + seq![32u8] + ecriture_decimale(b)
}

/// Writes `valeur` in decimal.
pub fn decimal(valeur: u64) -> (r: Vec<u8>)
    ensures
        r@ == ecriture_decimale(valeur as nat),
        1 <= r@.len() <= MAX_DIGITS,
    decreases valeur,
{
    proof { lemme_longueur_ecriture(valeur as nat); }
    if valeur < 10 {
        let mut r = Vec::new();
        r.push(48u8 + valeur as u8);
        r
    } else {
        let mut r = decimal(valeur / 10);
        r.push(48u8 + (valeur % 10) as u8);
        r
    }
}

/// Ten to the power `k`.
pub open spec fn puissance_de_dix(k: nat) -> nat
    decreases k,
{
    if k == 0 {
        1
    } else {
        10 * puissance_de_dix((k - 1) as nat)
    }
}

/// A decimal writing has between one and twenty digits for a `u64`.
pub proof fn lemme_longueur_ecriture(n: nat)
    requires
        n <= u64::MAX,
    ensures
        1 <= ecriture_decimale(n).len(),
        ecriture_decimale(n).len() <= MAX_DIGITS,
{
    reveal_with_fuel(puissance_de_dix, 21);
    assert(puissance_de_dix(20) == 100000000000000000000nat);
    lemme_longueur_bornee(n, 20);
}

proof fn lemme_longueur_bornee(n: nat, k: nat)
    requires
        k >= 1,
        n < puissance_de_dix(k),
    ensures
        1 <= ecriture_decimale(n).len() <= k,
    decreases n,
{
    if n >= 10 {
        if k == 1 {
            assert(puissance_de_dix(1) == 10) by {
                reveal_with_fuel(puissance_de_dix, 2);
            }
        }
        assert(n / 10 < puissance_de_dix((k - 1) as nat));
        lemme_longueur_bornee(n / 10, (k - 1) as nat);
    }
}

/// Writes `a b` in decimal.
pub fn deux_nombres(a: u64, b: u64) -> (r: Vec<u8>)
    ensures
        r@ == deux_nombres_spec(a as nat, b as nat),
{
    let mut r = decimal(a);
    r.push(32u8);
    let mut fin = decimal(b);
    r.append(&mut fin);
    r
}

/// The value of a decimal integer that fits in a `u64`, or `None`.
pub open spec fn lecture_decimale(s: Seq<u8>) -> Option<u64> {
    if s.len() > 0 && que_des_chiffres(s) && valeur_decimale(s) <= u64::MAX {
        Some(valeur_decimale(s) as u64)
    } else {
        None
    }
}

/// A decimal integer, or `None` if the bytes are not one.
///
/// An overflow is a refusal, not a truncation: a size announced smaller than
/// it is would pass the check it was read for.
pub fn decimal_u64(octets: &[u8]) -> (r: Option<u64>)
    ensures
        r.is_some() <==> (octets@.len() > 0 && que_des_chiffres(octets@)
            && valeur_decimale(octets@) <= u64::MAX),
        r matches Some(v) ==> v == valeur_decimale(octets@),
        r == lecture_decimale(octets@),
{
    if octets.len() == 0 {
        return None;
    }
    let mut i: usize = 0;
    while i < octets.len()
        invariant
            i <= octets@.len(),
            forall|j: int| 0 <= j < i ==> est_chiffre(#[trigger] octets@[j]),
        decreases octets@.len() - i,
    {
        if octets[i] < 48u8 || octets[i] > 57u8 {
            return None;
        }
        i = i + 1;
    }
    let mut valeur: u64 = 0;
    let mut i: usize = 0;
    while i < octets.len()
        invariant
            i <= octets@.len(),
            que_des_chiffres(octets@),
            valeur == valeur_decimale(octets@.take(i as int)),
        decreases octets@.len() - i,
    {
        assert(octets@.take(i + 1).drop_last() == octets@.take(i as int));
        let chiffre = (octets[i] - 48u8) as u64;
        if valeur > (u64::MAX - chiffre) / 10 {
            proof {
                assert(valeur * 10 + chiffre > u64::MAX) by (nonlinear_arith)
                    requires valeur > (u64::MAX - chiffre) / 10, chiffre <= 9;
                lemme_prefixe_croit(octets@, i as int + 1);
            }
            return None;
        }
        proof {
            assert(valeur * 10 + chiffre <= u64::MAX) by (nonlinear_arith)
                requires valeur <= (u64::MAX - chiffre) / 10, chiffre <= 9;
        }
        valeur = valeur * 10 + chiffre;
        i = i + 1;
    }
    assert(octets@.take(i as int) == octets@);
    Some(valeur)
}

/// Appending digits never makes the value of a digit string smaller.
pub proof fn lemme_prefixe_croit(s: Seq<u8>, k: int)
    requires
        0 <= k <= s.len(),
        que_des_chiffres(s),
    ensures
        valeur_decimale(s.take(k)) <= valeur_decimale(s),
        0 <= valeur_decimale(s.take(k)),
    decreases s.len(),
{
    if k < s.len() {
        assert(s.drop_last().take(k) == s.take(k));
        assert(que_des_chiffres(s.drop_last()));
        lemme_prefixe_croit(s.drop_last(), k);
        assert(s.drop_last().take(s.len() - 1) == s.drop_last());
        lemme_prefixe_croit(s.drop_last(), s.len() - 1);
    } else {
        assert(s.take(k) == s);
        if s.len() > 0 {
            assert(que_des_chiffres(s.drop_last()));
            assert(s.drop_last().take(s.len() - 1) == s.drop_last());
            lemme_prefixe_croit(s.drop_last(), s.len() - 1);
        }
    }
}

/// Reading back what was written gives the number that was written.
pub proof fn loi_lecture_de_l_ecriture(n: u64)
    ensures
        que_des_chiffres(ecriture_decimale(n as nat)),
        ecriture_decimale(n as nat).len() > 0,
        valeur_decimale(ecriture_decimale(n as nat)) == n,
{
    lemme_ecriture_relue(n as nat);
    lemme_longueur_ecriture(n as nat);
}

proof fn lemme_ecriture_relue(n: nat)
    ensures
        que_des_chiffres(ecriture_decimale(n)),
        valeur_decimale(ecriture_decimale(n)) == n,
    decreases n,
{
    if n >= 10 {
        lemme_ecriture_relue(n / 10);
        let e = ecriture_decimale(n);
        assert(e.drop_last() == ecriture_decimale(n / 10));
        assert(e.last() == (48u8 + n % 10) as u8);
        assert(e.last() - 48u8 == n % 10);
        assert((n / 10) * 10 + n % 10 == n);
        assert(valeur_decimale(e) == valeur_decimale(e.drop_last()) * 10 + (e.last() - 48u8));
        assert forall|i: int| 0 <= i < e.len() implies est_chiffre(#[trigger] e[i]) by {
            if i < e.len() - 1 {
                assert(e[i] == ecriture_decimale(n / 10)[i]);
            }
        }
    } else {
        let e = ecriture_decimale(n);
        assert(e.drop_last().len() == 0);
        assert(valeur_decimale(e.drop_last()) == 0);
        assert(e.last() - 48u8 == n);
    }
}

} // verus!
