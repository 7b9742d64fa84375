//! Small verified operations on byte strings.

use vstd::prelude::*;

verus! {

/// A copy of `s`.
pub fn copier(s: &[u8]) -> (r: Vec<u8>)
    ensures
        r@ == s@,
{
    vstd::slice::slice_to_vec(s)
}

/// Appends `s` to `v`.
pub fn ajouter(v: &mut Vec<u8>, s: &[u8])
    ensures
        final(v)@ == old(v)@ + s@,
{
    let mut i: usize = 0;
    let ghost debut = v@;
    while i < s.len()
        invariant
            i <= s@.len(),
            v@ == debut + s@.take(i as int),
        decreases s@.len() - i,
    {
        v.push(s[i]);
        assert(s@.take(i + 1) == s@.take(i as int).push(s@[i as int]));
        i = i + 1;
    }
    assert(s@.take(i as int) == s@);
}

/// Are the two byte strings equal?
pub fn egaux(a: &[u8], b: &[u8]) -> (r: bool)
    ensures
        r == (a@ == b@),
{
    if a.len() != b.len() {
        return false;
    }
    let mut i: usize = 0;
    while i < a.len()
        invariant
            i <= a@.len(),
            a@.len() == b@.len(),
            forall|j: int| 0 <= j < i ==> a@[j] == b@[j],
        decreases a@.len() - i,
    {
        if a[i] != b[i] {
            return false;
        }
        i = i + 1;
    }
    assert(a@ =~= b@);
    true
}

/// ASCII lower case of a byte.
pub open spec fn bas_de_casse(c: u8) -> u8 {
    if 65u8 <= c <= 90u8 {
        (c + 32) as u8
    } else {
        c
    }
}

/// Do the two byte strings match, ASCII case aside?
pub open spec fn egaux_sans_casse_spec(a: Seq<u8>, b: Seq<u8>) -> bool {
    a.len() == b.len() && forall|i: int| 0 <= i < a.len() ==> bas_de_casse(#[trigger] a[i]) == bas_de_casse(b[i])
}

/// Do the two byte strings match, ASCII case aside?
pub fn egaux_sans_casse(a: &[u8], b: &[u8]) -> (r: bool)
    ensures
        r == egaux_sans_casse_spec(a@, b@),
{
    if a.len() != b.len() {
        return false;
    }
    let mut i: usize = 0;
    while i < a.len()
        invariant
            i <= a@.len(),
            a@.len() == b@.len(),
            forall|j: int| 0 <= j < i ==> bas_de_casse(#[trigger] a@[j]) == bas_de_casse(b@[j]),
        decreases a@.len() - i,
    {
        let x = if 65u8 <= a[i] && a[i] <= 90u8 { a[i] + 32 } else { a[i] };
        let y = if 65u8 <= b[i] && b[i] <= 90u8 { b[i] + 32 } else { b[i] };
        if x != y {
            return false;
        }
        i = i + 1;
    }
    true
}

} // verus!
