//! Account identifiers and their byte-wise order.

use vstd::prelude::*;

verus! {

/// A point in time, in milliseconds since the Unix epoch.
pub type Timestamp = u64;

/// The identifier of an account: 32 raw bytes.
#[derive(Clone, Copy, Debug, PartialEq, Eq)]
pub struct AccountId(pub [u8; 32]);

/// `a` precedes `b` in the lexicographic order of their bytes, looking from
/// position `i` on (the bytes before `i` are taken to be equal).
pub open spec fn lex_menor(a: Seq<u8>, b: Seq<u8>, i: int) -> bool
    decreases 32 - i,
{
    if i < 0 || i >= 32 {
        false
    } else if a[i] < b[i] {
        true
    } else if a[i] > b[i] {
        false
    } else {
        lex_menor(a, b, i + 1)
    }
}

/// The order of accounts: lexicographic on their 32 bytes.
pub open spec fn cuenta_menor(a: AccountId, b: AccountId) -> bool {
    lex_menor(a.0@, b.0@, 0)
}

proof fn lemma_lex_irreflexivo(a: Seq<u8>, i: int)
    ensures
        !lex_menor(a, a, i),
    decreases 32 - i,
{
    if 0 <= i < 32 {
        lemma_lex_irreflexivo(a, i + 1);
    }
}

proof fn lemma_lex_transitivo(a: Seq<u8>, b: Seq<u8>, c: Seq<u8>, i: int)
    requires
        lex_menor(a, b, i),
        lex_menor(b, c, i),
    ensures
        lex_menor(a, c, i),
    decreases 32 - i,
{
    if 0 <= i < 32 && a[i] == b[i] && b[i] == c[i] {
        lemma_lex_transitivo(a, b, c, i + 1);
    }
}

proof fn lemma_lex_total(a: Seq<u8>, b: Seq<u8>, i: int)
    requires
        0 <= i <= 32,
        !lex_menor(a, b, i),
        !lex_menor(b, a, i),
    ensures
        forall|j: int| i <= j < 32 ==> a[j] == b[j],
    decreases 32 - i,
{
    if i < 32 {
        lemma_lex_total(a, b, i + 1);
    }
}

/// The order of accounts is a strict total order: irreflexive, transitive,
/// and any two different accounts are ordered one way or the other.
pub proof fn lemma_orden_cuentas(a: AccountId, b: AccountId, c: AccountId)
    ensures
        !cuenta_menor(a, a),
        cuenta_menor(a, b) && cuenta_menor(b, c) ==> cuenta_menor(a, c),
        cuenta_menor(a, b) ==> !cuenta_menor(b, a),
        a != b ==> cuenta_menor(a, b) || cuenta_menor(b, a),
{
    lemma_lex_irreflexivo(a.0@, 0);
    if cuenta_menor(a, b) && cuenta_menor(b, c) {
        lemma_lex_transitivo(a.0@, b.0@, c.0@, 0);
    }
    if cuenta_menor(a, b) && cuenta_menor(b, a) {
        lemma_lex_transitivo(a.0@, b.0@, a.0@, 0);
    }
    if !cuenta_menor(a, b) && !cuenta_menor(b, a) {
        lemma_lex_total(a.0@, b.0@, 0);
        assert(a.0 =~= b.0);
    }
}

impl AccountId {
    /// Whether the two accounts hold the same bytes.
    pub fn igual(&self, otra: &AccountId) -> (r: bool)
        ensures
            r == (*self == *otra),
    {
        let mut i: usize = 0;
        while i < 32
            invariant
                i <= 32,
                forall|j: int| 0 <= j < i ==> self.0@[j] == otra.0@[j],
            decreases 32 - i,
        {
            if self.0[i] != otra.0[i] {
                return false;
            }
            i = i + 1;
        }
        assert(self.0 =~= otra.0);
        true
    }

    /// Whether this account comes before `otra` in the byte-wise order.
    pub fn menor(&self, otra: &AccountId) -> (r: bool)
        ensures
            r == cuenta_menor(*self, *otra),
    {
        let mut i: usize = 0;
        while i < 32
            invariant
                i <= 32,
                cuenta_menor(*self, *otra) == lex_menor(self.0@, otra.0@, i as int),
            decreases 32 - i,
        {
            let x = self.0[i];
            let y = otra.0[i];
            if x < y {
                return true;
            }
            if x > y {
                return false;
            }
            i = i + 1;
        }
        false
    }
}

} // verus!
