//! The scalar field of the ristretto255 group, modelled as the integers
//! modulo the group order, together with the little-endian byte encoding
//! that every 32-byte scalar wire value uses.

use vstd::arithmetic::div_mod::{
    lemma_add_mod_noop, lemma_mod_bound, lemma_mod_twice, lemma_mul_mod_noop_left,
};
use vstd::prelude::*;

verus! {

/// The order of the ristretto255 group and of its scalar field:
/// 2^252 + 27742317777372353535851937790883648493.
pub open spec fn group_order() -> nat {
    0x1000000000000000000000000000000014def9dea2f79cd65812631a5cf5d3ednat
}

/// The unsigned integer that a little-endian byte string encodes.
pub open spec fn le_bytes(s: Seq<u8>) -> nat
    decreases s.len(),
{
    if s.len() == 0 {
        0
    } else {
        (s[0] as nat) + 256 * le_bytes(s.drop_first())
    }
}

/// Reducing modulo the group order lands strictly below it.
pub proof fn lemma_reduce_below_order(x: nat)
    ensures
        x % group_order() < group_order(),
{
    lemma_mod_bound(x as int, group_order() as int);
}

/// Reduction modulo the group order leaves an already-reduced value alone;
/// this is why decoding a canonical scalar encoding returns the same scalar.
pub proof fn lemma_reduce_canonical(x: nat)
    requires
        x < group_order(),
    ensures
        x % group_order() == x,
{
}

/// Reducing either summand first does not change a sum taken modulo the
/// group order.
pub proof fn lemma_add_mod_order(x: nat, y: nat)
    ensures
        (x % group_order() + y % group_order()) % group_order() == (x + y) % group_order(),
{
    lemma_add_mod_noop(x as int, y as int, group_order() as int);
    lemma_mod_twice((x + y) as int, group_order() as int);
}

/// Reducing the left factor first does not change a product taken modulo
/// the group order.
pub proof fn lemma_mul_mod_order(x: nat, y: nat)
    ensures
        ((x % group_order()) * y) % group_order() == (x * y) % group_order(),
{
    lemma_mul_mod_noop_left(x as int, y as int, group_order() as int);
}

/// The little-endian encoding is injective: equal-length byte strings that
/// encode the same integer are equal byte for byte.
pub proof fn lemma_le_bytes_injective(a: Seq<u8>, b: Seq<u8>)
    requires
        a.len() == b.len(),
        le_bytes(a) == le_bytes(b),
    ensures
        a =~= b,
    decreases a.len(),
{
    if a.len() > 0 {
        let ta = a.drop_first();
        let tb = b.drop_first();
        assert((a[0] as nat) + 256 * le_bytes(ta) == (b[0] as nat) + 256 * le_bytes(tb));
        assert(a[0] == b[0] && le_bytes(ta) == le_bytes(tb)) by (nonlinear_arith)
            requires
                (a[0] as nat) + 256 * le_bytes(ta) == (b[0] as nat) + 256 * le_bytes(tb),
                a[0] < 256,
                b[0] < 256,
        ;
        lemma_le_bytes_injective(ta, tb);
        assert forall|i: int| 0 <= i < a.len() implies a[i] == b[i] by {
            if i > 0 {
                assert(a[i] == ta[i - 1]);
                assert(b[i] == tb[i - 1]);
            }
        }
        assert(a =~= b);
    }
}

} // verus!
