use vstd::prelude::*;

use crate::merkle::hashes_equal;

verus! {

broadcast use vstd::array::axiom_array_ext_equal;

/// Keeps a coin's transaction hash when it occurs nowhere among the burned
/// ones.
pub open spec fn not_burned(burned: Seq<[u8; 32]>) -> spec_fn([u8; 32]) -> bool {
    |coin: [u8; 32]| !burned.contains(coin)
}

/// The transaction hashes of coins minted on the remote chain and never
/// burned back, in minting order.
pub open spec fn spec_unburned(minted: Seq<[u8; 32]>, burned: Seq<[u8; 32]>) -> Seq<[u8; 32]> {
    minted.filter(not_burned(burned))
}

fn contains_hash(list: &Vec<[u8; 32]>, target: &[u8; 32]) -> (r: bool)
    ensures
        r <==> list@.contains(*target),
{
    let count = list.len();
    let mut i: usize = 0;
    while i < count
        invariant
            count == list@.len(),
            i <= count,
            forall|k: int| 0 <= k < i ==> list@[k] != *target,
        decreases count - i,
    {
        if hashes_equal(&list[i], target) {
            proof {
                assert(list@[i as int] =~= *target);
            }
            return true;
        }
        i = i + 1;
    }
    false
}

/// The coins still frozen: those whose minting was observed on the remote
/// chain with no later burn, kept in minting order. Exactly the minted
/// hashes that occur nowhere among the burned ones survive.
pub fn unburned_coins(minted: &Vec<[u8; 32]>, burned: &Vec<[u8; 32]>) -> (r: Vec<[u8; 32]>)
    ensures
        r@ == spec_unburned(minted@, burned@),
{
    let count = minted.len();
    let mut out: Vec<[u8; 32]> = Vec::new();
    proof {
        reveal(Seq::filter);
        assert(minted@.subrange(0, 0) =~= Seq::<[u8; 32]>::empty());
    }
    let mut i: usize = 0;
    while i < count
        invariant
            count == minted@.len(),
            i <= count,
            out@ == minted@.subrange(0, i as int).filter(not_burned(burned@)),
        decreases count - i,
    {
        let keep = !contains_hash(burned, &minted[i]);
        proof {
            reveal(Seq::filter);
            let pre = minted@.subrange(0, i as int);
            let next = minted@.subrange(0, i + 1);
            assert(next.drop_last() =~= pre);
            assert(next.last() == minted@[i as int]);
        }
        if keep {
            out.push(minted[i]);
        }
        i = i + 1;
    }
    assert(minted@.subrange(0, count as int) =~= minted@);
    out
}

} // verus!
