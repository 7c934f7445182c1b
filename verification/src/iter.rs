//! Sequence-pairing utilities used when assembling proof inputs.
//!
//! Indexed items are paired with the entries of a slice, consecutive items
//! are validated pairwise, and both can be combined; each function states
//! exactly which items come out and on which input the first error arises.

use vstd::prelude::*;
use crate::backend::{ProofRng, rng_coin};

verus! {

/// An index pointed past the end of the slice it was to be paired with.
#[derive(Clone, Copy, PartialEq, Eq, Structural, Debug)]
pub struct IndexIsOutOfBounds {
    pub index: usize,
    pub length: usize,
}

/// Pairs each `(index, item)` with the slice entry at that index. Returns
/// the error for the first index past the end of the slice.
pub fn pair_with_slice<Item: Copy, P: Copy>(iter: &Vec<(usize, Item)>, pairs: &Vec<P>) -> (r:
    Result<Vec<(P, Item)>, IndexIsOutOfBounds>)
    ensures
        r is Ok <==> (forall|k: int| 0 <= k < iter@.len() ==> (#[trigger] iter@[k].0) < pairs@.len()),
        r matches Ok(v) ==> v@.len() == iter@.len() && (forall|k: int|
            0 <= k < iter@.len() ==> #[trigger] v@[k] == (pairs@[iter@[k].0 as int], iter@[k].1)),
        r matches Err(e) ==> (exists|k: int|
            0 <= k < iter@.len() && (#[trigger] iter@[k].0) >= pairs@.len() && e.index == iter@[k].0
                && e.length == pairs@.len()),
{
    let mut out: Vec<(P, Item)> = Vec::new();
    let mut k: usize = 0;
    while k < iter.len()
        invariant
            0 <= k <= iter@.len(),
            out@.len() == k,
            forall|j: int| 0 <= j < k ==> (#[trigger] iter@[j].0) < pairs@.len(),
            forall|j: int|
                0 <= j < k ==> #[trigger] out@[j] == (pairs@[iter@[j].0 as int], iter@[j].1),
        decreases iter@.len() - k,
    {
        let (idx, item) = iter[k];
        if idx >= pairs.len() {
            return Err(IndexIsOutOfBounds { index: idx, length: pairs.len() });
        }
        out.push((pairs[idx], item));
        k = k + 1;
    }
    Ok(out)
}

/// Validates a pair of mapped values; implementations decide what a valid
/// succession is.
pub trait ValueValidator<T> {
    spec fn validate_spec(&self, previous: T, current: T) -> bool;

    fn validate(&self, previous: &T, current: &T) -> (r: bool)
        ensures
            r == self.validate_spec(*previous, *current),
    ;
}

/// Validates consecutive items of a sequence after mapping each; the mapping
/// picks what the validation looks at.
pub trait PairValidator<I> {
    type MappedItem;

    spec fn map_spec(&self, item: I) -> Self::MappedItem;

    spec fn validate_spec(&self, previous: Self::MappedItem, current: Self::MappedItem) -> bool;

    fn map(&self, item: &I) -> (r: Self::MappedItem)
        ensures
            r == self.map_spec(*item),
    ;

    fn validate(&self, previous: &Self::MappedItem, current: &Self::MappedItem) -> (r: bool)
        ensures
            r == self.validate_spec(*previous, *current),
    ;
}

/// Validates the left components of consecutive pairs.
pub struct CheckLeft<F>(pub F);

/// Validates the right components of consecutive pairs.
pub struct CheckRight<F>(pub F);

impl<First: Copy, Second, F: ValueValidator<First>> PairValidator<(First, Second)> for CheckLeft<
    F,
> {
    type MappedItem = First;

    open spec fn map_spec(&self, item: (First, Second)) -> First {
        item.0
    }

    open spec fn validate_spec(&self, previous: First, current: First) -> bool {
        self.0.validate_spec(previous, current)
    }

    fn map(&self, item: &(First, Second)) -> First {
        item.0
    }

    fn validate(&self, previous: &First, current: &First) -> bool {
        self.0.validate(previous, current)
    }
}

impl<First, Second: Copy, F: ValueValidator<Second>> PairValidator<(First, Second)> for CheckRight<
    F,
> {
    type MappedItem = Second;

    open spec fn map_spec(&self, item: (First, Second)) -> Second {
        item.1
    }

    open spec fn validate_spec(&self, previous: Second, current: Second) -> bool {
        self.0.validate_spec(previous, current)
    }

    fn map(&self, item: &(First, Second)) -> Second {
        item.1
    }

    fn validate(&self, previous: &Second, current: &Second) -> bool {
        self.0.validate(previous, current)
    }
}

/// Accepts a pair exactly when the values strictly increase.
pub struct Ascending;

impl ValueValidator<usize> for Ascending {
    open spec fn validate_spec(&self, previous: usize, current: usize) -> bool {
        previous < current
    }

    fn validate(&self, previous: &usize, current: &usize) -> bool {
        *previous < *current
    }
}

/// Returns the longest prefix whose consecutive mapped pairs all validate.
/// On the first failing pair, stores it in `invalid_pair` and stops; a fully
/// valid input leaves `invalid_pair` untouched.
pub fn take_while_pairs_satisfy<I: Copy, P: PairValidator<I>>(
    iter: &Vec<I>,
    validator: &P,
    invalid_pair: &mut Option<(P::MappedItem, P::MappedItem)>,
) -> (r: Vec<I>)
    ensures
        r@.len() <= iter@.len(),
        forall|k: int| 0 <= k < r@.len() ==> #[trigger] r@[k] == iter@[k],
        forall|k: int|
            1 <= k < r@.len() ==> #[trigger] validator.validate_spec(
                validator.map_spec(iter@[k - 1]),
                validator.map_spec(iter@[k]),
            ),
        r@.len() == iter@.len() ==> *final(invalid_pair) == *old(invalid_pair),
        r@.len() < iter@.len() ==> r@.len() >= 1 && !validator.validate_spec(
            validator.map_spec(iter@[r@.len() - 1]),
            validator.map_spec(iter@[r@.len() as int]),
        ) && *final(invalid_pair) == Some(
            (validator.map_spec(iter@[r@.len() - 1]), validator.map_spec(iter@[r@.len() as int])),
        ),
{
    let mut out: Vec<I> = Vec::new();
    if iter.len() == 0 {
        return out;
    }
    out.push(iter[0]);
    let mut prev: P::MappedItem = validator.map(&iter[0]);
    let mut k: usize = 1;
    while k < iter.len()
        invariant
            1 <= k <= iter@.len(),
            iter@.len() > 0,
            out@.len() == k,
            prev == validator.map_spec(iter@[k - 1]),
            *invalid_pair == *old(invalid_pair),
            forall|j: int| 0 <= j < k ==> #[trigger] out@[j] == iter@[j],
            forall|j: int|
                1 <= j < k ==> #[trigger] validator.validate_spec(
                    validator.map_spec(iter@[j - 1]),
                    validator.map_spec(iter@[j]),
                ),
        decreases iter@.len() - k,
    {
        let cur = validator.map(&iter[k]);
        if !validator.validate(&prev, &cur) {
            *invalid_pair = Some((prev, cur));
            return out;
        }
        out.push(iter[k]);
        prev = cur;
        k = k + 1;
    }
    out
}

/// The first failure met while validating consecutive items and pairing them
/// with the slice.
#[derive(Debug)]
pub enum PairSliceError<M> {
    IndexIsOutOfBounds(IndexIsOutOfBounds),
    InvalidPair(M, M),
}

/// Validates consecutive items and pairs each with the slice entry at its
/// index, reporting whichever failure comes first in iteration order: an
/// invalid pair is found when its second item is reached, an out-of-range
/// index when its item is reached.
pub fn pair_valid_pairs_with_slice<Item: Copy, Pair: Copy, P: PairValidator<(usize, Item)>>(
    iter: &Vec<(usize, Item)>,
    validator: &P,
    pairs: &Vec<Pair>,
) -> (r: Result<Vec<(Pair, Item)>, PairSliceError<P::MappedItem>>)
    ensures
        r is Ok <==> ((forall|k: int|
            0 <= k < iter@.len() ==> (#[trigger] iter@[k].0) < pairs@.len()) && (forall|k: int|
            1 <= k < iter@.len() ==> #[trigger] validator.validate_spec(
                validator.map_spec(iter@[k - 1]),
                validator.map_spec(iter@[k]),
            ))),
        r matches Ok(v) ==> v@.len() == iter@.len() && (forall|k: int|
            0 <= k < iter@.len() ==> #[trigger] v@[k] == (pairs@[iter@[k].0 as int], iter@[k].1)),
        r matches Err(PairSliceError::InvalidPair(a, b)) ==> (exists|k: int|
            1 <= k < iter@.len() && a == validator.map_spec(iter@[k - 1]) && b
                == validator.map_spec(#[trigger] iter@[k]) && !validator.validate_spec(a, b)),
        r matches Err(PairSliceError::IndexIsOutOfBounds(e)) ==> (exists|k: int|
            0 <= k < iter@.len() && (#[trigger] iter@[k].0) >= pairs@.len() && e.index
                == iter@[k].0 && e.length == pairs@.len()),
{
    let mut out: Vec<(Pair, Item)> = Vec::new();
    let mut k: usize = 0;
    while k < iter.len()
        invariant
            0 <= k <= iter@.len(),
            out@.len() == k,
            forall|j: int| 0 <= j < k ==> (#[trigger] iter@[j].0) < pairs@.len(),
            forall|j: int|
                0 <= j < k ==> #[trigger] out@[j] == (pairs@[iter@[j].0 as int], iter@[j].1),
            forall|j: int|
                1 <= j < k ==> #[trigger] validator.validate_spec(
                    validator.map_spec(iter@[j - 1]),
                    validator.map_spec(iter@[j]),
                ),
        decreases iter@.len() - k,
    {
        if k > 0 {
            let p = validator.map(&iter[k - 1]);
            let cur = validator.map(&iter[k]);
            if !validator.validate(&p, &cur) {
                return Err(PairSliceError::InvalidPair(p, cur));
            }
        }
        let (idx, item) = iter[k];
        if idx >= pairs.len() {
            return Err(
                PairSliceError::IndexIsOutOfBounds(
                    IndexIsOutOfBounds { index: idx, length: pairs.len() },
                ),
            );
        }
        out.push((pairs[idx], item));
        k = k + 1;
    }
    Ok(out)
}

/// The items of `items` whose positions are not listed in `indices`; both
/// are taken in ascending order.
pub open spec fn pluck_spec<T>(items: Seq<T>, indices: Seq<usize>, j: int) -> Seq<T>
    decreases items.len() - j when 0 <= j <= items.len()
{
    if j >= items.len() {
        seq![]
    } else if indices.contains(j as usize) {
        pluck_spec(items, indices, j + 1)
    } else {
        seq![items[j]] + pluck_spec(items, indices, j + 1)
    }
}

/// Whether `v` holds `x`.
fn contains_usize(v: &Vec<usize>, x: usize) -> (r: bool)
    ensures
        r == v@.contains(x),
{
    let mut k: usize = 0;
    while k < v.len()
        invariant
            0 <= k <= v@.len(),
            forall|j: int| 0 <= j < k ==> v@[j] != x,
        decreases v@.len() - k,
    {
        if v[k] == x {
            assert(v@.contains(x));
            return true;
        }
        k = k + 1;
    }
    assert(!v@.contains(x));
    false
}

/// Plucks the items at the positions that `indices` misses.
pub fn pluck_missed<T: Copy>(indices: &Vec<usize>, items: &Vec<T>) -> (r: Vec<T>)
    ensures
        r@ == pluck_spec(items@, indices@, 0),
{
    let mut out: Vec<T> = Vec::new();
    let mut j: usize = 0;
    while j < items.len()
        invariant
            0 <= j <= items@.len(),
            out@ + pluck_spec(items@, indices@, j as int) == pluck_spec(items@, indices@, 0),
        decreases items@.len() - j,
    {
        let ghost pre = out@;
        if !contains_usize(indices, j) {
            out.push(items[j]);
            assert(pluck_spec(items@, indices@, j as int) == seq![items@[j as int]] + pluck_spec(
                items@,
                indices@,
                j + 1,
            ));
            assert(out@ + pluck_spec(items@, indices@, j + 1) == pre + pluck_spec(
                items@,
                indices@,
                j as int,
            ));
        }
        j = j + 1;
    }
    assert(pluck_spec(items@, indices@, items@.len() as int) == Seq::<T>::empty());
    assert(out@ == out@ + pluck_spec(items@, indices@, items@.len() as int));
    out
}

/// `a` occurs inside `b` in order: `b` with zero or more items dropped.
pub open spec fn is_subseq_of<T>(a: Seq<T>, b: Seq<T>) -> bool
    decreases b.len(),
{
    if a.len() == 0 {
        true
    } else if b.len() == 0 {
        false
    } else if a[0] == b[0] {
        is_subseq_of(a.drop_first(), b.drop_first())
    } else {
        is_subseq_of(a, b.drop_first())
    }
}

proof fn lemma_subseq_push_right<T>(a: Seq<T>, b: Seq<T>, x: T)
    requires
        is_subseq_of(a, b),
    ensures
        is_subseq_of(a, b.push(x)),
    decreases b.len(),
{
    if a.len() == 0 {
    } else {
        assert(b.len() > 0);
        assert(b.push(x)[0] == b[0]);
        assert(b.push(x).drop_first() =~= b.drop_first().push(x));
        if a[0] == b[0] {
            lemma_subseq_push_right(a.drop_first(), b.drop_first(), x);
        } else {
            lemma_subseq_push_right(a, b.drop_first(), x);
        }
    }
}

proof fn lemma_single_in_push<T>(b: Seq<T>, x: T)
    ensures
        is_subseq_of(seq![x], b.push(x)),
    decreases b.len(),
{
    let a = seq![x];
    assert(a.len() == 1);
    assert(a[0] == x);
    if b.len() == 0 {
        assert(b.push(x)[0] == x);
        assert(a.drop_first() =~= Seq::<T>::empty());
        assert(is_subseq_of(a.drop_first(), b.push(x).drop_first()));
        assert(is_subseq_of(a, b.push(x)));
    } else {
        assert(b.push(x)[0] == b[0]);
        assert(b.push(x).drop_first() =~= b.drop_first().push(x));
        if a[0] == b[0] {
            assert(a.drop_first() =~= Seq::<T>::empty());
            assert(is_subseq_of(a.drop_first(), b.push(x).drop_first()));
            assert(is_subseq_of(a, b.push(x)));
        } else {
            lemma_single_in_push(b.drop_first(), x);
            assert(is_subseq_of(a, b.drop_first().push(x)));
            assert(is_subseq_of(a, b.push(x)));
        }
    }
}

proof fn lemma_subseq_push_both<T>(a: Seq<T>, b: Seq<T>, x: T)
    requires
        is_subseq_of(a, b),
    ensures
        is_subseq_of(a.push(x), b.push(x)),
    decreases b.len(),
{
    if a.len() == 0 {
        assert(a.push(x) =~= seq![x]);
        lemma_single_in_push(b, x);
    } else {
        assert(b.len() > 0);
        assert(a.push(x)[0] == a[0]);
        assert(b.push(x)[0] == b[0]);
        assert(a.push(x).drop_first() =~= a.drop_first().push(x));
        assert(b.push(x).drop_first() =~= b.drop_first().push(x));
        assert(a.push(x).len() > 0);
        if a[0] == b[0] {
            lemma_subseq_push_both(a.drop_first(), b.drop_first(), x);
        } else {
            lemma_subseq_push_both(a, b.drop_first(), x);
        }
    }
}

/// Skips up to `allowed_to_skip` items, each dropped on a coin flip from the
/// supplied randomness source; whatever the flips, what comes out is the
/// input with at most that many items dropped, in their original order.
pub fn skip_up_to_n<T: Copy>(rng: &mut ProofRng, items: &Vec<T>, allowed_to_skip: usize) -> (r: Vec<
    T,
>)
    ensures
        r@.len() <= items@.len(),
        r@.len() + allowed_to_skip >= items@.len(),
        is_subseq_of(r@, items@),
{
    let mut out: Vec<T> = Vec::new();
    let mut left: usize = allowed_to_skip;
    let mut j: usize = 0;
    while j < items.len()
        invariant
            0 <= j <= items@.len(),
            left <= allowed_to_skip,
            out@.len() <= j,
            out@.len() + (allowed_to_skip - left) == j,
            is_subseq_of(out@, items@.take(j as int)),
        decreases items@.len() - j,
    {
        let keep = left == 0 || rng_coin(rng);
        proof {
            assert(items@.take(j + 1) =~= items@.take(j as int).push(items@[j as int]));
        }
        if keep {
            proof {
                lemma_subseq_push_both(out@, items@.take(j as int), items@[j as int]);
            }
            out.push(items[j]);
        } else {
            proof {
                lemma_subseq_push_right(out@, items@.take(j as int), items@[j as int]);
            }
            left = left - 1;
        }
        j = j + 1;
    }
    proof {
        assert(items@.take(items@.len() as int) =~= items@);
    }
    out
}

} // verus!
