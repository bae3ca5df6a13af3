//! Facts about filtered sequences and sequences that grow by one element.
use vstd::prelude::*;

verus! {

/// The content of a fallible result.
pub open spec fn outcome<T: DeepView, E: DeepView>(r: Result<T, E>) -> Result<T::V, E::V> {
    match r {
        Ok(value) => Ok(value.deep_view()),
        Err(error) => Err(error.deep_view()),
    }
}

/// Filtering one more element keeps it exactly if the predicate holds of it.
pub proof fn lemma_filter_step<A>(s: Seq<A>, pred: spec_fn(A) -> bool, i: int)
    requires
        0 <= i < s.len(),
    ensures
        s.take(i + 1).filter(pred) == if pred(s[i]) {
            s.take(i).filter(pred).push(s[i])
        } else {
            s.take(i).filter(pred)
        },
{
    reveal(Seq::filter);
    assert(s.take(i + 1).drop_last() =~= s.take(i));
}

/// Pushing to a vector appends the element's content to the vector's content.
pub broadcast proof fn lemma_push_content<T: DeepView>(before: Vec<T>, after: Vec<T>, x: T)
    requires
        #[trigger] after@ == #[trigger] before@.push(x),
    ensures
        after.deep_view() == before.deep_view().push(x.deep_view()),
{
    assert(after.deep_view() =~= before.deep_view().push(x.deep_view()));
}

/// A new vector has no content.
pub proof fn lemma_empty_content<T: DeepView>(v: Vec<T>)
    requires
        v@.len() == 0,
    ensures
        v.deep_view() == Seq::<T::V>::empty(),
{
    assert(v.deep_view() =~= Seq::<T::V>::empty());
}

/// The results of a fallible function on each element, or the error of the first element that
/// gives one.
pub open spec fn collected<A, B, E>(items: Seq<A>, f: spec_fn(A) -> Result<B, E>) -> Result<
    Seq<B>,
    E,
>
    decreases items.len(),
{
    if items.len() == 0 {
        Ok(Seq::empty())
    } else {
        match collected(items.drop_last(), f) {
            Err(error) => Err(error),
            Ok(front) => match f(items.last()) {
                Ok(value) => Ok(front.push(value)),
                Err(error) => Err(error),
            },
        }
    }
}

/// Collecting one more element.
pub proof fn lemma_collected_step<A, B, E>(items: Seq<A>, f: spec_fn(A) -> Result<B, E>, i: int)
    requires
        0 <= i < items.len(),
    ensures
        collected(items.take(i + 1), f) == match collected(items.take(i), f) {
            Err(error) => Err(error),
            Ok(front) => match f(items[i]) {
                Ok(value) => Ok(front.push(value)),
                Err(error) => Err(error),
            },
        },
{
    assert(items.take(i + 1).drop_last() =~= items.take(i));
    assert(items.take(i + 1).last() == items[i]);
}

/// An error among the first elements is the error of the whole.
pub proof fn lemma_collected_error<A, B, E>(items: Seq<A>, f: spec_fn(A) -> Result<B, E>, i: int)
    requires
        0 <= i <= items.len(),
        collected(items.take(i), f) is Err,
    ensures
        collected(items, f) == collected(items.take(i), f),
    decreases items.len() - i,
{
    if i < items.len() {
        lemma_collected_step(items, f, i);
        lemma_collected_error(items, f, i + 1);
    } else {
        assert(items.take(i) =~= items);
    }
}

/// Where collecting succeeds, each result is the function's result on its element.
pub proof fn lemma_collected_ok<A, B, E>(items: Seq<A>, f: spec_fn(A) -> Result<B, E>)
    requires
        collected(items, f) is Ok,
    ensures
        collected(items, f)->Ok_0.len() == items.len(),
        forall|i: int|
            0 <= i < items.len() ==> f(#[trigger] items[i]) == Ok::<B, E>(
                collected(items, f)->Ok_0[i],
            ),
    decreases items.len(),
{
    if items.len() > 0 {
        let front = items.drop_last();
        lemma_collected_ok(front, f);
        assert forall|i: int| 0 <= i < items.len() implies f(#[trigger] items[i]) == Ok::<B, E>(
            collected(items, f)->Ok_0[i],
        ) by {
            if i < front.len() {
                assert(front[i] == items[i]);
            }
        }
    }
}

} // verus!
