//! Small helpers shared by the decoders.

use vstd::prelude::*;
use vstd::std_specs::iter::IteratorSpec;

verus! {

/// The only item of `iter`; where it yields none, or more than one, the error
/// that `err` makes.
pub fn single_iter<T, I, E, F>(iter: I, err: F) -> (r: Result<T, E>) where
    I: Iterator<Item = T>,
    F: FnOnce() -> E + Copy,

    requires
        iter.obeys_prophetic_iter_laws(),
        err.requires(()),
    ensures
        match r {
            Ok(item) => iter.remaining().len() == 1 && item == iter.remaining()[0],
            Err(e) => iter.remaining().len() != 1 && err.ensures((), e),
        },
{
    let mut iter = iter;
    match iter.next() {
        None => Err(err()),
        Some(first) => {
            if iter.next().is_some() {
                Err(err())
            } else {
                Ok(first)
            }
        },
    }
}

/// A decoded value or the error, each by its mathematical value.
pub open spec fn outcome<T: DeepView, E: View>(r: Result<T, E>) -> Result<T::V, E::V> {
    match r {
        Ok(value) => Ok(value.deep_view()),
        Err(e) => Err(e@),
    }
}

/// The results of `f` on the items of `items`, each with its index, in
/// order; the error of the first item on which `f` fails.
pub open spec fn try_map<A, B, E>(items: Seq<A>, f: spec_fn(int, A) -> Result<B, E>) -> Result<
    Seq<B>,
    E,
>
    decreases items.len(),
{
    if items.len() == 0 {
        Ok(Seq::empty())
    } else {
        match try_map(items.drop_last(), f) {
            Err(e) => Err(e),
            Ok(done) => match f(items.len() - 1, items.last()) {
                Err(e) => Err(e),
                Ok(value) => Ok(done.push(value)),
            },
        }
    }
}

/// One more item: the results so far, and then that of the next item.
pub proof fn lemma_try_map_step<A, B, E>(items: Seq<A>, f: spec_fn(int, A) -> Result<B, E>, i: int)
    requires
        0 <= i < items.len(),
    ensures
        try_map(items.take(i + 1), f) == match try_map(items.take(i), f) {
            Err(e) => Err::<Seq<B>, E>(e),
            Ok(done) => match f(i, items[i]) {
                Err(e) => Err(e),
                Ok(value) => Ok(done.push(value)),
            },
        },
{
    assert(items.take(i + 1).drop_last() =~= items.take(i));
}

/// An error among the first items is the error of the whole.
pub proof fn lemma_try_map_fails<A, B, E>(items: Seq<A>, f: spec_fn(int, A) -> Result<B, E>, n: int)
    requires
        0 <= n <= items.len(),
        try_map(items.take(n), f) is Err,
    ensures
        try_map(items, f) == try_map(items.take(n), f),
    decreases items.len() - n,
{
    if n == items.len() {
        assert(items.take(n) =~= items);
    } else {
        lemma_try_map_step(items, f, n);
        lemma_try_map_fails(items, f, n + 1);
    }
}

/// Where every item gives a result, there is one result for each item, in the
/// order of the items.
pub proof fn lemma_try_map_ok<A, B, E>(items: Seq<A>, f: spec_fn(int, A) -> Result<B, E>)
    ensures
        match try_map(items, f) {
            Ok(values) => {
                &&& values.len() == items.len()
                &&& forall|i: int| 0 <= i < items.len() ==> f(i, #[trigger] items[i]) == Ok::<B, E>(values[i])
            },
            Err(e) => exists|i: int|
                {
                    &&& 0 <= i < items.len()
                    &&& f(i, #[trigger] items[i]) == Err::<B, E>(e)
                    &&& forall|j: int| 0 <= j < i ==> f(j, #[trigger] items[j]) is Ok
                },
        },
    decreases items.len(),
{
    if items.len() > 0 {
        let front = items.drop_last();
        lemma_try_map_ok(front, f);
        assert(forall|i: int| 0 <= i < front.len() ==> front[i] == items[i]);
        match try_map(front, f) {
            Err(e) => {
                let i = choose|i: int|
                    {
                        &&& 0 <= i < front.len()
                        &&& f(i, #[trigger] front[i]) == Err::<B, E>(e)
                        &&& forall|j: int| 0 <= j < i ==> f(j, #[trigger] front[j]) is Ok
                    };
                assert(f(i, items[i]) == Err::<B, E>(e));
                assert(forall|j: int| 0 <= j < i ==> front[j] == items[j]);
            },
            Ok(done) => {
                let last = items.len() - 1;
                match f(last, items.last()) {
                    Err(e) => {
                        assert(f(last, items[last]) == Err::<B, E>(e));
                    },
                    Ok(value) => {},
                }
            },
        }
    }
}

/// The only item of `items`, if there is exactly one.
pub fn single<T>(items: &Vec<T>) -> (r: Option<&T>)
    ensures
        r == if items@.len() == 1 { Some(&items@[0]) } else { None::<&T> },
{
    broadcast use vstd::std_specs::slice::axiom_spec_slice_iter;
    match single_iter(items.as_slice().iter(), || ()) {
        Ok(item) => Some(item),
        Err(_) => None,
    }
}

/// A payload field with the empty text taken as no value.
pub fn empty_string_as_none(value: Option<String>) -> (r: Option<String>)
    ensures
        r == match value {
            Some(s) if s@.len() > 0 => Some(s),
            _ => None::<String>,
        },
{
    match value {
        Some(s) => {
            if s.as_str().unicode_len() == 0 {
                None
            } else {
                Some(s)
            }
        },
        None => None,
    }
}

} // verus!
