//! How the outcomes of the entries of one list become one allow-list.

use vstd::prelude::*;
use vstd::seq_lib::lemma_seq_contains_after_push;

verus! {

/// `items` without its repeats: each item stands once, where it first occurs.
pub open spec fn distinct<T>(items: Seq<T>) -> Seq<T>
    decreases items.len(),
{
    if items.len() == 0 {
        Seq::empty()
    } else {
        let earlier = distinct(items.drop_last());
        if earlier.contains(items.last()) {
            earlier
        } else {
            earlier.push(items.last())
        }
    }
}

/// The outcomes of a list's entries, taken in order. The first error ends the
/// walk and is its result. Of the others, an entry that does not apply
/// (`Ok(None)`) leaves nothing, and each one that applies leaves its value.
pub open spec fn gather<T, E>(outcomes: Seq<Result<Option<T>, E>>) -> Result<Seq<T>, E>
    decreases outcomes.len(),
{
    if outcomes.len() == 0 {
        Ok(Seq::empty())
    } else {
        match gather(outcomes.drop_last()) {
            Err(error) => Err(error),
            Ok(kept) => match outcomes.last() {
                Err(error) => Err(error),
                Ok(None) => Ok(kept),
                Ok(Some(value)) => Ok(kept.push(value)),
            },
        }
    }
}

/// One more item at the end is kept if and only if it is new.
pub proof fn lemma_distinct_push<T>(items: Seq<T>, item: T)
    ensures
        distinct(items.push(item)) == if distinct(items).contains(item) {
            distinct(items)
        } else {
            distinct(items).push(item)
        },
{
    assert(items.push(item).drop_last() =~= items);
}

/// `distinct` holds the items of its argument and no others.
pub proof fn lemma_distinct_same_items<T>(items: Seq<T>)
    ensures
        forall|item: T| distinct(items).contains(item) <==> items.contains(item),
        distinct(items).to_set() == items.to_set(),
    decreases items.len(),
{
    if items.len() > 0 {
        let front = items.drop_last();
        let last = items.last();
        lemma_distinct_same_items(front);
        assert(front.push(last) =~= items);
        assert forall|item: T| distinct(items).contains(item) <==> items.contains(item) by {
            lemma_seq_contains_after_push(front, last, item);
            lemma_seq_contains_after_push(distinct(front), last, item);
        }
    }
    assert(distinct(items).to_set() =~= items.to_set());
}

/// No item stands twice in `distinct`.
pub proof fn lemma_distinct_no_duplicates<T>(items: Seq<T>)
    ensures
        distinct(items).no_duplicates(),
    decreases items.len(),
{
    if items.len() > 0 {
        lemma_distinct_no_duplicates(items.drop_last());
    }
}

/// `distinct` is as long as its argument has different items.
pub proof fn lemma_distinct_len<T>(items: Seq<T>)
    ensures
        distinct(items).len() == items.to_set().len(),
        distinct(items).len() <= items.len(),
{
    lemma_distinct_no_duplicates(items);
    lemma_distinct_same_items(items);
    distinct(items).unique_seq_to_set();
    lemma_distinct_not_longer(items);
}

/// `distinct` drops items and adds none.
pub proof fn lemma_distinct_not_longer<T>(items: Seq<T>)
    ensures
        distinct(items).len() <= items.len(),
    decreases items.len(),
{
    if items.len() > 0 {
        lemma_distinct_not_longer(items.drop_last());
    }
}

/// An error, once met, is the result whatever follows.
pub proof fn lemma_gather_error_stays<T, E>(
    outcomes: Seq<Result<Option<T>, E>>,
    met: int,
)
    requires
        0 <= met <= outcomes.len(),
        gather(outcomes.take(met)) is Err,
    ensures
        gather(outcomes) == gather(outcomes.take(met)),
    decreases outcomes.len() - met,
{
    if met < outcomes.len() {
        assert(outcomes.take(met + 1).drop_last() =~= outcomes.take(met));
        lemma_gather_error_stays(outcomes, met + 1);
    } else {
        assert(outcomes.take(met) =~= outcomes);
    }
}

/// One more outcome at the end of a walk that met no error.
pub proof fn lemma_gather_push<T, E>(outcomes: Seq<Result<Option<T>, E>>, next: Result<Option<T>, E>)
    ensures
        gather(outcomes.push(next)) == match gather(outcomes) {
            Err(error) => Err(error),
            Ok(kept) => match next {
                Err(error) => Err(error),
                Ok(None) => Ok(kept),
                Ok(Some(value)) => Ok(kept.push(value)),
            },
        },
{
    assert(outcomes.push(next).drop_last() =~= outcomes);
}

/// The walk succeeds exactly where no outcome is an error, and fails with the
/// error of the first outcome that is one.
pub proof fn lemma_gather_first_error<T, E>(outcomes: Seq<Result<Option<T>, E>>)
    ensures
        gather(outcomes) is Ok <==> forall|i: int| 0 <= i < outcomes.len() ==> (#[trigger] outcomes[i]) is Ok,
        gather(outcomes) is Err ==> exists|i: int|
            0 <= i < outcomes.len() && #[trigger] outcomes[i] == Err::<Option<T>, E>(gather(outcomes)->Err_0)
                && forall|j: int| 0 <= j < i ==> (#[trigger] outcomes[j]) is Ok,
    decreases outcomes.len(),
{
    if outcomes.len() > 0 {
        let front = outcomes.drop_last();
        let last = outcomes.len() - 1;
        lemma_gather_first_error(front);
        assert(forall|i: int| 0 <= i < front.len() ==> front[i] == outcomes[i]);
        if gather(front) is Err {
            let i = choose|i: int|
                0 <= i < front.len() && #[trigger] front[i] == Err::<Option<T>, E>(gather(front)->Err_0)
                    && forall|j: int| 0 <= j < i ==> (#[trigger] front[j]) is Ok;
            assert(outcomes[i] == Err::<Option<T>, E>(gather(outcomes)->Err_0));
            assert(forall|j: int| 0 <= j < i ==> (#[trigger] outcomes[j]) is Ok);
        } else if outcomes[last] is Err {
            assert(outcomes[last] == Err::<Option<T>, E>(gather(outcomes)->Err_0));
            assert(forall|j: int| 0 <= j < last ==> (#[trigger] outcomes[j]) is Ok);
        }
    }
}

/// A walk that met no error kept the values of the entries that apply, and
/// nothing else.
pub proof fn lemma_gather_kept<T, E>(outcomes: Seq<Result<Option<T>, E>>)
    requires
        gather(outcomes) is Ok,
    ensures
        forall|value: T|
            (gather(outcomes)->Ok_0).contains(value) <==> outcomes.contains(Ok::<Option<T>, E>(Some(value))),
    decreases outcomes.len(),
{
    let kept = gather(outcomes)->Ok_0;
    if outcomes.len() > 0 {
        let front = outcomes.drop_last();
        let last = outcomes.last();
        lemma_gather_kept(front);
        let before = gather(front)->Ok_0;
        assert(front.push(last) =~= outcomes);
        assert forall|value: T| kept.contains(value) <==> outcomes.contains(
            Ok::<Option<T>, E>(Some(value)),
        ) by {
            lemma_seq_contains_after_push(front, last, Ok::<Option<T>, E>(Some(value)));
            match last {
                Ok(Some(found)) => lemma_seq_contains_after_push(before, found, value),
                _ => {},
            }
        }
    }
}

/// A second copy of an outcome, at the end of the walk, adds no new item.
pub proof fn lemma_gather_repeat<T, E>(outcomes: Seq<Result<Option<T>, E>>, at: int)
    requires
        0 <= at < outcomes.len(),
    ensures
        match gather(outcomes) {
            Err(error) => gather(outcomes.push(outcomes[at])) == Err::<Seq<T>, E>(error),
            Ok(kept) => gather(outcomes.push(outcomes[at])) is Ok && distinct(
                gather(outcomes.push(outcomes[at]))->Ok_0,
            ) == distinct(kept),
        },
{
    lemma_gather_push(outcomes, outcomes[at]);
    lemma_gather_first_error(outcomes);
    match gather(outcomes) {
        Err(_) => {},
        Ok(kept) => {
            match outcomes[at] {
                Ok(Some(value)) => {
                    lemma_gather_kept(outcomes);
                    assert(outcomes.contains(Ok::<Option<T>, E>(Some(value))));
                    assert(kept.contains(value));
                    lemma_distinct_same_items(kept);
                    assert(distinct(kept).contains(value));
                    lemma_distinct_push(kept, value);
                },
                _ => {},
            }
        },
    }
}

/// An entry that does not apply can be taken out of the list, or put into it,
/// and the walk's result stays.
pub proof fn lemma_gather_passes_over<T, E>(outcomes: Seq<Result<Option<T>, E>>, at: int)
    requires
        0 <= at < outcomes.len(),
        outcomes[at] == Ok::<Option<T>, E>(None),
    ensures
        gather(outcomes.remove(at)) == gather(outcomes),
    decreases outcomes.len(),
{
    let front = outcomes.drop_last();
    if at == outcomes.len() - 1 {
        assert(outcomes.remove(at) =~= front);
    } else {
        lemma_gather_passes_over(front, at);
        assert(outcomes.remove(at).drop_last() =~= front.remove(at));
        assert(outcomes.remove(at).last() == outcomes.last());
    }
}

} // verus!
