//! Lists without repetitions, as sets.

use vstd::prelude::*;

verus! {

/// A list without repetitions stays so when an item goes, and its set loses that item.
pub proof fn lemma_remove<A>(list: Seq<A>, at: int)
    requires
        list.no_duplicates(),
        0 <= at < list.len(),
    ensures
        list.remove(at).no_duplicates(),
        list.remove(at).to_set() == list.to_set().remove(list[at]),
{
    let rest = list.remove(at);
    assert forall|a: int, b: int| 0 <= a < rest.len() && 0 <= b < rest.len() && a != b implies rest[a]
        != rest[b] by {
        let c = if a < at { a } else { a + 1 };
        let d = if b < at { b } else { b + 1 };
        assert(rest[a] == list[c] && rest[b] == list[d]);
    }
    assert forall|x: A| #[trigger]
        rest.to_set().contains(x) == (list.to_set().contains(x) && x != list[at]) by {
        if rest.to_set().contains(x) {
            let a = choose|a: int| 0 <= a < rest.len() && rest[a] == x;
            let c = if a < at { a } else { a + 1 };
            assert(list[c] == x);
        }
        if list.to_set().contains(x) && x != list[at] {
            let c = choose|c: int| 0 <= c < list.len() && list[c] == x;
            let a = if c < at { c } else { c - 1 };
            assert(rest[a] == x);
        }
    }
    assert(rest.to_set() =~= list.to_set().remove(list[at]));
}

/// A list without repetitions stays so when an item comes that was not in it, and its
/// set gains that item.
pub proof fn lemma_push<A>(list: Seq<A>, item: A)
    requires
        list.no_duplicates(),
        !list.contains(item),
    ensures
        list.push(item).no_duplicates(),
        list.push(item).to_set() == list.to_set().insert(item),
{
    let more = list.push(item);
    assert forall|k: int| 0 <= k < list.len() implies #[trigger] list[k] != item by {
        assert(list.contains(list[k]));
    }
    assert forall|x: A| #[trigger]
        more.to_set().contains(x) == (list.to_set().contains(x) || x == item) by {
        if list.to_set().contains(x) {
            let a = choose|a: int| 0 <= a < list.len() && list[a] == x;
            assert(more[a] == x);
        }
        if x == item {
            assert(more[list.len() as int] == x);
        }
    }
    assert(more.to_set() =~= list.to_set().insert(item));
}

} // verus!
