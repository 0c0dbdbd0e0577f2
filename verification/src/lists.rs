//! Lists of texts.
use vstd::prelude::*;
use vstd::string::*;

verus! {

/// The texts of a list of strings.
pub open spec fn texts(list: Seq<String>) -> Seq<Seq<char>> {
    Seq::new(list.len(), |i: int| list[i]@)
}

/// The list without a text.
pub open spec fn without(list: Seq<Seq<char>>, text: Seq<char>) -> Seq<Seq<char>>
    decreases list.len(),
{
    if list.len() == 0 {
        seq![]
    } else if list.last() == text {
        without(list.drop_last(), text)
    } else {
        without(list.drop_last(), text).push(list.last())
    }
}

/// What an extended list holds.
pub proof fn lemma_push_contains(l: Seq<Seq<char>>, id: Seq<char>, other: Seq<char>)
    ensures
        l.push(id).contains(other) <==> l.contains(other) || other == id,
{
    let m = l.push(id);
    if l.contains(other) {
        let i = choose|i: int| 0 <= i < l.len() && l[i] == other;
        assert(m[i] == other);
    }
    if other == id {
        assert(m[l.len() as int] == other);
    }
    if m.contains(other) && other != id {
        let i = choose|i: int| 0 <= i < m.len() && m[i] == other;
        assert(l[i] == other);
    }
}

/// What is left without a text.
pub proof fn lemma_without(l: Seq<Seq<char>>, id: Seq<char>, other: Seq<char>)
    ensures
        without(l, id).contains(other) <==> l.contains(other) && other != id,
    decreases l.len(),
{
    if l.len() > 0 {
        lemma_without(l.drop_last(), id, other);
        lemma_push_contains(l.drop_last(), l.last(), other);
        assert(l.drop_last().push(l.last()) =~= l);
        lemma_push_contains(without(l.drop_last(), id), l.last(), other);
    }
}

/// A list without repetitions has none without a text either.
pub proof fn lemma_without_distinct(l: Seq<Seq<char>>, id: Seq<char>)
    requires
        l.no_duplicates(),
    ensures
        without(l, id).no_duplicates(),
    decreases l.len(),
{
    if l.len() > 0 {
        let rest = l.drop_last();
        assert(rest.no_duplicates()) by {
            assert forall|i: int, j: int|
                0 <= i < rest.len() && 0 <= j < rest.len() && i != j implies rest[i]
                != rest[j] by {
                assert(l[i] != l[j]);
            }
        }
        lemma_without_distinct(rest, id);
        let kept = without(rest, id);
        lemma_without(rest, id, l.last());
        if rest.contains(l.last()) {
            let i = choose|i: int| 0 <= i < rest.len() && rest[i] == l.last();
            assert(l[i] == l[l.len() - 1]);
        }
        if l.last() != id {
            let m = kept.push(l.last());
            assert forall|i: int, j: int|
                0 <= i < m.len() && 0 <= j < m.len() && i != j implies m[i] != m[j] by {
                if i < kept.len() {
                    assert(kept.contains(kept[i]));
                }
                if j < kept.len() {
                    assert(kept.contains(kept[j]));
                }
            }
        }
    }
}

/// Taking a text out of a list takes out every occurrence of it and leaves the others in their
/// order.
pub proof fn law_taking_a_text_out(list: Seq<Seq<char>>, last: Seq<char>, text: Seq<char>)
    ensures
        without(Seq::empty(), text) == Seq::<Seq<char>>::empty(),
        without(list.push(text), text) == without(list, text),
        last != text ==> without(list.push(last), text) == without(list, text).push(last),
{
    assert(list.push(text).drop_last() =~= list);
    assert(list.push(last).drop_last() =~= list);
}

} // verus!
