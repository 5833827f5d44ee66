//! Orders on texts, and sorting by a total order.

use vstd::prelude::*;

verus! {

/// The dictionary order of texts, by code point.
pub open spec fn text_le(left: Seq<char>, right: Seq<char>) -> bool
    decreases left.len(),
{
    if left.len() == 0 {
        true
    } else if right.len() == 0 {
        false
    } else if left[0] != right[0] {
        left[0] < right[0]
    } else {
        text_le(left.drop_first(), right.drop_first())
    }
}

/// The dictionary order is total.
pub proof fn lemma_text_le_total(left: Seq<char>, right: Seq<char>)
    ensures
        text_le(left, right) || text_le(right, left),
    decreases left.len(),
{
    if left.len() > 0 && right.len() > 0 && left[0] == right[0] {
        lemma_text_le_total(left.drop_first(), right.drop_first());
    }
}

/// The dictionary order is transitive.
pub proof fn lemma_text_le_transitive(first: Seq<char>, second: Seq<char>, third: Seq<char>)
    requires
        text_le(first, second),
        text_le(second, third),
    ensures
        text_le(first, third),
    decreases first.len(),
{
    if first.len() > 0 && second.len() > 0 && third.len() > 0 && first[0] == second[0] && second[0]
        == third[0] {
        lemma_text_le_transitive(first.drop_first(), second.drop_first(), third.drop_first());
    }
}

/// Two texts that stand before each other are one text.
pub proof fn lemma_text_le_antisymmetric(left: Seq<char>, right: Seq<char>)
    requires
        text_le(left, right),
        text_le(right, left),
    ensures
        left == right,
    decreases left.len(),
{
    if left.len() > 0 && right.len() > 0 {
        let left_rest = left.drop_first();
        let right_rest = right.drop_first();
        lemma_text_le_antisymmetric(left_rest, right_rest);
        assert forall|i: int| 0 <= i < left.len() implies left[i] == right[i] by {
            if i > 0 {
                assert(left[i] == left_rest[i - 1]);
                assert(right[i] == right_rest[i - 1]);
            }
        }
    }
    assert(left =~= right);
}

/// Whether `left` stands at or before `right` in the dictionary order.
pub fn text_at_most(left: &str, right: &str) -> (yes: bool)
    ensures
        yes == text_le(left@, right@),
{
    let left_length: usize = left.unicode_len();
    let right_length: usize = right.unicode_len();
    let mut at: usize = 0;
    assert(left@.skip(0) =~= left@);
    assert(right@.skip(0) =~= right@);
    while at < left_length && at < right_length
        invariant
            at <= left_length,
            at <= right_length,
            left_length == left@.len(),
            right_length == right@.len(),
            text_le(left@, right@) == text_le(left@.skip(at as int), right@.skip(at as int)),
        decreases left_length - at,
    {
        let left_char = left.get_char(at);
        let right_char = right.get_char(at);
        assert(left@.skip(at as int)[0] == left_char);
        assert(right@.skip(at as int)[0] == right_char);
        if left_char != right_char {
            return left_char < right_char;
        }
        assert(left@.skip(at as int).drop_first() =~= left@.skip(at as int + 1));
        assert(right@.skip(at as int).drop_first() =~= right@.skip(at as int + 1));
        at = at + 1;
    }
    at == left_length
}

/// A type whose values stand in a total order.
pub trait Ranked: Sized {
    /// Whether `self` stands at or before `other`.
    spec fn at_most(&self, other: &Self) -> bool;

    proof fn at_most_total(left: &Self, right: &Self)
        ensures
            left.at_most(right) || right.at_most(left),
    ;

    proof fn at_most_transitive(first: &Self, second: &Self, third: &Self)
        requires
            first.at_most(second),
            second.at_most(third),
        ensures
            first.at_most(third),
    ;

    /// Whether `self` stands at or before `other`.
    fn is_at_most(&self, other: &Self) -> (yes: bool)
        ensures
            yes == self.at_most(other),
    ;
}

/// Every item stands at or before the items that follow it.
pub open spec fn ranked<T: Ranked>(items: Seq<T>) -> bool {
    forall|i: int, j: int|
        #![trigger items[i], items[j]]
        0 <= i <= j < items.len() ==> items[i].at_most(&items[j])
}

/// The items in order; items that stand equal keep their order.
pub fn sort<T: Ranked>(items: Vec<T>) -> (sorted: Vec<T>)
    ensures
        ranked(sorted@),
        sorted@.to_multiset() == items@.to_multiset(),
        sorted@.len() == items@.len(),
{
    let ghost all = items@;
    let mut rest: Vec<T> = items;
    let mut sorted: Vec<T> = Vec::new();
    proof {
        assert(Seq::<T>::empty().to_multiset() =~= vstd::multiset::Multiset::empty()) by {
            Seq::<T>::empty().to_multiset_ensures();
        }
        assert(sorted@.to_multiset().add(rest@.to_multiset()) =~= all.to_multiset()) by {
            sorted@.to_multiset_ensures();
        }
    }
    while rest.len() > 0
        invariant
            ranked(sorted@),
            sorted@.to_multiset().add(rest@.to_multiset()) == all.to_multiset(),
            sorted@.len() + rest@.len() == all.len(),
        decreases rest.len(),
    {
        let ghost before_rest = rest@;
        let ghost before = sorted@;
        let item = rest.remove(0);
        let mut at: usize = sorted.len();
        while at > 0 && !sorted[at - 1].is_at_most(&item)
            invariant
                at <= sorted.len(),
                sorted@ == before,
                forall|j: int| at <= j < sorted.len() ==> !(#[trigger] sorted@[j]).at_most(&item),
            decreases at,
        {
            at = at - 1;
        }
        proof {
            lemma_insert_ranked(before, item, at as int);
            assert(before_rest =~= seq![item] + rest@);
            lemma_insert_multiset(before, item, at as int);
            vstd::seq_lib::lemma_multiset_commutative(seq![item], rest@);
            lemma_single_multiset(item);
            assert(before.to_multiset().insert(item).add(rest@.to_multiset()) =~= before.to_multiset().add(
                seq![item].to_multiset().add(rest@.to_multiset()),
            ));
        }
        sorted.insert(at, item);
    }
    proof {
        assert(rest@ =~= Seq::<T>::empty());
        rest@.to_multiset_ensures();
        assert(sorted@.to_multiset() =~= all.to_multiset());
    }
    sorted
}

proof fn lemma_single_multiset<T>(item: T)
    ensures
        seq![item].to_multiset() =~= vstd::multiset::Multiset::empty().insert(item),
{
    Seq::<T>::empty().to_multiset_ensures();
    assert(seq![item] =~= Seq::<T>::empty().push(item));
    assert(Seq::<T>::empty().to_multiset() =~= vstd::multiset::Multiset::empty());
}

proof fn lemma_insert_multiset<T>(items: Seq<T>, item: T, at: int)
    requires
        0 <= at <= items.len(),
    ensures
        items.insert(at, item).to_multiset() =~= items.to_multiset().insert(item),
{
    let head = items.take(at);
    let tail = items.skip(at);
    assert(items =~= head + tail);
    assert(items.insert(at, item) =~= head + (seq![item] + tail));
    vstd::seq_lib::lemma_multiset_commutative(head, tail);
    vstd::seq_lib::lemma_multiset_commutative(head, seq![item] + tail);
    vstd::seq_lib::lemma_multiset_commutative(seq![item], tail);
    lemma_single_multiset(item);
}

proof fn lemma_insert_ranked<T: Ranked>(items: Seq<T>, item: T, at: int)
    requires
        ranked(items),
        0 <= at <= items.len(),
        at > 0 ==> items[at - 1].at_most(&item),
        forall|j: int| at <= j < items.len() ==> !(#[trigger] items[j]).at_most(&item),
    ensures
        ranked(items.insert(at, item)),
{
    let grown = items.insert(at, item);
    assert forall|i: int, j: int|
        #![trigger grown[i], grown[j]]
        0 <= i <= j < grown.len() implies grown[i].at_most(&grown[j]) by {
        T::at_most_total(&grown[i], &grown[j]);
        if i < at && j < at {
            assert(grown[i] == items[i] && grown[j] == items[j]);
        } else if i < at && j == at {
            assert(grown[i] == items[i]);
            assert(items[i].at_most(&items[at - 1]));
            T::at_most_transitive(&items[i], &items[at - 1], &item);
        } else if i < at && j > at {
            assert(grown[i] == items[i] && grown[j] == items[j - 1]);
        } else if i == at && j == at {
        } else if i == at && j > at {
            assert(grown[j] == items[j - 1]);
        } else {
            assert(grown[i] == items[i - 1] && grown[j] == items[j - 1]);
        }
    }
}

/// Two sequences with the same items have the same items once a function was
/// applied to each.
pub proof fn lemma_mapped_multiset<T, U>(left: Seq<T>, right: Seq<T>, f: spec_fn(T) -> U)
    requires
        left.to_multiset() == right.to_multiset(),
    ensures
        left.map_values(f).to_multiset() == right.map_values(f).to_multiset(),
    decreases left.len(),
{
    left.to_multiset_ensures();
    right.to_multiset_ensures();
    if left.len() == 0 {
        assert(left.map_values(f) =~= right.map_values(f));
    } else {
        let item = left.last();
        assert(left.contains(item));
        assert(left.to_multiset().count(item) > 0);
        assert(right.contains(item));
        let at = choose|i: int| 0 <= i < right.len() && right[i] == item;
        let rest = right.remove(at);
        assert(rest.insert(at, item) =~= right);
        lemma_insert_multiset(rest, item, at);
        assert(left.drop_last().insert(left.len() - 1, item) =~= left);
        lemma_insert_multiset(left.drop_last(), item, left.len() - 1);
        assert(left.drop_last().to_multiset() =~= left.to_multiset().remove(item));
        assert(rest.to_multiset() =~= right.to_multiset().remove(item));
        lemma_mapped_multiset(left.drop_last(), rest, f);
        assert(right.map_values(f) =~= rest.map_values(f).insert(at, f(item)));
        assert(left.map_values(f) =~= left.drop_last().map_values(f).insert(
            left.len() - 1,
            f(item),
        ));
        lemma_insert_multiset(rest.map_values(f), f(item), at);
        lemma_insert_multiset(left.drop_last().map_values(f), f(item), left.len() - 1);
    }
}

} // verus!
