//! Game object containers: removing the objects that a check marks.

use vstd::prelude::*;

verus! {

/// `s` after `Vec::swap_remove(i)`: element `i` is removed and the last element
/// takes its place.
pub open spec fn swap_remove_at<T>(s: Seq<T>, i: int) -> Seq<T> {
    s.update(i, s.last()).drop_last()
}

/// `s` after removing the elements at `indices`, the last index first.
pub open spec fn remove_at_indices<T>(s: Seq<T>, indices: Seq<usize>) -> Seq<T>
    decreases indices.len(),
{
    if indices.len() == 0 {
        s
    } else {
        remove_at_indices(swap_remove_at(s, indices.last() as int), indices.drop_last())
    }
}

/// `indices` are increasing positions of a sequence of length `len`.
pub open spec fn increasing_indices(indices: Seq<usize>, len: nat) -> bool {
    &&& forall|i: int, j: int| 0 <= i < j < indices.len() ==> indices[i] < indices[j]
    &&& forall|i: int| 0 <= i < indices.len() ==> indices[i] < len
}

/// Is position `p` one of `indices`.
pub open spec fn marked(indices: Seq<usize>, p: int) -> bool {
    exists|i: int| 0 <= i < indices.len() && indices[i] as int == p
}

/// The elements of `s` whose positions are not in `indices`, in order.
pub open spec fn kept<T>(s: Seq<T>, indices: Seq<usize>) -> Seq<T>
    decreases s.len(),
{
    if s.len() == 0 {
        s
    } else {
        let rest = kept(s.drop_last(), indices);
        if marked(indices, s.len() - 1) {
            rest
        } else {
            rest.push(s.last())
        }
    }
}

/// A check of a game object: it may change the object, and returns true when
/// the object should be removed. The check keeps the answers it gave and the
/// objects as it left them.
pub trait ObjectCheck<T> {
    /// The answers that the check gave so far, oldest first.
    spec fn answers(&self) -> Vec<bool>;

    /// The objects checked so far, as the check left them, oldest first.
    spec fn checked(&self) -> Vec<T>;

    /// Check `object`; the answer and the object as the check leaves it are
    /// kept after the earlier ones.
    fn check(&mut self, object: &mut T) -> (remove: bool)
        ensures
            final(self).answers()@ == old(self).answers()@.push(remove),
            final(self).checked()@ == old(self).checked()@.push(*final(object));
}

/// Positions of the true answers of `answers`, in increasing order.
pub open spec fn true_positions(answers: Seq<bool>) -> Seq<usize>
    decreases answers.len(),
{
    if answers.len() == 0 {
        Seq::empty()
    } else {
        let rest = true_positions(answers.drop_last());
        if answers.last() {
            rest.push((answers.len() - 1) as usize)
        } else {
            rest
        }
    }
}

/// Trait for nicer game object container updates.
pub trait UpdateContent<T> {
    /// Run `check_object` for every game object currently stored to the container
    /// implementing this trait.
    ///
    /// If `check_object` returns true, the game object will be removed. This will be
    /// done with the index_buffer, where location indexes of game objects will be
    /// stored; it is empty before and after.
    fn update<C: ObjectCheck<T>>(&mut self, index_buffer: &mut Vec<usize>, check_object: &mut C)
        requires
            old(index_buffer)@.len() == 0,
    ;
}

impl<T> UpdateContent<T> for Vec<T> {
    /// Each object is checked once, in order, and the objects whose check
    /// answered true are removed: the remaining objects are the objects as
    /// their checks left them, after removing those at the positions of the
    /// true answers, the last position first, each by `Vec::swap_remove`.
    fn update<C: ObjectCheck<T>>(&mut self, index_buffer: &mut Vec<usize>, check_object: &mut C)
        ensures
            final(index_buffer)@.len() == 0,
            ({
                let before = old(check_object).answers()@;
                let after = final(check_object).answers()@;
                let checked_before = old(check_object).checked()@;
                let checked_after = final(check_object).checked()@;
                let n = old(self)@.len();
                &&& after.len() == before.len() + n
                &&& after.take(before.len() as int) == before
                &&& checked_after.len() == checked_before.len() + n
                &&& checked_after.take(checked_before.len() as int) == checked_before
                &&& final(self)@ == remove_at_indices(
                    checked_after.skip(checked_before.len() as int),
                    true_positions(after.skip(before.len() as int)),
                )
            }),
    {
        let ghost before = check_object.answers()@;
        let ghost checked_before = check_object.checked()@;
        let n = self.len();
        let mut i: usize = 0;
        while i < n
            invariant
                n == self@.len(),
                i <= n,
                check_object.answers()@.len() == before.len() + i,
                check_object.answers()@.take(before.len() as int) == before,
                check_object.checked()@.len() == checked_before.len() + i,
                check_object.checked()@.take(checked_before.len() as int) == checked_before,
                self@.take(i as int) == check_object.checked()@.skip(checked_before.len() as int),
                index_buffer@ == true_positions(check_object.answers()@.skip(before.len() as int)),
                forall|a: int, b: int| 0 <= a < b < index_buffer@.len() ==> index_buffer@[a] < index_buffer@[b],
                forall|a: int| 0 <= a < index_buffer@.len() ==> index_buffer@[a] < i,
            decreases n - i,
        {
            let ghost answers = check_object.answers()@;
            let ghost checked = check_object.checked()@;
            let ghost objects = self@;
            let remove = check_object.check(&mut self[i]);
            proof {
                let a = answers.skip(before.len() as int);
                let a2 = check_object.answers()@.skip(before.len() as int);
                assert(a2 =~= a.push(remove));
                assert(a2.drop_last() =~= a);
                assert(check_object.answers()@.take(before.len() as int) =~= answers.take(before.len() as int));
                assert(self@ == objects.update(i as int, check_object.checked()@.last()));
                assert(check_object.checked()@.take(checked_before.len() as int) =~= checked.take(checked_before.len() as int));
                assert(self@.take(i + 1) =~= objects.take(i as int).push(check_object.checked()@.last()));
                assert(check_object.checked()@.skip(checked_before.len() as int)
                    =~= checked.skip(checked_before.len() as int).push(check_object.checked()@.last()));
            }
            if remove {
                index_buffer.push(i);
            }
            i = i + 1;
        }
        let ghost checked = self@;
        assert(checked =~= self@.take(n as int));
        let ghost indices = index_buffer@;
        let mut k = index_buffer.len();
        assert(indices.take(k as int) =~= indices);
        while k > 0
            invariant
                k <= indices.len(),
                index_buffer@ == indices,
                increasing_indices(indices, checked.len()),
                checked.len() == n,
                self@.len() == n - (indices.len() - k),
                remove_at_indices(checked, indices) == remove_at_indices(self@, indices.take(k as int)),
            decreases k,
        {
            let index = index_buffer[k - 1];
            assert(indices.take(k as int).last() == index);
            assert(indices.take(k as int).drop_last() =~= indices.take(k - 1));
            assert(index < n - (indices.len() - k)) by {
                assert forall|a: int| k <= a < indices.len() implies indices[a] > index by {
                    assert(indices[k - 1] < indices[a]);
                }
                assert(index as int + (indices.len() - k) < n) by {
                    if indices.len() > k {
                        lemma_increasing_gap(indices, k - 1, checked.len());
                    }
                }
            }
            self.swap_remove(index);
            k = k - 1;
        }
        assert(indices.take(0) =~= Seq::<usize>::empty());
        index_buffer.clear();
        assert(remove_at_indices(checked, indices) == self@);
    }
}

/// In increasing indices below `len`, the index at `a` leaves room for the
/// indices after it.
proof fn lemma_increasing_gap(indices: Seq<usize>, a: int, len: nat)
    requires
        increasing_indices(indices, len),
        0 <= a < indices.len(),
    ensures
        indices[a] + (indices.len() - 1 - a) < len,
    decreases indices.len() - a,
{
    if a + 1 < indices.len() {
        lemma_increasing_gap(indices, a + 1, len);
        assert(indices[a] < indices[a + 1]);
    }
}

/// Elements after all removed positions are kept.
proof fn lemma_kept_append<T>(s: Seq<T>, t: Seq<T>, indices: Seq<usize>)
    requires
        forall|i: int| 0 <= i < indices.len() ==> indices[i] < s.len(),
    ensures
        kept(s + t, indices) == kept(s, indices) + t,
    decreases t.len(),
{
    if t.len() == 0 {
        assert(s + t =~= s);
        assert(kept(s, indices) + t =~= kept(s, indices));
    } else {
        lemma_kept_append(s, t.drop_last(), indices);
        assert((s + t).drop_last() =~= s + t.drop_last());
        let p = (s + t).len() - 1;
        assert(!marked(indices, p)) by {
            if marked(indices, p) {
                let i = choose|i: int| 0 <= i < indices.len() && indices[i] as int == p;
            }
        }
        assert(kept(s, indices) + t.drop_last() + seq![t.last()] =~= kept(s, indices) + t);
    }
}

/// Only the positions inside `s` decide what `kept` keeps.
proof fn lemma_kept_agree<T>(s: Seq<T>, a: Seq<usize>, b: Seq<usize>)
    requires
        forall|p: int| 0 <= p < s.len() ==> (#[trigger] marked(a, p) <==> marked(b, p)),
    ensures
        kept(s, a) == kept(s, b),
    decreases s.len(),
{
    if s.len() > 0 {
        lemma_kept_agree(s.drop_last(), a, b);
    }
}

/// Without removed positions, everything is kept.
proof fn lemma_kept_none<T>(s: Seq<T>)
    ensures
        kept(s, Seq::<usize>::empty()) == s,
    decreases s.len(),
{
    if s.len() > 0 {
        lemma_kept_none(s.drop_last());
        assert(s.drop_last().push(s.last()) =~= s);
    }
}

/// Removing the elements at increasing positions leaves exactly the elements
/// at the other positions, in some order: when a game object container is
/// updated, the objects that `check_object` marked for removal are removed and no
/// other object.
pub proof fn lemma_removal_keeps_unmarked<T>(s: Seq<T>, indices: Seq<usize>)
    requires
        increasing_indices(indices, s.len()),
    ensures
        remove_at_indices(s, indices).to_multiset() == kept(s, indices).to_multiset(),
        remove_at_indices(s, indices).len() == s.len() - indices.len(),
    decreases indices.len(),
{
    broadcast use vstd::seq_lib::lemma_multiset_commutative;
    if indices.len() == 0 {
        assert(indices =~= Seq::<usize>::empty());
        lemma_kept_none(s);
    } else {
        let n = s.len();
        let m = indices.last() as int;
        let rest = indices.drop_last();
        let s2 = swap_remove_at(s, m);
        assert(m < n);
        assert forall|i: int| 0 <= i < rest.len() implies rest[i] < m by {
            assert(indices[i] < indices[indices.len() - 1]);
        }
        lemma_removal_keeps_unmarked(s2, rest);
        // What `kept` keeps of `s`.
        assert(s =~= s.take(m + 1) + s.subrange(m + 1, n as int));
        lemma_kept_append(s.take(m + 1), s.subrange(m + 1, n as int), indices);
        assert(s.take(m + 1).drop_last() =~= s.take(m));
        assert(marked(indices, m)) by {
            assert(indices[indices.len() - 1] as int == m);
        }
        assert(kept(s.take(m + 1), indices) == kept(s.take(m), indices));
        assert forall|p: int| 0 <= p < m implies (#[trigger] marked(indices, p) <==> marked(rest, p)) by {
            if marked(indices, p) {
                let i = choose|i: int| 0 <= i < indices.len() && indices[i] as int == p;
                assert(i != indices.len() - 1);
                assert(rest[i] == indices[i]);
            }
            if marked(rest, p) {
                let i = choose|i: int| 0 <= i < rest.len() && rest[i] as int == p;
                assert(indices[i] == rest[i]);
            }
        }
        lemma_kept_agree(s.take(m), indices, rest);
        // What `kept` keeps of the sequence after the first removal.
        assert(s2.len() == n - 1);
        assert(s2 =~= s2.take(m) + s2.subrange(m, n - 1));
        lemma_kept_append(s2.take(m), s2.subrange(m, n - 1), rest);
        assert(s2.take(m) =~= s.take(m));
        if m == n - 1 {
            assert(s2.subrange(m, n - 1) =~= s.subrange(m + 1, n as int));
        } else {
            let middle = s.subrange(m + 1, n - 1);
            let last = seq![s[n - 1]];
            assert(s2.subrange(m, n - 1) =~= last + middle);
            assert(s.subrange(m + 1, n as int) =~= middle + last);
            assert((last + middle).to_multiset() =~= (middle + last).to_multiset()) by {
                broadcast use vstd::multiset::group_multiset_axioms;
                assert((last + middle).to_multiset() =~= last.to_multiset().add(middle.to_multiset()));
                assert((middle + last).to_multiset() =~= middle.to_multiset().add(last.to_multiset()));
            }
        }
        assert(s2.subrange(m, n - 1).to_multiset() =~= s.subrange(m + 1, n as int).to_multiset());
        let front = kept(s.take(m), rest);
        assert(kept(s, indices) == front + s.subrange(m + 1, n as int));
        assert(kept(s2, rest) == front + s2.subrange(m, n - 1));
        assert((front + s.subrange(m + 1, n as int)).to_multiset() =~= (front + s2.subrange(m, n - 1)).to_multiset());
        assert(remove_at_indices(s, indices) == remove_at_indices(s2, rest));
        assert(kept(s2, rest).to_multiset() == kept(s, indices).to_multiset());
    }
}

} // verus!
