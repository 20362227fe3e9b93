use vstd::prelude::*;

use crate::shapes::Shape;
use crate::store::{rendered, rendered_position, AccessError, Canvas, ObjectID};

verus! {

/// Law: a handle just issued by `add` is accepted by the store that issued
/// it, and refers to exactly the inserted object. Here `c0` is the store
/// before the insertion, `c1` the store after it, `h` the handle `add`
/// returned and `x` the inserted object's representation, relating the
/// stores and the handle as `add` ensures.
pub proof fn lemma_add_then_get<S>(c0: Canvas<S>, c1: Canvas<S>, h: ObjectID, x: Shape<S>)
    requires
        c1.id() == c0.id(),
        c1.objects() == c0.objects().push(Some(x)),
        h.canvas_id() == c0.id(),
        h.slot() == c0.objects().len(),
        h.kind() == x.kind(),
    ensures
        c1.access_error(h) is None,
        c1.objects()[h.slot()] == Some(x),
{
}

/// Law: after a removal, any later access through the same handle is
/// refused with `SlotEmpty`. Here `c0` is the store before the removal and
/// `c1` the store after it, related as `remove` ensures on success.
pub proof fn lemma_removed_slot_stays_empty<S>(c0: Canvas<S>, c1: Canvas<S>, h: ObjectID)
    requires
        c0.access_error(h) is None,
        c1.id() == c0.id(),
        c1.objects() == c0.objects().update(h.slot(), None),
    ensures
        c1.access_error(h) == Some(AccessError::SlotEmpty),
{
}

/// Law: a handle issued by one store, used against a store with a
/// different identity, is refused with `IdentityMismatch` — whatever the
/// second store holds at the handle's slot.
pub proof fn lemma_identity_mismatch<S>(a: Canvas<S>, b: Canvas<S>, h: ObjectID)
    requires
        h.canvas_id() == a.id(),
        a.id() != b.id(),
    ensures
        b.access_error(h) == Some(AccessError::IdentityMismatch),
{
}

/// How rendering one more slot extends the rendering of the slots before
/// it: an occupied slot appends its object, an empty slot appends nothing.
pub proof fn lemma_rendered_take_succ<S>(objects: Seq<Option<Shape<S>>>, i: int)
    requires
        0 <= i < objects.len(),
    ensures
        rendered(objects.take(i + 1)) == (match objects[i] {
            Some(s) => rendered(objects.take(i)).push(s),
            None => rendered(objects.take(i)),
        }),
{
    assert(objects.take(i + 1).drop_last() =~= objects.take(i));
    assert(objects.take(i + 1).last() == objects[i]);
}

/// Rendering a prefix of the slots yields no more entries than rendering
/// them all.
pub proof fn lemma_rendered_take_le<S>(objects: Seq<Option<Shape<S>>>, j: int)
    requires
        0 <= j <= objects.len(),
    ensures
        rendered(objects.take(j)).len() <= rendered(objects).len(),
    decreases objects.len() - j,
{
    if j == objects.len() {
        assert(objects.take(j) =~= objects);
    } else {
        lemma_rendered_take_succ(objects, j);
        lemma_rendered_take_le(objects, j + 1);
    }
}

/// The rendered position of an occupied slot lies within the rendered
/// sequence.
pub proof fn lemma_rendered_position_in_range<S>(objects: Seq<Option<Shape<S>>>, i: int)
    requires
        0 <= i < objects.len(),
        objects[i] is Some,
    ensures
        0 <= rendered_position(objects, i) < rendered(objects).len(),
{
    lemma_rendered_take_succ(objects, i);
    lemma_rendered_take_le(objects, i + 1);
}

/// Law: with every slot occupied — as after any run of insertions with no
/// removals — rendering visits the objects in insertion order: one entry
/// per slot, in slot order.
pub proof fn lemma_rendered_insertion_order<S>(objects: Seq<Option<Shape<S>>>)
    requires
        forall|i: int| 0 <= i < objects.len() ==> objects[i] is Some,
    ensures
        rendered(objects).len() == objects.len(),
        forall|i: int| 0 <= i < objects.len() ==> rendered(objects)[i] == objects[i]->0,
    decreases objects.len(),
{
    if objects.len() > 0 {
        let dl = objects.drop_last();
        assert forall|i: int| 0 <= i < dl.len() implies dl[i] is Some by {
            assert(dl[i] == objects[i]);
        }
        lemma_rendered_insertion_order(dl);
        assert(objects.last() is Some);
        assert forall|i: int| 0 <= i < objects.len() implies rendered(objects)[i]
            == objects[i]->0 by {
            if i < objects.len() - 1 {
                assert(rendered(objects)[i] == rendered(dl)[i]);
                assert(dl[i] == objects[i]);
            } else {
                assert(objects.last() == objects[i]);
            }
        }
    }
}

/// Law: mutating the object in an occupied slot is visible in the next
/// rendering, which changes exactly at that slot's rendered position.
pub proof fn lemma_mutation_visible<S>(objects: Seq<Option<Shape<S>>>, i: int, s: Shape<S>)
    requires
        0 <= i < objects.len(),
        objects[i] is Some,
    ensures
        rendered(objects.update(i, Some(s))) == rendered(objects).update(
            rendered_position(objects, i),
            s,
        ),
    decreases objects.len(),
{
    let upd = objects.update(i, Some(s));
    let n = objects.len() - 1;
    let dl = objects.drop_last();
    let k = rendered_position(objects, i);
    if i == n {
        assert(upd.drop_last() =~= dl);
        assert(upd.last() == Some(s));
        assert(objects.take(i) =~= dl);
        let x = objects[n]->0;
        assert(rendered(dl).push(x).update(rendered(dl).len() as int, s) =~= rendered(dl).push(s));
    } else {
        assert(upd.drop_last() =~= dl.update(i, Some(s)));
        assert(upd.last() == objects.last());
        assert(dl[i] == objects[i]);
        lemma_mutation_visible(dl, i, s);
        assert(dl.take(i) =~= objects.take(i));
        lemma_rendered_position_in_range(dl, i);
        match objects.last() {
            Some(t) => {
                assert(rendered(dl).update(k, s).push(t) =~= rendered(dl).push(t).update(k, s));
            },
            None => {},
        }
    }
}

/// Law: removing the object of an occupied slot removes exactly that
/// slot's entry from the next rendering; every other slot renders as
/// before.
pub proof fn lemma_removal_not_rendered<S>(objects: Seq<Option<Shape<S>>>, i: int)
    requires
        0 <= i < objects.len(),
        objects[i] is Some,
    ensures
        rendered(objects.update(i, None)) == rendered(objects).remove(
            rendered_position(objects, i),
        ),
    decreases objects.len(),
{
    let upd = objects.update(i, None);
    let n = objects.len() - 1;
    let dl = objects.drop_last();
    let k = rendered_position(objects, i);
    if i == n {
        assert(upd.drop_last() =~= dl);
        assert(upd.last() is None);
        assert(objects.take(i) =~= dl);
        let x = objects[n]->0;
        assert(rendered(dl).push(x).remove(rendered(dl).len() as int) =~= rendered(dl));
    } else {
        assert(upd.drop_last() =~= dl.update(i, None));
        assert(upd.last() == objects.last());
        assert(dl[i] == objects[i]);
        lemma_removal_not_rendered(dl, i);
        assert(dl.take(i) =~= objects.take(i));
        lemma_rendered_position_in_range(dl, i);
        match objects.last() {
            Some(t) => {
                assert(rendered(dl).remove(k).push(t) =~= rendered(dl).push(t).remove(k));
            },
            None => {},
        }
    }
}

} // verus!
