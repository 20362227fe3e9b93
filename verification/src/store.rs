use vstd::prelude::*;

use crate::shapes::{Draw, Shape, ShapeKind};

verus! {

/// Why an access through a handle was refused.
#[derive(Clone, Copy, PartialEq, Eq, Structural, Debug)]
pub enum AccessError {
    /// The handle was issued by a store with a different identity.
    IdentityMismatch,
    /// The handle refers to a slot that is empty: never populated, or
    /// already removed.
    SlotEmpty,
    /// The slot's occupant has a different type tag than the handle claims.
    TypeMismatch,
}

/// An opaque handle to one object in one `Canvas`: the identity of the
/// issuing store, the slot index, and the type tag of the object it was
/// issued for.
#[derive(Clone, Copy, Debug)]
pub struct ObjectID {
    canvas_id: u128,
    id: usize,
    kind: ShapeKind,
}

impl ObjectID {
    /// The identity of the store that issued this handle.
    pub closed spec fn canvas_id(self) -> u128 {
        self.canvas_id
    }

    /// The slot index this handle refers to.
    pub closed spec fn slot(self) -> int {
        self.id as int
    }

    /// The type tag this handle claims for the slot's occupant.
    pub closed spec fn kind(self) -> ShapeKind {
        self.kind
    }

    /// The slot index this handle refers to.
    pub fn index(&self) -> (i: usize)
        ensures
            i == self.slot(),
    {
        self.id
    }
}

/// A store of drawable objects. Objects are appended to a sequence of
/// slots; removal leaves a permanently empty slot behind, so a slot index
/// is never reused. Every access goes through an `ObjectID` handle and is
/// checked against the store's identity, the slot's occupancy, and the
/// occupant's type tag.
pub struct Canvas<S> {
    id: u128,
    objects: Vec<Option<Shape<S>>>,
}

/// Relies on `uuid::Uuid::new_v4`: a freshly generated random (version 4)
/// UUID, handed back through `Uuid::as_u128` as its 128-bit value. The
/// value is random, so nothing is promised of it.
#[verifier::external_body]
fn fresh_identity() -> u128 {
    uuid::Uuid::new_v4().as_u128()
}

impl<S> Canvas<S> {
    /// The identity this store was constructed with.
    pub closed spec fn id(self) -> u128 {
        self.id
    }

    /// The slot sequence: one entry per slot ever created, empty slots
    /// marked `None`.
    pub closed spec fn objects(self) -> Seq<Option<Shape<S>>> {
        self.objects@
    }

    /// Whether an access through `object` is refused, and why. The checks
    /// are made in this order: the store identity first, then the slot's
    /// occupancy, then the occupant's type tag.
    pub open spec fn access_error(self, object: ObjectID) -> Option<AccessError> {
        if object.canvas_id() != self.id() {
            Some(AccessError::IdentityMismatch)
        } else if !(0 <= object.slot() < self.objects().len())
            || self.objects()[object.slot()] is None {
            Some(AccessError::SlotEmpty)
        } else if self.objects()[object.slot()]->0.kind() != object.kind() {
            Some(AccessError::TypeMismatch)
        } else {
            None
        }
    }

    /// A new store with a freshly generated identity and no slots.
    pub fn new() -> (c: Self)
        ensures
            c.objects() == Seq::<Option<Shape<S>>>::empty(),
    {
        Canvas { id: fresh_identity(), objects: Vec::new() }
    }

    /// Append `object` to a new slot and hand back a handle to it: this
    /// store's identity, the new slot's index, and the object's type tag.
    /// The store takes ownership; earlier slots are untouched.
    pub fn add<T: Draw<S>>(&mut self, object: T) -> (r: ObjectID)
        ensures
            final(self).id() == old(self).id(),
            final(self).objects() == old(self).objects().push(Some(object.shape())),
            r.canvas_id() == old(self).id(),
            r.slot() == old(self).objects().len(),
            r.kind() == object.shape().kind(),
    {
        let shape = object.draw();
        let kind = shape.kind_of();
        let id = self.objects.len();
        self.objects.push(Some(shape));
        ObjectID { canvas_id: self.id, id, kind }
    }

    /// A reference to the object `object` refers to, or the reason the
    /// access is refused. The store is not changed.
    pub fn get_ref(&self, object: &ObjectID) -> (r: Result<&Shape<S>, AccessError>)
        ensures
            match r {
                Ok(s) => self.access_error(*object) is None
                    && self.objects()[object.slot()] == Some(*s),
                Err(e) => self.access_error(*object) == Some(e),
            },
    {
        if object.canvas_id != self.id {
            return Err(AccessError::IdentityMismatch);
        }
        if object.id >= self.objects.len() {
            return Err(AccessError::SlotEmpty);
        }
        match &self.objects[object.id] {
            None => Err(AccessError::SlotEmpty),
            Some(s) => {
                if s.kind_of() != object.kind {
                    Err(AccessError::TypeMismatch)
                } else {
                    Ok(s)
                }
            },
        }
    }

    /// Exclusive mutable access to the object `object` refers to, or the
    /// reason the access is refused. On refusal the store is unchanged; on
    /// success the caller may mutate the object through the returned
    /// reference, and only that slot changes.
    pub fn get_mut(&mut self, object: &ObjectID) -> (r: Result<&mut Shape<S>, AccessError>)
        ensures
            match r {
                Ok(m) => old(self).access_error(*object) is None
                    && old(self).objects()[object.slot()] == Some(*m)
                    && final(self).id() == old(self).id()
                    && final(self).objects() == old(self).objects().update(
                    object.slot(),
                    Some(*final(m)),
                ),
                Err(e) => old(self).access_error(*object) == Some(e)
                    && final(self).id() == old(self).id()
                    && final(self).objects() == old(self).objects(),
            },
    {
        if object.canvas_id != self.id {
            return Err(AccessError::IdentityMismatch);
        }
        if object.id >= self.objects.len() {
            return Err(AccessError::SlotEmpty);
        }
        match &mut self.objects[object.id] {
            None => Err(AccessError::SlotEmpty),
            Some(s) => {
                if s.kind_of() != object.kind {
                    Err(AccessError::TypeMismatch)
                } else {
                    Ok(s)
                }
            },
        }
    }

    /// Take the object `object` refers to out of the store and hand it
    /// back by value, or give the reason the access is refused. On success
    /// the slot is marked empty and stays empty forever: slot indices are
    /// never reused. On refusal the store is unchanged.
    pub fn remove(&mut self, object: ObjectID) -> (r: Result<Shape<S>, AccessError>)
        where S: Copy
        ensures
            final(self).id() == old(self).id(),
            match r {
                Ok(s) => old(self).access_error(object) is None
                    && old(self).objects()[object.slot()] == Some(s)
                    && final(self).objects() == old(self).objects().update(object.slot(), None),
                Err(e) => old(self).access_error(object) == Some(e)
                    && final(self).objects() == old(self).objects(),
            },
    {
        if object.canvas_id != self.id {
            return Err(AccessError::IdentityMismatch);
        }
        if object.id >= self.objects.len() {
            return Err(AccessError::SlotEmpty);
        }
        let current: Option<Shape<S>> = self.objects[object.id];
        match current {
            None => Err(AccessError::SlotEmpty),
            Some(s) => {
                if s.kind_of() != object.kind {
                    Err(AccessError::TypeMismatch)
                } else {
                    self.objects[object.id] = None;
                    proof {
                        assert(final(self).objects()
                            =~= old(self).objects().update(object.slot(), None));
                    }
                    Ok(s)
                }
            },
        }
    }
}

impl<S> Default for Canvas<S> {
    /// A new store with a freshly generated identity and no slots.
    fn default() -> (c: Self)
        ensures
            c.objects() == Seq::<Option<Shape<S>>>::empty(),
    {
        Canvas::new()
    }
}

/// The rendering of a slot sequence: the objects of the occupied slots, in
/// slot order, with empty slots skipped.
pub open spec fn rendered<S>(objects: Seq<Option<Shape<S>>>) -> Seq<Shape<S>>
    decreases objects.len(),
{
    if objects.len() == 0 {
        Seq::empty()
    } else {
        match objects.last() {
            Some(s) => rendered(objects.drop_last()).push(s),
            None => rendered(objects.drop_last()),
        }
    }
}

/// The position at which the object in slot `i` appears in the rendering
/// of `objects`: the number of occupied slots before slot `i`.
pub open spec fn rendered_position<S>(objects: Seq<Option<Shape<S>>>, i: int) -> int {
    rendered(objects.take(i)).len() as int
}

impl<S: Copy> Canvas<S> {
    /// Render every occupied slot, in slot order: the representation of
    /// each occupied object, with empty (removed) slots skipped. The store
    /// is not changed.
    pub fn draw_all(&self) -> (r: Vec<Shape<S>>)
        ensures
            r@ == rendered(self.objects()),
    {
        let mut out: Vec<Shape<S>> = Vec::new();
        let mut i: usize = 0;
        while i < self.objects.len()
            invariant
                i <= self.objects@.len(),
                out@ == rendered(self.objects@.take(i as int)),
            decreases self.objects@.len() - i,
        {
            match &self.objects[i] {
                Some(object) => {
                    let s = object.draw();
                    out.push(s);
                },
                None => {},
            }
            proof {
                assert(self.objects@.take(i + 1).drop_last() =~= self.objects@.take(i as int));
            }
            i += 1;
        }
        proof {
            assert(self.objects@.take(self.objects@.len() as int) =~= self.objects@);
        }
        out
    }
}

} // verus!
