use vstd::prelude::*;

verus! {

/// The runtime type tag of a drawable object: which variant a slot holds,
/// and which variant a handle claims to refer to.
#[derive(Clone, Copy, PartialEq, Eq, Structural, Debug)]
pub enum ShapeKind {
    Triangle,
    Sqaure,
}

/// A triangle with one scalar dimension.
#[derive(Clone, Copy, PartialEq, Debug)]
pub struct Triangle<S> {
    pub size: S,
}

/// A square with a width and a height.
#[derive(Clone, Copy, PartialEq, Debug)]
pub struct Sqaure<S> {
    pub w: S,
    pub h: S,
}

/// The closed set of drawable variants a `Canvas` can hold, tagged by
/// `ShapeKind`. The scalar type `S` of the dimensions is chosen by the
/// caller.
#[derive(Clone, Copy, PartialEq, Debug)]
pub enum Shape<S> {
    Triangle(Triangle<S>),
    Sqaure(Sqaure<S>),
}

impl<S> Shape<S> {
    /// The type tag of this shape.
    pub open spec fn kind(self) -> ShapeKind {
        match self {
            Shape::Triangle(_) => ShapeKind::Triangle,
            Shape::Sqaure(_) => ShapeKind::Sqaure,
        }
    }

    /// Compute the type tag of this shape.
    pub fn kind_of(&self) -> (k: ShapeKind)
        ensures
            k == self.kind(),
    {
        match self {
            Shape::Triangle(_) => ShapeKind::Triangle,
            Shape::Sqaure(_) => ShapeKind::Sqaure,
        }
    }
}

/// The drawable capability: an object that can render its representation,
/// a `Shape` value describing what is to be drawn.
pub trait Draw<S>: Sized {
    /// The representation this object renders as.
    spec fn shape(self) -> Shape<S>;

    /// Render this object: produce its drawable representation.
    fn draw(&self) -> (r: Shape<S>)
        ensures
            r == self.shape(),
    ;
}

impl<S: Copy> Draw<S> for Triangle<S> {
    open spec fn shape(self) -> Shape<S> {
        Shape::Triangle(self)
    }

    fn draw(&self) -> (r: Shape<S>) {
        Shape::Triangle(*self)
    }
}

impl<S: Copy> Draw<S> for Sqaure<S> {
    open spec fn shape(self) -> Shape<S> {
        Shape::Sqaure(self)
    }

    fn draw(&self) -> (r: Shape<S>) {
        Shape::Sqaure(*self)
    }
}

impl<S: Copy> Draw<S> for Shape<S> {
    open spec fn shape(self) -> Shape<S> {
        self
    }

    fn draw(&self) -> (r: Shape<S>) {
        *self
    }
}

} // verus!
