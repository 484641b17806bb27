//! The shapes a decode call site can request, and field schemas.
//!
//! A shape descriptor names what structural kind the target expects at a
//! given point.  Scalar shapes are satisfiable by a single string; the
//! composite shapes (list, tuple, option, newtype) describe how strings
//! are assembled around them.

use vstd::prelude::*;

verus! {

/// One declared variant of a unit-only enum target.
#[derive(Debug, Clone)]
pub struct VariantDecl {
    /// The variant's name, matched against source strings.
    pub name: String,
    /// Whether the variant carries associated payload data (a newtype,
    /// tuple or struct variant).  Flat string data cannot express such a
    /// payload, so matching one of these is an error.
    pub takes_payload: bool,
}

/// The mathematical model of a [`VariantDecl`].
pub struct VariantDeclView {
    pub name: Seq<char>,
    pub takes_payload: bool,
}

impl View for VariantDecl {
    type V = VariantDeclView;

    open spec fn view(&self) -> VariantDeclView {
        VariantDeclView { name: self.name@, takes_payload: self.takes_payload }
    }
}

/// A shape satisfiable by one string value.
#[derive(Debug, Clone)]
pub enum ScalarShape {
    /// A boolean, written `true` or `false`.
    Truth,
    U8,
    U16,
    U32,
    U64,
    I8,
    I16,
    I32,
    I64,
    /// Plain text: the string itself is the value.
    Text,
    /// An identifier; treated as plain text.
    Ident,
    /// Shape-agnostic: the string itself is the value.
    Agnostic,
    /// A unit-only enum with the given declared variants.
    UnitEnum(Vec<VariantDecl>),
}

/// The mathematical model of a [`ScalarShape`].
pub enum ScalarShapeView {
    Truth,
    U8,
    U16,
    U32,
    U64,
    I8,
    I16,
    I32,
    I64,
    Text,
    Ident,
    Agnostic,
    UnitEnum(Seq<VariantDeclView>),
}

impl View for ScalarShape {
    type V = ScalarShapeView;

    open spec fn view(&self) -> ScalarShapeView {
        match self {
            ScalarShape::Truth => ScalarShapeView::Truth,
            ScalarShape::U8 => ScalarShapeView::U8,
            ScalarShape::U16 => ScalarShapeView::U16,
            ScalarShape::U32 => ScalarShapeView::U32,
            ScalarShape::U64 => ScalarShapeView::U64,
            ScalarShape::I8 => ScalarShapeView::I8,
            ScalarShape::I16 => ScalarShapeView::I16,
            ScalarShape::I32 => ScalarShapeView::I32,
            ScalarShape::I64 => ScalarShapeView::I64,
            ScalarShape::Text => ScalarShapeView::Text,
            ScalarShape::Ident => ScalarShapeView::Ident,
            ScalarShape::Agnostic => ScalarShapeView::Agnostic,
            ScalarShape::UnitEnum(vars) => ScalarShapeView::UnitEnum(
                vars@.map_values(|v: VariantDecl| v@),
            ),
        }
    }
}

/// A requested shape for one field of the target.
#[derive(Debug)]
pub enum Shape {
    /// A single scalar.
    Scalar(ScalarShape),
    /// An unbounded sequence whose elements all have one scalar shape.
    List(ScalarShape),
    /// A tuple of fixed arity; element `i` has shape `shapes[i]`.
    Tuple(Vec<ScalarShape>),
    /// An optional value of the inner shape.
    Optional(Box<Shape>),
    /// A transparent wrapper around the inner shape.
    Newtype(Box<Shape>),
}

/// The mathematical model of a [`Shape`].
pub enum ShapeView {
    Scalar(ScalarShapeView),
    List(ScalarShapeView),
    Tuple(Seq<ScalarShapeView>),
    Optional(Box<ShapeView>),
    Newtype(Box<ShapeView>),
}

/// The model of a [`Shape`], structurally.
pub open spec fn shape_view(s: Shape) -> ShapeView
    decreases s,
{
    match s {
        Shape::Scalar(ss) => ShapeView::Scalar(ss@),
        Shape::List(ss) => ShapeView::List(ss@),
        Shape::Tuple(ssv) => ShapeView::Tuple(ssv@.map_values(|ss: ScalarShape| ss@)),
        Shape::Optional(inner) => ShapeView::Optional(Box::new(shape_view(*inner))),
        Shape::Newtype(inner) => ShapeView::Newtype(Box::new(shape_view(*inner))),
    }
}

impl View for Shape {
    type V = ShapeView;

    open spec fn view(&self) -> ShapeView {
        shape_view(*self)
    }
}

/// One declared field of the target: a key to look up, and the shape its
/// value is decoded into.
#[derive(Debug)]
pub struct Field {
    pub name: String,
    pub shape: Shape,
}

/// The mathematical model of a [`Field`].
pub struct FieldView {
    pub name: Seq<char>,
    pub shape: ShapeView,
}

impl View for Field {
    type V = FieldView;

    open spec fn view(&self) -> FieldView {
        FieldView { name: self.name@, shape: self.shape@ }
    }
}

} // verus!
