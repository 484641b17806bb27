//! The dynamic results a decode call produces.

use vstd::prelude::*;

verus! {

/// A single typed scalar result.
#[derive(Debug, Clone, PartialEq, Eq)]
pub enum Leaf {
    /// A parsed boolean.
    Truth(bool),
    /// A parsed unsigned integer; its width is fixed by the requested
    /// shape, which also bounds the value.
    Unsigned(u64),
    /// A parsed signed integer; its width is fixed by the requested
    /// shape, which also bounds the value.
    Signed(i64),
    /// The string itself, for text-like and shape-agnostic requests.
    Text(String),
    /// The name of the unit variant a string resolved to.
    Chosen(String),
}

/// The mathematical model of a [`Leaf`].
pub enum LeafView {
    Truth(bool),
    Unsigned(u64),
    Signed(i64),
    Text(Seq<char>),
    Chosen(Seq<char>),
}

impl View for Leaf {
    type V = LeafView;

    open spec fn view(&self) -> LeafView {
        match self {
            Leaf::Truth(b) => LeafView::Truth(*b),
            Leaf::Unsigned(v) => LeafView::Unsigned(*v),
            Leaf::Signed(v) => LeafView::Signed(*v),
            Leaf::Text(s) => LeafView::Text(s@),
            Leaf::Chosen(s) => LeafView::Chosen(s@),
        }
    }
}

/// The decoded value of one field.
#[derive(Debug, PartialEq, Eq)]
pub enum Decoded {
    /// A scalar result.
    One(Leaf),
    /// An optional value that resolved as present.  Absence of a key is
    /// handled at the map-entry level, so an adapter only ever reports
    /// presence; the payload may still be an error upstream.
    Present(Box<Decoded>),
    /// The elements of a sequence or tuple, in source order.
    Items(Vec<Leaf>),
}

/// The mathematical model of a [`Decoded`].
pub enum DecodedView {
    One(LeafView),
    Present(Box<DecodedView>),
    Items(Seq<LeafView>),
}

/// The model of a [`Decoded`], structurally.
pub open spec fn decoded_view(d: Decoded) -> DecodedView
    decreases d,
{
    match d {
        Decoded::One(leaf) => DecodedView::One(leaf@),
        Decoded::Present(inner) => DecodedView::Present(Box::new(decoded_view(*inner))),
        Decoded::Items(items) => DecodedView::Items(items@.map_values(|l: Leaf| l@)),
    }
}

impl View for Decoded {
    type V = DecodedView;

    open spec fn view(&self) -> DecodedView {
        decoded_view(*self)
    }
}

} // verus!
