//! The vector adapter: projecting an ordered list of strings, all the
//! values under one key, into sequence-like shapes.
//!
//! For non-sequence shapes the adapter degrades to scalar behaviour on
//! the list's first element, and an empty list is an error there, never
//! a default.  List order is the multi-map's insertion order and is
//! preserved end-to-end.

use vstd::prelude::*;

use crate::decoded::Decoded;
use crate::decoded::DecodedView;
use crate::decoded::Leaf;
use crate::decoded::LeafView;
use crate::error::DecodeError;
use crate::error::ErrorView;
use crate::scalar::decode_scalar_leaf;
use crate::scalar::decode_scalar_leaf_spec;
use crate::scalar::decoded_result_view;
use crate::shape::ScalarShape;
use crate::shape::ScalarShapeView;
use crate::shape::Shape;
use crate::shape::ShapeView;

verus! {

/// The model of a sequence-elements decode result.
pub open spec fn leaves_result_view(r: Result<Vec<Leaf>, DecodeError>) -> Result<
    Seq<LeafView>,
    ErrorView,
> {
    match r {
        Ok(ls) => Ok(ls@.map_values(|l: Leaf| l@)),
        Err(e) => Err(e@),
    }
}

/// What decoding every element of `vs` independently under the element
/// shape `ss` yields: the results in list order, or the first failure.
pub open spec fn decode_elems_spec(vs: Seq<Seq<char>>, ss: ScalarShapeView) -> Result<
    Seq<LeafView>,
    ErrorView,
>
    decreases vs.len(),
{
    if vs.len() == 0 {
        Ok(Seq::empty())
    } else {
        match decode_scalar_leaf_spec(vs[0], ss) {
            Ok(l) => match decode_elems_spec(vs.skip(1), ss) {
                Ok(rest) => Ok(seq![l] + rest),
                Err(e) => Err(e),
            },
            Err(e) => Err(e),
        }
    }
}

/// What decoding `vs` positionally against the tuple element shapes
/// `sss` yields: element `i` becomes tuple field `i`; elements beyond
/// the arity are ignored; a list too short is an arity error.
pub open spec fn decode_tuple_spec(vs: Seq<Seq<char>>, sss: Seq<ScalarShapeView>) -> Result<
    Seq<LeafView>,
    ErrorView,
>
    decreases sss.len(),
{
    if sss.len() == 0 {
        Ok(Seq::empty())
    } else if vs.len() == 0 {
        Err(ErrorView::Arity)
    } else {
        match decode_scalar_leaf_spec(vs[0], sss[0]) {
            Ok(l) => match decode_tuple_spec(vs.skip(1), sss.skip(1)) {
                Ok(rest) => Ok(seq![l] + rest),
                Err(e) => Err(e),
            },
            Err(e) => Err(e),
        }
    }
}

/// What the vector adapter makes of the value list `vs` under any
/// requested shape.
pub open spec fn decode_vec_spec(vs: Seq<Seq<char>>, sh: ShapeView) -> Result<
    DecodedView,
    ErrorView,
>
    decreases sh,
{
    match sh {
        ShapeView::Scalar(ss) => if vs.len() == 0 {
            Err(ErrorView::Empty)
        } else {
            match decode_scalar_leaf_spec(vs[0], ss) {
                Ok(l) => Ok(DecodedView::One(l)),
                Err(e) => Err(e),
            }
        },
        ShapeView::List(ss) => match decode_elems_spec(vs, ss) {
            Ok(ls) => Ok(DecodedView::Items(ls)),
            Err(e) => Err(e),
        },
        ShapeView::Tuple(sss) => match decode_tuple_spec(vs, sss) {
            Ok(ls) => Ok(DecodedView::Items(ls)),
            Err(e) => Err(e),
        },
        ShapeView::Optional(inner) => match decode_vec_spec(vs, *inner) {
            Ok(d) => Ok(DecodedView::Present(Box::new(d))),
            Err(e) => Err(e),
        },
        ShapeView::Newtype(inner) => decode_vec_spec(vs, *inner),
    }
}

fn decode_elems_from(vs: &Vec<String>, ss: &ScalarShape, i: usize) -> (r: Result<
    Vec<Leaf>,
    DecodeError,
>)
    requires
        i <= vs.len(),
    ensures
        leaves_result_view(r) == decode_elems_spec(vs.deep_view().skip(i as int), ss@),
    decreases vs.len() - i,
{
    let ghost dv = vs.deep_view();
    if i == vs.len() {
        assert(dv.skip(i as int).len() == 0);
        let out: Vec<Leaf> = Vec::new();
        assert(out@.map_values(|l: Leaf| l@) =~= Seq::<LeafView>::empty());
        Ok(out)
    } else {
        assert(dv.skip(i as int)[0] == vs@[i as int]@);
        assert(dv.skip(i as int).skip(1) =~= dv.skip(i + 1));
        match decode_scalar_leaf(&vs[i], ss) {
            Ok(l) => {
                match decode_elems_from(vs, ss, i + 1) {
                    Ok(mut rest) => {
                        let ghost rest0 = rest@;
                        rest.insert(0, l);
                        proof {
                            assert(rest@.map_values(|l: Leaf| l@) =~= seq![l@] + rest0.map_values(
                                |l: Leaf| l@,
                            ));
                        }
                        Ok(rest)
                    },
                    Err(e) => Err(e),
                }
            },
            Err(e) => Err(e),
        }
    }
}

fn decode_tuple_from(vs: &Vec<String>, sss: &Vec<ScalarShape>, i: usize) -> (r: Result<
    Vec<Leaf>,
    DecodeError,
>)
    requires
        i <= vs.len(),
        i <= sss.len(),
    ensures
        leaves_result_view(r) == decode_tuple_spec(
            vs.deep_view().skip(i as int),
            sss@.map_values(|s: ScalarShape| s@).skip(i as int),
        ),
    decreases sss.len() - i,
{
    let ghost dv = vs.deep_view();
    let ghost sv = sss@.map_values(|s: ScalarShape| s@);
    if i == sss.len() {
        assert(sv.skip(i as int).len() == 0);
        let out: Vec<Leaf> = Vec::new();
        assert(out@.map_values(|l: Leaf| l@) =~= Seq::<LeafView>::empty());
        Ok(out)
    } else if i == vs.len() {
        assert(dv.skip(i as int).len() == 0);
        Err(DecodeError::Arity)
    } else {
        assert(dv.skip(i as int)[0] == vs@[i as int]@);
        assert(sv.skip(i as int)[0] == sss@[i as int]@);
        assert(dv.skip(i as int).skip(1) =~= dv.skip(i + 1));
        assert(sv.skip(i as int).skip(1) =~= sv.skip(i + 1));
        match decode_scalar_leaf(&vs[i], &sss[i]) {
            Ok(l) => {
                match decode_tuple_from(vs, sss, i + 1) {
                    Ok(mut rest) => {
                        let ghost rest0 = rest@;
                        rest.insert(0, l);
                        proof {
                            assert(rest@.map_values(|l: Leaf| l@) =~= seq![l@] + rest0.map_values(
                                |l: Leaf| l@,
                            ));
                        }
                        Ok(rest)
                    },
                    Err(e) => Err(e),
                }
            },
            Err(e) => Err(e),
        }
    }
}

/// Projects an ordered list of strings into any requested shape: the
/// vector adapter's whole behaviour.
pub fn decode_vec(vs: &Vec<String>, sh: &Shape) -> (r: Result<Decoded, DecodeError>)
    ensures
        decoded_result_view(r) == decode_vec_spec(vs.deep_view(), sh@),
    decreases *sh,
{
    let ghost dv = vs.deep_view();
    match sh {
        Shape::Scalar(ss) => {
            if vs.len() == 0 {
                Err(DecodeError::Empty)
            } else {
                assert(dv[0] == vs@[0]@);
                match decode_scalar_leaf(&vs[0], ss) {
                    Ok(l) => Ok(Decoded::One(l)),
                    Err(e) => Err(e),
                }
            }
        },
        Shape::List(ss) => {
            let r = decode_elems_from(vs, ss, 0);
            assert(dv.skip(0) =~= dv);
            match r {
                Ok(ls) => Ok(Decoded::Items(ls)),
                Err(e) => Err(e),
            }
        },
        Shape::Tuple(sss) => {
            let r = decode_tuple_from(vs, sss, 0);
            proof {
                assert(dv.skip(0) =~= dv);
                assert(sss@.map_values(|s: ScalarShape| s@).skip(0) =~= sss@.map_values(
                    |s: ScalarShape| s@,
                ));
            }
            match r {
                Ok(ls) => Ok(Decoded::Items(ls)),
                Err(e) => Err(e),
            }
        },
        Shape::Optional(inner) => match decode_vec(vs, inner) {
            Ok(d) => Ok(Decoded::Present(Box::new(d))),
            Err(e) => Err(e),
        },
        Shape::Newtype(inner) => decode_vec(vs, inner),
    }
}

/// Sequence order preservation: when a list decode succeeds, it yields
/// exactly one leaf per source string, and the leaf at position `i` is
/// the scalar decode of the source string at position `i`.
pub proof fn lemma_list_order_preserved(vs: Seq<Seq<char>>, ss: ScalarShapeView, ls: Seq<LeafView>)
    requires
        decode_elems_spec(vs, ss) == Ok::<Seq<LeafView>, ErrorView>(ls),
    ensures
        ls.len() == vs.len(),
        forall|i: int|
            0 <= i < vs.len() ==> decode_scalar_leaf_spec(vs[i], ss) == Ok::<LeafView, ErrorView>(
                ls[i],
            ),
    decreases vs.len(),
{
    if vs.len() > 0 {
        let l0 = decode_scalar_leaf_spec(vs[0], ss)->Ok_0;
        let rest = decode_elems_spec(vs.skip(1), ss)->Ok_0;
        lemma_list_order_preserved(vs.skip(1), ss, rest);
        assert forall|i: int| 0 <= i < vs.len() implies decode_scalar_leaf_spec(vs[i], ss)
            == Ok::<LeafView, ErrorView>(ls[i]) by {
            if i > 0 {
                assert(vs.skip(1)[i - 1] == vs[i]);
                assert(ls[i] == rest[i - 1]);
            }
        }
    }
}

/// Tuple order preservation: when a tuple decode succeeds, it yields
/// exactly one leaf per declared position, and the leaf at position `i`
/// is the scalar decode of the source string at position `i` under the
/// shape at position `i`.
pub proof fn lemma_tuple_order_preserved(
    vs: Seq<Seq<char>>,
    sss: Seq<ScalarShapeView>,
    ls: Seq<LeafView>,
)
    requires
        decode_tuple_spec(vs, sss) == Ok::<Seq<LeafView>, ErrorView>(ls),
    ensures
        ls.len() == sss.len(),
        vs.len() >= sss.len(),
        forall|i: int|
            0 <= i < sss.len() ==> decode_scalar_leaf_spec(vs[i], sss[i]) == Ok::<
                LeafView,
                ErrorView,
            >(ls[i]),
    decreases sss.len(),
{
    if sss.len() > 0 {
        let rest = decode_tuple_spec(vs.skip(1), sss.skip(1))->Ok_0;
        lemma_tuple_order_preserved(vs.skip(1), sss.skip(1), rest);
        assert forall|i: int| 0 <= i < sss.len() implies decode_scalar_leaf_spec(vs[i], sss[i])
            == Ok::<LeafView, ErrorView>(ls[i]) by {
            if i > 0 {
                assert(vs.skip(1)[i - 1] == vs[i]);
                assert(sss.skip(1)[i - 1] == sss[i]);
                assert(ls[i] == rest[i - 1]);
            }
        }
    }
}

/// An empty value list consulted under any scalar-shaped target is an
/// empty-list error, never a default.
pub proof fn lemma_empty_list_scalar(ss: ScalarShapeView)
    ensures
        decode_vec_spec(Seq::<Seq<char>>::empty(), ShapeView::Scalar(ss)) == Err::<
            DecodedView,
            ErrorView,
        >(ErrorView::Empty),
{
}

} // verus!
