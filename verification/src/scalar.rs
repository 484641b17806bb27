//! The scalar adapter: projecting one string into a requested shape.
//!
//! A scalar adapter exists only for a key that is present in the source,
//! so an option shape always resolves as present; absence is handled one
//! level up, at the map-entry level.  Shapes that need nested containers
//! cannot be satisfied by a single string and are rejected.

use vstd::prelude::*;

use crate::decoded::Decoded;
use crate::decoded::DecodedView;
use crate::decoded::Leaf;
use crate::decoded::LeafView;
use crate::error::DecodeError;
use crate::error::ErrorView;
use crate::parse::all_dec_digits;
use crate::parse::parse_signed;
use crate::parse::parse_unsigned;
use crate::parse::signed_body;
use crate::parse::signed_val;
use crate::parse::str_eq;
use crate::parse::unsigned_body;
use crate::parse::unsigned_val;
use crate::parse::valid_signed;
use crate::parse::valid_unsigned;
use crate::shape::ScalarShape;
use crate::shape::ScalarShapeView;
use crate::shape::Shape;
use crate::shape::ShapeView;
use crate::shape::VariantDecl;
use crate::shape::VariantDeclView;

verus! {

/// The model of a scalar decode result.
pub open spec fn leaf_result_view(r: Result<Leaf, DecodeError>) -> Result<LeafView, ErrorView> {
    match r {
        Ok(l) => Ok(l@),
        Err(e) => Err(e@),
    }
}

/// The model of a full decode result.
pub open spec fn decoded_result_view(r: Result<Decoded, DecodeError>) -> Result<
    DecodedView,
    ErrorView,
> {
    match r {
        Ok(d) => Ok(d@),
        Err(e) => Err(e@),
    }
}

/// What an unsigned numeric shape with bound `max` makes of the text `s`.
pub open spec fn unsigned_case(s: Seq<char>, max: u64) -> Result<LeafView, ErrorView> {
    if valid_unsigned(s, max) {
        Ok(LeafView::Unsigned(unsigned_val(s) as u64))
    } else {
        Err(ErrorView::Parse)
    }
}

/// What a signed numeric shape with magnitude bounds `neg_max` and
/// `pos_max` makes of the text `s`.
pub open spec fn signed_case(s: Seq<char>, neg_max: u64, pos_max: u64) -> Result<
    LeafView,
    ErrorView,
> {
    if valid_signed(s, neg_max, pos_max) {
        Ok(LeafView::Signed(signed_val(s) as i64))
    } else {
        Err(ErrorView::Parse)
    }
}

/// What matching the text `s` against declared enum variants yields: the
/// first variant whose name equals `s`, provided it is a unit variant.
/// A payload-carrying match is unsupported; no match is a parse failure.
pub open spec fn resolve_variant_spec(s: Seq<char>, vars: Seq<VariantDeclView>) -> Result<
    LeafView,
    ErrorView,
>
    decreases vars.len(),
{
    if vars.len() == 0 {
        Err(ErrorView::Parse)
    } else if vars[0].name == s {
        if vars[0].takes_payload {
            Err(ErrorView::Unsupported)
        } else {
            Ok(LeafView::Chosen(s))
        }
    } else {
        resolve_variant_spec(s, vars.skip(1))
    }
}

/// What the scalar adapter makes of the text `s` under a scalar shape.
pub open spec fn decode_scalar_leaf_spec(s: Seq<char>, sh: ScalarShapeView) -> Result<
    LeafView,
    ErrorView,
> {
    match sh {
        ScalarShapeView::Truth => if s == "true"@ {
            Ok(LeafView::Truth(true))
        } else if s == "false"@ {
            Ok(LeafView::Truth(false))
        } else {
            Err(ErrorView::Parse)
        },
        ScalarShapeView::U8 => unsigned_case(s, 255),
        ScalarShapeView::U16 => unsigned_case(s, 65535),
        ScalarShapeView::U32 => unsigned_case(s, 4294967295),
        ScalarShapeView::U64 => unsigned_case(s, 18446744073709551615),
        ScalarShapeView::I8 => signed_case(s, 128, 127),
        ScalarShapeView::I16 => signed_case(s, 32768, 32767),
        ScalarShapeView::I32 => signed_case(s, 2147483648, 2147483647),
        ScalarShapeView::I64 => signed_case(s, 9223372036854775808, 9223372036854775807),
        ScalarShapeView::Text => Ok(LeafView::Text(s)),
        ScalarShapeView::Ident => Ok(LeafView::Text(s)),
        ScalarShapeView::Agnostic => Ok(LeafView::Text(s)),
        ScalarShapeView::UnitEnum(vars) => resolve_variant_spec(s, vars),
    }
}

/// What the scalar adapter makes of the text `s` under any requested
/// shape.  Option resolves as present around the inner decode; a newtype
/// forwards transparently; container shapes are rejected.
pub open spec fn decode_scalar_spec(s: Seq<char>, sh: ShapeView) -> Result<DecodedView, ErrorView>
    decreases sh,
{
    match sh {
        ShapeView::Scalar(ss) => match decode_scalar_leaf_spec(s, ss) {
            Ok(l) => Ok(DecodedView::One(l)),
            Err(e) => Err(e),
        },
        ShapeView::List(_) => Err(ErrorView::Unsupported),
        ShapeView::Tuple(_) => Err(ErrorView::Unsupported),
        ShapeView::Optional(inner) => match decode_scalar_spec(s, *inner) {
            Ok(d) => Ok(DecodedView::Present(Box::new(d))),
            Err(e) => Err(e),
        },
        ShapeView::Newtype(inner) => decode_scalar_spec(s, *inner),
    }
}

/// Parse failure for unsigned shapes: text that is not a decimal
/// numeral after its optional `+` sign yields a parse error, never a
/// default or a silent zero.
pub proof fn lemma_unsigned_non_numeric(s: Seq<char>, max: u64)
    requires
        !(unsigned_body(s).len() > 0 && all_dec_digits(unsigned_body(s))),
    ensures
        unsigned_case(s, max) == Err::<LeafView, ErrorView>(ErrorView::Parse),
{
}

/// Parse failure for signed shapes: text that is not a decimal numeral
/// after its optional sign yields a parse error, never a default or a
/// silent zero.
pub proof fn lemma_signed_non_numeric(s: Seq<char>, neg_max: u64, pos_max: u64)
    requires
        !(signed_body(s).len() > 0 && all_dec_digits(signed_body(s))),
    ensures
        signed_case(s, neg_max, pos_max) == Err::<LeafView, ErrorView>(ErrorView::Parse),
{
}

/// Unit-variant acceptance and rejection: a string equal to a declared
/// variant's name resolves to that variant when it is a unit variant,
/// and is unsupported when the variant carries payload data — never a
/// silently defaulted payload.
pub proof fn lemma_variant_match(s: Seq<char>, vars: Seq<VariantDeclView>, i: int)
    requires
        0 <= i < vars.len(),
        vars[i].name == s,
        forall|j: int| 0 <= j < i ==> (#[trigger] vars[j]).name != s,
    ensures
        resolve_variant_spec(s, vars) == if vars[i].takes_payload {
            Err::<LeafView, ErrorView>(ErrorView::Unsupported)
        } else {
            Ok::<LeafView, ErrorView>(LeafView::Chosen(s))
        },
    decreases i,
{
    if i > 0 {
        assert(vars[0].name != s);
        assert forall|j: int| 0 <= j < i - 1 implies (#[trigger] vars.skip(1)[j]).name != s by {
            assert(vars.skip(1)[j] == vars[j + 1]);
        }
        assert(vars.skip(1)[i - 1] == vars[i]);
        lemma_variant_match(s, vars.skip(1), i - 1);
    }
}

/// A string that names no declared variant is a parse failure.
pub proof fn lemma_variant_no_match(s: Seq<char>, vars: Seq<VariantDeclView>)
    requires
        forall|j: int| 0 <= j < vars.len() ==> (#[trigger] vars[j]).name != s,
    ensures
        resolve_variant_spec(s, vars) == Err::<LeafView, ErrorView>(ErrorView::Parse),
    decreases vars.len(),
{
    if vars.len() > 0 {
        assert forall|j: int| 0 <= j < vars.skip(1).len() implies (#[trigger] vars.skip(
            1,
        )[j]).name != s by {
            assert(vars.skip(1)[j] == vars[j + 1]);
        }
        lemma_variant_no_match(s, vars.skip(1));
    }
}

fn dec_unsigned(v: &String, max: u64) -> (r: Result<Leaf, DecodeError>)
    ensures
        leaf_result_view(r) == unsigned_case(v@, max),
{
    match parse_unsigned(v.as_str(), max) {
        Some(x) => Ok(Leaf::Unsigned(x)),
        None => Err(DecodeError::Parse(v.clone())),
    }
}

fn dec_signed(v: &String, neg_max: u64, pos_max: u64) -> (r: Result<Leaf, DecodeError>)
    requires
        neg_max <= 0x8000000000000000,
        pos_max <= 0x7fffffffffffffff,
    ensures
        leaf_result_view(r) == signed_case(v@, neg_max, pos_max),
{
    match parse_signed(v.as_str(), neg_max, pos_max) {
        Some(x) => Ok(Leaf::Signed(x)),
        None => Err(DecodeError::Parse(v.clone())),
    }
}

fn resolve_variant_from(v: &String, vars: &Vec<VariantDecl>, i: usize) -> (r: Result<
    Leaf,
    DecodeError,
>)
    requires
        i <= vars.len(),
    ensures
        leaf_result_view(r) == resolve_variant_spec(
            v@,
            vars@.map_values(|vd: VariantDecl| vd@).skip(i as int),
        ),
    decreases vars.len() - i,
{
    let ghost vv = vars@.map_values(|vd: VariantDecl| vd@);
    if i == vars.len() {
        assert(vv.skip(i as int).len() == 0);
        Err(DecodeError::Parse(v.clone()))
    } else {
        assert(vv.skip(i as int)[0] == vars@[i as int]@);
        if str_eq(v.as_str(), vars[i].name.as_str()) {
            if vars[i].takes_payload {
                Err(DecodeError::Unsupported)
            } else {
                Ok(Leaf::Chosen(v.clone()))
            }
        } else {
            let r = resolve_variant_from(v, vars, i + 1);
            assert(vv.skip(i as int).skip(1) =~= vv.skip(i + 1));
            r
        }
    }
}

/// Matches the text against the enum's declared variant names, in
/// declaration order, and yields the matched unit variant.
pub fn resolve_variant(v: &String, vars: &Vec<VariantDecl>) -> (r: Result<Leaf, DecodeError>)
    ensures
        leaf_result_view(r) == resolve_variant_spec(v@, vars@.map_values(|vd: VariantDecl| vd@)),
{
    let r = resolve_variant_from(v, vars, 0);
    assert(vars@.map_values(|vd: VariantDecl| vd@).skip(0) =~= vars@.map_values(
        |vd: VariantDecl| vd@,
    ));
    r
}

/// Projects one string into a requested scalar shape.
pub fn decode_scalar_leaf(v: &String, sh: &ScalarShape) -> (r: Result<Leaf, DecodeError>)
    ensures
        leaf_result_view(r) == decode_scalar_leaf_spec(v@, sh@),
{
    match sh {
        ScalarShape::Truth => {
            if str_eq(v.as_str(), "true") {
                Ok(Leaf::Truth(true))
            } else if str_eq(v.as_str(), "false") {
                Ok(Leaf::Truth(false))
            } else {
                Err(DecodeError::Parse(v.clone()))
            }
        },
        ScalarShape::U8 => dec_unsigned(v, 255),
        ScalarShape::U16 => dec_unsigned(v, 65535),
        ScalarShape::U32 => dec_unsigned(v, 4294967295),
        ScalarShape::U64 => dec_unsigned(v, 18446744073709551615),
        ScalarShape::I8 => dec_signed(v, 128, 127),
        ScalarShape::I16 => dec_signed(v, 32768, 32767),
        ScalarShape::I32 => dec_signed(v, 2147483648, 2147483647),
        ScalarShape::I64 => dec_signed(v, 9223372036854775808, 9223372036854775807),
        ScalarShape::Text => Ok(Leaf::Text(v.clone())),
        ScalarShape::Ident => Ok(Leaf::Text(v.clone())),
        ScalarShape::Agnostic => Ok(Leaf::Text(v.clone())),
        ScalarShape::UnitEnum(vars) => resolve_variant(v, vars),
    }
}

/// Projects one string into any requested shape: the scalar adapter's
/// whole behaviour, including option, newtype and the rejection of
/// container shapes.
pub fn decode_scalar(v: &String, sh: &Shape) -> (r: Result<Decoded, DecodeError>)
    ensures
        decoded_result_view(r) == decode_scalar_spec(v@, sh@),
    decreases *sh,
{
    match sh {
        Shape::Scalar(ss) => match decode_scalar_leaf(v, ss) {
            Ok(l) => Ok(Decoded::One(l)),
            Err(e) => Err(e),
        },
        Shape::List(_) => Err(DecodeError::Unsupported),
        Shape::Tuple(_) => Err(DecodeError::Unsupported),
        Shape::Optional(inner) => match decode_scalar(v, inner) {
            Ok(d) => Ok(Decoded::Present(Box::new(d))),
            Err(e) => Err(e),
        },
        Shape::Newtype(inner) => decode_scalar(v, inner),
    }
}

} // verus!
