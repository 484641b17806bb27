use strmap_decode::decoded::Decoded;
use strmap_decode::decoded::Leaf;
use strmap_decode::error::DecodeError;
use strmap_decode::parse::parse_signed;
use strmap_decode::parse::parse_unsigned;
use strmap_decode::scalar::decode_scalar;
use strmap_decode::shape::ScalarShape;
use strmap_decode::shape::Shape;
use strmap_decode::shape::VariantDecl;
use strmap_decode::vector::decode_vec;

#[test]
fn unsigned_parsing_bounds() {
    assert_eq!(parse_unsigned("255", 255), Some(255));
    assert_eq!(parse_unsigned("256", 255), None);
    assert_eq!(parse_unsigned("+10", 255), Some(10));
    assert_eq!(parse_unsigned("-1", 255), None);
    assert_eq!(parse_unsigned("", 255), None);
    assert_eq!(parse_unsigned("+", 255), None);
    assert_eq!(parse_unsigned("007", 255), Some(7));
    assert_eq!(parse_unsigned("1 0", 255), None);
    assert_eq!(parse_unsigned("18446744073709551615", u64::MAX), Some(u64::MAX));
    assert_eq!(parse_unsigned("18446744073709551616", u64::MAX), None);
}

#[test]
fn signed_parsing_bounds() {
    assert_eq!(parse_signed("-128", 128, 127), Some(-128));
    assert_eq!(parse_signed("-129", 128, 127), None);
    assert_eq!(parse_signed("127", 128, 127), Some(127));
    assert_eq!(parse_signed("128", 128, 127), None);
    assert_eq!(parse_signed("+5", 128, 127), Some(5));
    assert_eq!(parse_signed("-", 128, 127), None);
    assert_eq!(
        parse_signed("-9223372036854775808", 9223372036854775808, i64::MAX as u64),
        Some(i64::MIN)
    );
    assert_eq!(
        parse_signed("9223372036854775807", 9223372036854775808, i64::MAX as u64),
        Some(i64::MAX)
    );
    assert_eq!(parse_signed("-9223372036854775809", 9223372036854775808, i64::MAX as u64), None);
}

#[test]
fn scalar_boolean_shapes() {
    let sh = Shape::Scalar(ScalarShape::Truth);
    assert_eq!(decode_scalar(&"true".to_string(), &sh), Ok(Decoded::One(Leaf::Truth(true))));
    assert_eq!(decode_scalar(&"false".to_string(), &sh), Ok(Decoded::One(Leaf::Truth(false))));
    assert_eq!(
        decode_scalar(&"TRUE".to_string(), &sh),
        Err(DecodeError::Parse("TRUE".to_string()))
    );
}

#[test]
fn scalar_option_and_newtype_are_transparent() {
    let sh = Shape::Optional(Box::new(Shape::Newtype(Box::new(Shape::Scalar(ScalarShape::U16)))));
    assert_eq!(
        decode_scalar(&"9000".to_string(), &sh),
        Ok(Decoded::Present(Box::new(Decoded::One(Leaf::Unsigned(9000)))))
    );
    assert_eq!(decode_scalar(&"x".to_string(), &sh), Err(DecodeError::Parse("x".to_string())));
}

#[test]
fn scalar_rejects_container_shapes() {
    let v = "zzz".to_string();
    assert_eq!(decode_scalar(&v, &Shape::List(ScalarShape::Text)), Err(DecodeError::Unsupported));
    assert_eq!(
        decode_scalar(&v, &Shape::Tuple(vec![ScalarShape::Text])),
        Err(DecodeError::Unsupported)
    );
}

#[test]
fn unit_variant_accepted_payload_variant_rejected() {
    let vars = vec![
        VariantDecl { name: "Red".to_string(), takes_payload: false },
        VariantDecl { name: "Rgb".to_string(), takes_payload: true },
    ];
    let sh = Shape::Scalar(ScalarShape::UnitEnum(vars));
    assert_eq!(
        decode_scalar(&"Red".to_string(), &sh),
        Ok(Decoded::One(Leaf::Chosen("Red".to_string())))
    );
    assert_eq!(decode_scalar(&"Rgb".to_string(), &sh), Err(DecodeError::Unsupported));
    assert_eq!(
        decode_scalar(&"Blue".to_string(), &sh),
        Err(DecodeError::Parse("Blue".to_string()))
    );
}

#[test]
fn empty_value_list_as_scalar_is_an_error() {
    let empty: Vec<String> = vec![];
    assert_eq!(decode_vec(&empty, &Shape::Scalar(ScalarShape::U8)), Err(DecodeError::Empty));
    assert_eq!(decode_vec(&empty, &Shape::Scalar(ScalarShape::Agnostic)), Err(DecodeError::Empty));
    assert_eq!(
        decode_vec(&empty, &Shape::Optional(Box::new(Shape::Scalar(ScalarShape::Text)))),
        Err(DecodeError::Empty)
    );
}

#[test]
fn empty_value_list_as_sequence_is_empty() {
    let empty: Vec<String> = vec![];
    assert_eq!(decode_vec(&empty, &Shape::List(ScalarShape::Text)), Ok(Decoded::Items(vec![])));
}

#[test]
fn vector_enum_uses_first_element() {
    let vars = vec![VariantDecl { name: "On".to_string(), takes_payload: false }];
    let vals = vec!["On".to_string(), "ignored".to_string()];
    assert_eq!(
        decode_vec(&vals, &Shape::Scalar(ScalarShape::UnitEnum(vars))),
        Ok(Decoded::One(Leaf::Chosen("On".to_string())))
    );
}

#[test]
fn list_elements_decode_in_order() {
    let vals = vec!["1".to_string(), "2".to_string(), "3".to_string()];
    assert_eq!(
        decode_vec(&vals, &Shape::List(ScalarShape::U32)),
        Ok(Decoded::Items(vec![Leaf::Unsigned(1), Leaf::Unsigned(2), Leaf::Unsigned(3)]))
    );
    let bad = vec!["1".to_string(), "x".to_string()];
    assert_eq!(
        decode_vec(&bad, &Shape::List(ScalarShape::U32)),
        Err(DecodeError::Parse("x".to_string()))
    );
}
