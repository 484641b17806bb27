use std::collections::HashMap;

use multimap::MultiMap;
use strmap_decode::from_str_map;
use strmap_decode::from_str_multi_map;
use strmap_decode::Decoded;
use strmap_decode::DecodeError;
use strmap_decode::Field;
use strmap_decode::Leaf;
use strmap_decode::ScalarShape;
use strmap_decode::Shape;

#[test]
fn test_de_str_map() {
    let mut data: HashMap<String, String> = HashMap::new();
    data.insert("age".into(), "10".into());
    data.insert("name".into(), "hello".into());
    let fields = vec![
        Field { name: "name".to_string(), shape: Shape::Scalar(ScalarShape::Text) },
        Field { name: "age".to_string(), shape: Shape::Scalar(ScalarShape::U8) },
    ];
    let user = from_str_map(&data, &fields).unwrap();
    assert_eq!(user[1], Decoded::One(Leaf::Unsigned(10)));
    assert_eq!(user[0], Decoded::One(Leaf::Text("hello".to_string())));
}

#[test]
fn test_de_str_multi_map() {
    let mut map = MultiMap::new();
    map.insert("id".to_string(), "42".to_string());
    map.insert("name".to_string(), "Jobs".to_string());
    map.insert("age".to_string(), "100".to_string());
    map.insert("friends".to_string(), "100".to_string());
    map.insert("friends".to_string(), "200".to_string());
    map.insert("friends".to_string(), "300".to_string());
    map.insert("kids".to_string(), "aaa".to_string());
    map.insert("kids".to_string(), "bbb".to_string());
    map.insert("kids".to_string(), "ccc".to_string());
    map.insert("lala".to_string(), "600".to_string());
    map.insert("lala".to_string(), "700".to_string());
    let fields = vec![
        Field { name: "id".to_string(), shape: Shape::Scalar(ScalarShape::I64) },
        Field { name: "name".to_string(), shape: Shape::Scalar(ScalarShape::Text) },
        Field { name: "age".to_string(), shape: Shape::Scalar(ScalarShape::U8) },
        Field {
            name: "friends".to_string(),
            shape: Shape::Tuple(vec![ScalarShape::Text, ScalarShape::Text, ScalarShape::I64]),
        },
        Field { name: "kids".to_string(), shape: Shape::List(ScalarShape::Text) },
        Field { name: "lala".to_string(), shape: Shape::List(ScalarShape::I64) },
    ];
    let user = from_str_multi_map(&map, &fields).unwrap();
    assert_eq!(user[0], Decoded::One(Leaf::Signed(42)));
    assert_eq!(user[1], Decoded::One(Leaf::Text("Jobs".to_string())));
    assert_eq!(user[2], Decoded::One(Leaf::Unsigned(100)));
    assert_eq!(
        user[3],
        Decoded::Items(vec![
            Leaf::Text("100".to_string()),
            Leaf::Text("200".to_string()),
            Leaf::Signed(300),
        ])
    );
    assert_eq!(
        user[4],
        Decoded::Items(vec![
            Leaf::Text("aaa".to_string()),
            Leaf::Text("bbb".to_string()),
            Leaf::Text("ccc".to_string()),
        ])
    );
    assert_eq!(user[5], Decoded::Items(vec![Leaf::Signed(600), Leaf::Signed(700)]));
}

#[test]
fn multi_value_order_preserved() {
    let mut map = MultiMap::new();
    map.insert("friends".to_string(), "100".to_string());
    map.insert("friends".to_string(), "200".to_string());
    map.insert("friends".to_string(), "300".to_string());
    let fields = vec![Field {
        name: "friends".to_string(),
        shape: Shape::Tuple(vec![ScalarShape::I64, ScalarShape::I64, ScalarShape::I64]),
    }];
    let rec = from_str_multi_map(&map, &fields).unwrap();
    assert_eq!(
        rec[0],
        Decoded::Items(vec![Leaf::Signed(100), Leaf::Signed(200), Leaf::Signed(300)])
    );
}

#[test]
fn parse_failure_is_reported() {
    let mut data: HashMap<String, String> = HashMap::new();
    data.insert("age".into(), "abc".into());
    let fields = vec![Field { name: "age".to_string(), shape: Shape::Scalar(ScalarShape::I32) }];
    let r = from_str_map(&data, &fields);
    assert_eq!(r, Err(DecodeError::Parse("abc".to_string())));
}

#[test]
fn unknown_key_is_ignored() {
    let mut data: HashMap<String, String> = HashMap::new();
    data.insert("age".into(), "10".into());
    data.insert("unrelated".into(), "zzz".into());
    let fields = vec![Field { name: "age".to_string(), shape: Shape::Scalar(ScalarShape::U8) }];
    let rec = from_str_map(&data, &fields).unwrap();
    assert_eq!(rec, vec![Decoded::One(Leaf::Unsigned(10))]);
}

#[test]
fn missing_field_is_reported() {
    let mut data: HashMap<String, String> = HashMap::new();
    data.insert("name".into(), "hello".into());
    let fields = vec![Field { name: "age".to_string(), shape: Shape::Scalar(ScalarShape::U8) }];
    let r = from_str_map(&data, &fields);
    assert_eq!(r, Err(DecodeError::Missing("age".to_string())));
}

#[test]
fn decoding_twice_is_idempotent() {
    let mut data: HashMap<String, String> = HashMap::new();
    data.insert("age".into(), "10".into());
    data.insert("name".into(), "hello".into());
    let fields = vec![
        Field { name: "name".to_string(), shape: Shape::Scalar(ScalarShape::Text) },
        Field { name: "age".to_string(), shape: Shape::Scalar(ScalarShape::U8) },
    ];
    let first = from_str_map(&data, &fields);
    let second = from_str_map(&data, &fields);
    assert_eq!(first, second);

    let mut map = MultiMap::new();
    map.insert("kids".to_string(), "aaa".to_string());
    map.insert("kids".to_string(), "bbb".to_string());
    let mfields = vec![Field {
        name: "kids".to_string(),
        shape: Shape::List(ScalarShape::Text),
    }];
    let mfirst = from_str_multi_map(&map, &mfields);
    let msecond = from_str_multi_map(&map, &mfields);
    assert_eq!(mfirst, msecond);
}

#[test]
fn tuple_arity_mismatch_is_reported() {
    let mut map = MultiMap::new();
    map.insert("pair".to_string(), "1".to_string());
    let fields = vec![Field {
        name: "pair".to_string(),
        shape: Shape::Tuple(vec![ScalarShape::I64, ScalarShape::I64]),
    }];
    let r = from_str_multi_map(&map, &fields);
    assert_eq!(r, Err(DecodeError::Arity));
}

#[test]
fn tuple_extra_elements_are_ignored() {
    let mut map = MultiMap::new();
    map.insert("pair".to_string(), "1".to_string());
    map.insert("pair".to_string(), "2".to_string());
    map.insert("pair".to_string(), "3".to_string());
    let fields = vec![Field {
        name: "pair".to_string(),
        shape: Shape::Tuple(vec![ScalarShape::I64, ScalarShape::I64]),
    }];
    let rec = from_str_multi_map(&map, &fields).unwrap();
    assert_eq!(rec[0], Decoded::Items(vec![Leaf::Signed(1), Leaf::Signed(2)]));
}

#[test]
fn multi_map_scalar_uses_first_value() {
    let mut map = MultiMap::new();
    map.insert("age".to_string(), "31".to_string());
    map.insert("age".to_string(), "99".to_string());
    let fields = vec![Field { name: "age".to_string(), shape: Shape::Scalar(ScalarShape::U8) }];
    let rec = from_str_multi_map(&map, &fields).unwrap();
    assert_eq!(rec[0], Decoded::One(Leaf::Unsigned(31)));
}
