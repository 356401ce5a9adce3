use design_patterns::visitor::{
    Deserializer, StringDeserializer, TwoValuesArray, TwoValuesStruct, VecDeserializer, Visitor,
};

#[test]
fn string_into_struct() {
    let d = StringDeserializer::create(TwoValuesStruct::new());
    assert_eq!(d.parse_str("123 456"), Ok(TwoValuesStruct { a: 123, b: 456 }));
    assert_eq!(d.parse_str("  -1\t2 3 "), Ok(TwoValuesStruct { a: -1, b: 2 }));
    assert_eq!(d.parse_str("1 x"), Err("invalid integer"));
    assert_eq!(d.parse_str("7"), Err("fewer than two values"));
    assert_eq!(d.parse_str(""), Err("fewer than two values"));
    assert_eq!(d.parse_vec(vec![1, 2]), Err("parse_vec is unimplemented"));
}

#[test]
fn vec_into_struct_and_array() {
    let d = VecDeserializer::create(TwoValuesStruct::new());
    assert_eq!(d.parse_vec(vec![123, 456]), Ok(TwoValuesStruct { a: 123, b: 456 }));
    let d = VecDeserializer::create(TwoValuesArray::new());
    assert_eq!(d.parse_vec(vec![123, 456]), Ok(TwoValuesArray { ab: [123, 456] }));
    assert_eq!(d.parse_vec(vec![1]), Err("fewer than two values"));
    assert_eq!(d.parse_str("123 456"), Err("parse_str is unimplemented"));
}

#[test]
fn visitors_take_the_first_two() {
    assert_eq!(TwoValuesStruct::new().visit_vec(vec![5, 6, 7]), TwoValuesStruct { a: 5, b: 6 });
    assert_eq!(TwoValuesArray::new().visit_vec(vec![8, 9]).ab, [8, 9]);
}
