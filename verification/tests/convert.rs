use tracing_utils::VecConvert;

#[derive(Debug, PartialEq)]
struct Wrapped(String);

impl From<i32> for Wrapped {
    fn from(n: i32) -> Wrapped {
        Wrapped(n.to_string())
    }
}

impl<'a> From<&'a i32> for Wrapped {
    fn from(n: &'a i32) -> Wrapped {
        Wrapped(n.to_string())
    }
}

#[derive(Debug, PartialEq)]
struct Length(usize);

impl<'a> From<&'a String> for Length {
    fn from(s: &'a String) -> Length {
        Length(s.len())
    }
}

#[test]
fn convert_vec_wraps_each_integer_in_a_string() {
    let wrapped: Vec<Wrapped> = vec![1, 2, 3].convert_vec();
    assert_eq!(
        wrapped,
        vec![Wrapped("1".to_string()), Wrapped("2".to_string()), Wrapped("3".to_string())]
    );
}

#[test]
fn convert_vec_keeps_length_and_order() {
    let source: Vec<u8> = vec![9, 0, 255, 0, 7];
    let wide: Vec<u32> = source.clone().convert_vec();
    assert_eq!(wide.len(), source.len());
    for i in 0..source.len() {
        assert_eq!(wide[i], u32::from(source[i]));
    }
    assert_eq!(wide, vec![9u32, 0, 255, 0, 7]);
}

#[test]
fn convert_vec_of_an_empty_vector_is_empty() {
    let none: Vec<i32> = Vec::new();
    let wrapped: Vec<Wrapped> = none.convert_vec();
    assert!(wrapped.is_empty());
}

#[test]
fn convert_vec_of_one_element() {
    let wide: Vec<i64> = vec![-5i32].convert_vec();
    assert_eq!(wide, vec![-5i64]);
}

#[test]
fn convert_vec_on_a_slice_leaves_the_source_in_place() {
    let source = vec![1, 2, 3];
    let wrapped: Vec<Wrapped> = source.as_slice().convert_vec();
    assert_eq!(
        wrapped,
        vec![Wrapped("1".to_string()), Wrapped("2".to_string()), Wrapped("3".to_string())]
    );
    assert_eq!(source, vec![1, 2, 3]);
}

#[test]
fn convert_vec_on_a_slice_keeps_length_and_order() {
    let words = vec!["a".to_string(), String::new(), "four".to_string()];
    let lengths: Vec<Length> = words[..].convert_vec();
    assert_eq!(lengths, vec![Length(1), Length(0), Length(4)]);
    let tail: Vec<Length> = words[1..].convert_vec();
    assert_eq!(tail, vec![Length(0), Length(4)]);
}

#[test]
fn convert_vec_of_an_empty_slice_is_empty() {
    let none: &[i32] = &[];
    let wrapped: Vec<Wrapped> = none.convert_vec();
    assert!(wrapped.is_empty());
}

#[test]
fn convert_vec_into_the_same_type_copies_the_vector() {
    let same: Vec<String> = vec!["x".to_string(), "y".to_string()].convert_vec();
    assert_eq!(same, vec!["x".to_string(), "y".to_string()]);
}
