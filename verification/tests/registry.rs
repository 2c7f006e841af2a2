use webcalc::ops::check_method;
use webcalc::ops::OpType;

#[test]
fn known_methods_resolve() {
    assert_eq!(check_method(b"plus"), Some(OpType::Plus));
    assert_eq!(check_method(b"minus"), Some(OpType::Minus));
    assert_eq!(check_method(b"div"), Some(OpType::Div));
    assert_eq!(check_method(b"mul"), Some(OpType::Mul));
}

#[test]
fn lookup_is_case_insensitive() {
    assert_eq!(check_method(b"PLUS"), Some(OpType::Plus));
    assert_eq!(check_method(b"Plus"), Some(OpType::Plus));
    assert_eq!(check_method(b"MiNuS"), Some(OpType::Minus));
    assert_eq!(check_method(b"DIV"), Some(OpType::Div));
    assert_eq!(check_method(b"Mul"), Some(OpType::Mul));
}

#[test]
fn unknown_methods_fail() {
    let bad = ["foo", "plu", "pluss", "", "plus ", " plus", "p-lus", "add", "times"];
    for m in bad.iter() {
        assert_eq!(check_method(m.as_bytes()), None, "{}", m);
    }
}
