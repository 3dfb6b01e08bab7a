use std::str::FromStr;
use wasn::number::normalize;

#[test]
fn lib_parse_ok() {
    let n = f64::from_str(&normalize("1.23"));
    assert!(n.is_ok());
    assert_eq!(n.unwrap(), 1.23);
}

#[test]
fn lib_parse_fail() {
    for s in ["", "cat", "1_23"] {
        let n = f64::from_str(&normalize(s));
        assert!(n.is_err());
    }
}

#[test]
fn normalize_replaces_first_comma() {
    assert_eq!(normalize("1,2"), "1.2");
    assert_eq!(normalize("1,2,3"), "1.2,3");
    assert_eq!(normalize(",5"), ".5");
}

#[test]
fn normalize_keeps_text_without_comma() {
    assert_eq!(normalize("1.2"), "1.2");
    assert_eq!(normalize(""), "");
    assert_eq!(normalize(" 7 "), " 7 ");
    assert_eq!(normalize("ä,ö"), "ä.ö");
}

#[test]
fn comma_and_point_give_equal_numbers() {
    for (comma, point) in [("1,2", "1.2"), ("-0,5", "-0.5"), ("3,", "3."), ("1e3", "1e3"), (",25", ".25")] {
        let a = f64::from_str(&normalize(comma)).unwrap();
        let b = f64::from_str(&normalize(point)).unwrap();
        assert_eq!(a, b);
    }
}

#[test]
fn several_commas_do_not_parse() {
    assert!(f64::from_str(&normalize("1,2,3")).is_err());
}
