use lessons::custom_types::{Point3D, WebEvent};
use lessons::error_handling::{
    double_first, double_first2, double_first3, double_first_4, double_fits_i32, multiply,
    multiply_combinator, multiply_early_return, multiply_question_mark, multiply_results, parse_all, parse_each,
    parse_valid, product_fits_i32, split_parsed, DoubleError,
};

#[test]
fn multiply_parses_both_numbers() {
    assert_eq!(multiply("10", "2"), Ok(20));
    assert_eq!(multiply_combinator("10", "2"), Ok(20));
    assert_eq!(multiply_early_return("10", "2"), Ok(20));
    assert_eq!(multiply_question_mark("10", "2"), Ok(20));
    assert_eq!(multiply("-3", "+4"), Ok(-12));
    assert_eq!(multiply("3", "4"), Ok(12));
}

#[test]
fn multiply_fails_on_text_that_is_no_number() {
    assert!(multiply("t", "2").is_err());
    assert!(multiply_combinator("2", "t").is_err());
    assert!(multiply_early_return("", "2").is_err());
    assert!(multiply_question_mark("2", " 3").is_err());
    assert!(multiply("-", "2").is_err());
    assert!(multiply("2147483648", "1").is_err());
    assert_eq!(multiply("2147483647", "1"), Ok(2147483647));
    assert_eq!(multiply("-2147483648", "1"), Ok(-2147483648));
}

#[test]
fn double_first_of_numbers() {
    assert_eq!(double_first(vec!["12", "22", "32"]), 24);
}

#[test]
fn double_first_with_options_and_results() {
    assert_eq!(double_first2(vec!["12", "22", "32"]), Some(Ok(24)));
    assert_eq!(double_first2(vec![]), None);
    assert!(matches!(double_first2(vec!["tofu", "93", "18"]), Some(Err(_))));
    assert_eq!(double_first3(vec!["12", "22", "32"]), Ok(Some(24)));
    assert_eq!(double_first3(vec![]), Ok(None));
    assert!(double_first3(vec!["tofu", "93", "18"]).is_err());
}

#[test]
fn double_first_with_own_error() {
    assert_eq!(double_first_4(vec!["12", "22", "32"]), Ok(24));
    assert_eq!(double_first_4(vec![]), Err(DoubleError("vec is empty")));
    assert_eq!(
        double_first_4(vec!["tofu", "93", "18"]),
        Err(DoubleError("parse first elem to i32 failed"))
    );
}

#[test]
fn events_are_described() {
    assert_eq!(WebEvent::KeyPress('x').inspect(), "pressed 'x'");
    assert_eq!(WebEvent::Paste(String::from("my text")).inspect(), "pasted \"my text\"");
    assert_eq!(WebEvent::Click { x: 20, y: 80 }.inspect(), "clicked at x=20, y=80");
    assert_eq!(WebEvent::PageLoad.inspect(), "Page load");
    assert_eq!(WebEvent::PageUnload.inspect(), "Page unload");
    assert_eq!(
        WebEvent::Draw(Point3D { x: 10, y: 20, z: -5 }).inspect(),
        "draw at x=10, y=20, z=-5"
    );
}

#[test]
fn range_checks_before_multiplying() {
    assert!(product_fits_i32("10", "2"));
    assert!(product_fits_i32("tofu", "2"));
    assert!(!product_fits_i32("65536", "65536"));
    assert!(product_fits_i32("-65536", "32768"));
    assert!(!product_fits_i32("-65536", "32769"));
    assert!(double_fits_i32("1073741823"));
    assert!(!double_fits_i32("1073741824"));
    assert!(double_fits_i32("-1073741824"));
    assert!(double_fits_i32("x"));
}

#[test]
fn parsing_a_list_of_texts() {
    let strings = vec!["93", "tofu", "18"];
    let each = parse_each(&strings);
    assert_eq!(each.len(), 3);
    assert_eq!(each[0], Ok(93));
    assert!(each[1].is_err());
    assert_eq!(each[2], Ok(18));
    assert_eq!(parse_valid(&strings), vec![93, 18]);
    assert!(parse_all(&strings).is_err());
    assert_eq!(parse_all(&vec!["1", "-2", "+3"]), Ok(vec![1, -2, 3]));
    assert_eq!(parse_all(&vec![]), Ok(vec![]));
    let (numbers, errors) = split_parsed(&strings);
    assert_eq!(numbers, vec![93, 18]);
    assert_eq!(errors.len(), 1);
    assert_eq!(strings, vec!["93", "tofu", "18"]);
}

#[test]
fn multiply_passes_on_the_first_failed_parse() {
    let empty = "".parse::<i32>().unwrap_err();
    let invalid = "t".parse::<i32>().unwrap_err();
    assert_ne!(empty, invalid);
    assert_eq!(multiply_results(Ok(6), Ok(7)), Ok(42));
    assert_eq!(multiply_results(Err(empty.clone()), Err(invalid.clone())), Err(empty.clone()));
    assert_eq!(multiply_results(Ok(6), Err(invalid.clone())), Err(invalid.clone()));
    assert_eq!(multiply("", "t"), Err(empty.clone()));
    assert_eq!(multiply_combinator("t", ""), Err(invalid.clone()));
    assert_eq!(multiply_early_return("", "t"), Err(empty.clone()));
    assert_eq!(multiply_question_mark("2", "t"), Err(invalid.clone()));
    assert_eq!(double_first3(vec!["t", "1"]), Err(invalid.clone()));
    assert_eq!(double_first2(vec![""]), Some(Err(empty.clone())));
    assert_eq!(parse_all(&vec!["1", "", "t"]), Err(empty.clone()));
    let (_, errors) = split_parsed(&vec!["t", "1", ""]);
    assert_eq!(errors, vec![invalid, empty]);
}
