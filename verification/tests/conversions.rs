use rustlings::exercises::errors3::total_cost;
use rustlings::exercises::from_into;
use rustlings::exercises::from_str::{ParsePersonError, Person};
use rustlings::exercises::hashmaps3::{build_scores, get_score, normalize, try_build_scores};
use rustlings::exercises::iterators2::{
    capitalize_first, capitalize_words_string, capitalize_words_vector,
};

#[test]
fn test_default() {
    let p = from_into::Person::from("");
    assert_eq!(p.name, "Mike");
    assert_eq!(p.age, 0);
}

#[test]
fn test_good_convert() {
    let p = from_into::Person::from("John, 30");
    assert_eq!(p.name, "John");
    assert_eq!(p.age, 30);
}

#[test]
fn test_bad_convert() {
    let p = from_into::Person::from("John");
    assert_eq!(p.name, "John");
    assert_eq!(p.age, 0);
}

#[test]
fn test_trailing_comma() {
    let p = from_into::Person::from("John, 30,");
    assert_eq!(p.name, "John");
    assert_eq!(p.age, 30);
}

#[test]
fn test_trailing_comma_and_some_string() {
    let p = from_into::Person::from("John, 30, blah");
    assert_eq!(p.name, "John");
    assert_eq!(p.age, 30);
}

#[test]
fn test_missing_name() {
    let p = from_into::Person::from(", 30");
    assert_eq!(p.name, "Mike");
    assert_eq!(p.age, 30);
}

#[test]
fn test_missing_age() {
    let p = from_into::Person::from("John,");
    assert_eq!(p.name, "John");
    assert_eq!(p.age, 0);
}

#[test]
fn test_missing_name_and_age() {
    let p = from_into::Person::from(",");
    assert_eq!(p.name, "Mike");
    assert_eq!(p.age, 0);
}

#[test]
fn test_missing_name_and_invalid_age() {
    let p = from_into::Person::from(", blah");
    assert_eq!(p.name, "Mike");
    assert_eq!(p.age, 0);
}

#[test]
fn test_missing_comma_and_age() {
    let p = from_into::Person::from("John");
    assert_eq!(p.name, "John");
    assert_eq!(p.age, 0);
}

#[test]
fn test_bad_age() {
    let p = from_into::Person::from("John, blah");
    assert_eq!(p.name, "John");
    assert_eq!(p.age, 0);
}

#[test]
fn test_age_at_and_over_the_limit() {
    assert_eq!(from_into::Person::from("Ann, 255").age, 255);
    assert_eq!(from_into::Person::from("Ann, 256").age, 0);
    assert_eq!(from_into::Person::from("Ann, +7").age, 7);
    assert_eq!(from_into::Person::from("Ann, -7").age, 0);
    assert_eq!(from_into::Person::from("Ann, 007").age, 7);
    assert_eq!(from_into::Person::from("Ann, 3 0").age, 0);
    assert_eq!(from_into::Person::from("  Zoë \t,\u{a0}41 ,").name, "Zoë");
    assert_eq!(from_into::Person::from("  Zoë \t,\u{a0}41 ,").age, 41);
}

#[test]
fn empty_input() {
    assert_eq!(Person::from_str(""), Err(ParsePersonError::Empty));
}

#[test]
fn good_input() {
    let p = Person::from_str("John, 30").unwrap();
    assert_eq!(p.name, "John");
    assert_eq!(p.age, 30);
}

#[test]
fn missing_age() {
    assert_eq!(Person::from_str("John,"), Err(ParsePersonError::BadLen));
}

#[test]
fn invalid_age() {
    assert!(matches!(
        Person::from_str("John, thirty"),
        Err(ParsePersonError::ParseInt(_))
    ));
}

#[test]
fn missing_comma_and_age() {
    assert_eq!(Person::from_str("John"), Err(ParsePersonError::BadLen));
}

#[test]
fn missing_name() {
    assert_eq!(Person::from_str(", 30"), Err(ParsePersonError::NoName));
}

#[test]
fn missing_name_and_age() {
    assert_eq!(Person::from_str(","), Err(ParsePersonError::NoName));
}

#[test]
fn missing_name_and_invalid_age() {
    assert!(matches!(
        Person::from_str(", thirty"),
        Err(ParsePersonError::NoName)
    ));
}

#[test]
fn person_from_str_edges() {
    assert_eq!(Person::from_str("   "), Err(ParsePersonError::Empty));
    assert_eq!(Person::from_str("John, 30, x"), Err(ParsePersonError::BadLen));
    assert_eq!(Person::from_str("John, 30,"), Err(ParsePersonError::BadLen));
    assert_eq!(
        Person::from_str("  John Doe , 255 \n"),
        Ok(Person { name: "John Doe".to_string(), age: 255 })
    );
    assert_eq!(
        Person::from_str("John, 256"),
        Err(ParsePersonError::ParseInt("256".parse::<u8>().unwrap_err()))
    );
    assert_eq!(
        Person::from_str("John, -1"),
        Err(ParsePersonError::ParseInt("-1".parse::<u8>().unwrap_err()))
    );
    assert_eq!(Person::from_str("John, +12"), Ok(Person { name: "John".to_string(), age: 12 }));
}

#[test]
fn total_cost_is_five_apiece_and_one() {
    assert_eq!(total_cost("8"), Ok(41));
    assert_eq!(total_cost("0"), Ok(1));
    assert_eq!(total_cost("-2"), Ok(-9));
    assert_eq!(total_cost("+3"), Ok(16));
    assert!(total_cost("eight").is_err());
    assert!(total_cost("").is_err());
    assert!(total_cost(" 8").is_err());
    assert!(total_cost("-+8").is_err());
    assert!(total_cost("99999999999").is_err());
}

#[test]
fn test_success() {
    assert_eq!(capitalize_first("hello"), "Hello");
}

#[test]
fn test_empty() {
    assert_eq!(capitalize_first(""), "");
}

#[test]
fn test_iterate_string_vec() {
    let words = vec!["hello", "world"];
    assert_eq!(capitalize_words_vector(&words), ["Hello", "World"]);
}

#[test]
fn test_iterate_into_string() {
    let words = vec!["hello", " ", "world"];
    assert_eq!(capitalize_words_string(&words), "Hello World");
}

#[test]
fn test_capitalize_leaves_other_characters() {
    assert_eq!(capitalize_first("Hello"), "Hello");
    assert_eq!(capitalize_first("z"), "Z");
    assert_eq!(capitalize_first("a"), "A");
    assert_eq!(capitalize_first("1st"), "1st");
    assert_eq!(capitalize_first("éa"), "éa");
    assert_eq!(capitalize_first("ñandú"), "ñandú");
    assert_eq!(capitalize_words_string(&[]), "");
    assert_eq!(capitalize_words_vector(&[]), Vec::<String>::new());
}

#[test]
fn scores_are_added_up_under_one_spelling() {
    let scores = build_scores(vec![
        ("england", 3),
        ("FRANCE", 1),
        ("England", 2),
        ("spain", 0),
        ("fRaNcE", -4),
    ]);
    assert_eq!(
        scores,
        vec![
            ("England".to_string(), 5),
            ("France".to_string(), -3),
            ("Spain".to_string(), 0),
        ]
    );
    assert_eq!(get_score(&scores, "ENGLAND"), 5);
    assert_eq!(get_score(&scores, "france"), -3);
    assert_eq!(get_score(&scores, "Spain"), 0);
    assert_eq!(get_score(&scores, "italy"), 0);
    assert_eq!(normalize("éCOLE"), "École");
    assert_eq!(normalize("ßa"), "SSa");
    assert_eq!(build_scores(vec![]), vec![]);
}

#[test]
fn scores_too_large_to_add_are_not_added() {
    assert_eq!(
        try_build_scores(vec![("a", 7), ("A", -2), ("b", 1)]),
        Some(vec![("A".to_string(), 5), ("B".to_string(), 1)])
    );
    assert_eq!(try_build_scores(vec![("a", i32::MAX), ("b", 0)]).map(|s| s.len()), Some(2));
    assert_eq!(try_build_scores(vec![("a", i32::MAX), ("b", 1)]), None);
    assert_eq!(try_build_scores(vec![("a", i32::MIN)]), None);
    assert_eq!(try_build_scores(vec![("a", -i32::MAX)]).map(|s| s[0].1), Some(-i32::MAX));
}
