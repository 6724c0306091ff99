use rustlings::exercises::as_ref_mut::{byte_counter, char_counter, num_sq};
use rustlings::exercises::functions4::sale_price;
use rustlings::exercises::hashmaps1::Wrapper;
use rustlings::exercises::iterators5::{
    count_collection_iterator, count_for, count_iterator, Progress,
};
use rustlings::exercises::modules1::get_secret_recipe;
use rustlings::exercises::move_semantics6::get_char;
use rustlings::exercises::quiz1::calculate_price_of_apples;
use rustlings::exercises::tests3::is_even;
use rustlings::exercises::tests4::Rectangle;
use rustlings::exercises::threads3::halves;
use rustlings::exercises::traits2::AppendBar;

#[test]
fn store_u32_in_wrapper() {
    assert_eq!(Wrapper::new(42).value, 42);
}

#[test]
fn store_str_in_wrapper() {
    assert_eq!(Wrapper::new("Foo").value, "Foo");
}

fn get_map() -> Vec<(String, Progress)> {
    let mut map = Vec::new();
    map.push((String::from("variables1"), Progress::Complete));
    map.push((String::from("functions1"), Progress::Complete));
    map.push((String::from("hashmap1"), Progress::Complete));
    map.push((String::from("arc1"), Progress::Partial));
    map.push((String::from("as_ref_mut"), Progress::Untouched));
    map.push((String::from("from_str"), Progress::Untouched));
    map
}

fn get_vec_map() -> Vec<Vec<(String, Progress)>> {
    let map = get_map();
    let mut other = Vec::new();
    other.push((String::from("variables2"), Progress::Complete));
    other.push((String::from("functions2"), Progress::Complete));
    other.push((String::from("if1"), Progress::Complete));
    other.push((String::from("from_into"), Progress::Untouched));
    other.push((String::from("try_from_into"), Progress::Untouched));
    vec![map, other]
}

fn count_collection_for(collection: &[Vec<(String, Progress)>], value: Progress) -> usize {
    let mut count = 0;
    for map in collection {
        for (_, val) in map {
            if val == &value {
                count += 1;
            }
        }
    }
    count
}

#[test]
fn count_complete() {
    let map = get_map();
    assert_eq!(3, count_iterator(&map, Progress::Complete));
}

#[test]
fn count_some() {
    let map = get_map();
    assert_eq!(1, count_iterator(&map, Progress::Partial));
}

#[test]
fn count_none() {
    let map = get_map();
    assert_eq!(2, count_iterator(&map, Progress::Untouched));
}

#[test]
fn count_complete_equals_for() {
    let map = get_map();
    let progress_states = vec![Progress::Complete, Progress::Partial, Progress::Untouched];
    for progress_state in progress_states {
        assert_eq!(
            count_for(&map, progress_state),
            count_iterator(&map, progress_state)
        );
    }
}

#[test]
fn count_collection_complete() {
    let collection = get_vec_map();
    assert_eq!(
        6,
        count_collection_iterator(&collection, Progress::Complete)
    );
}

#[test]
fn count_collection_some() {
    let collection = get_vec_map();
    assert_eq!(1, count_collection_iterator(&collection, Progress::Partial));
}

#[test]
fn count_collection_none() {
    let collection = get_vec_map();
    assert_eq!(4, count_collection_iterator(&collection, Progress::Untouched));
}

#[test]
fn count_collection_equals_for() {
    let progress_states = vec![Progress::Complete, Progress::Partial, Progress::Untouched];
    let collection = get_vec_map();
    for progress_state in progress_states {
        assert_eq!(
            count_collection_for(&collection, progress_state),
            count_collection_iterator(&collection, progress_state)
        );
    }
}

#[test]
fn count_in_empty_collection_is_zero() {
    let collection: Vec<Vec<(String, Progress)>> = Vec::new();
    assert_eq!(0, count_collection_iterator(&collection, Progress::Complete));
    assert_eq!(0, count_for(&Vec::new(), Progress::Complete));
}

#[test]
fn indexing_tuple() {
    let numbers = (1, 2, 3);
    let second = numbers.1;

    assert_eq!(2, second, "This is not the 2nd number in the tuple!")
}

#[test]
fn verify_test() {
    let price1 = calculate_price_of_apples(35);
    let price2 = calculate_price_of_apples(40);
    let price3 = calculate_price_of_apples(41);
    let price4 = calculate_price_of_apples(65);

    assert_eq!(70, price1);
    assert_eq!(80, price2);
    assert_eq!(41, price3);
    assert_eq!(65, price4);
}

#[test]
fn is_true_when_even() {
    assert!(is_even(4));
}

#[test]
fn is_false_when_odd() {
    assert!(!is_even(5));
}

#[test]
fn is_even_of_negative_numbers() {
    assert!(is_even(-4));
    assert!(!is_even(-5));
    assert!(is_even(0));
}

#[test]
fn correct_width_and_height() {
    let rect = Rectangle::new(10, 20);
    assert_eq!(rect.width, 10);
    assert_eq!(rect.height, 20);
}

#[test]
fn is_vec_pop_eq_bar() {
    let mut foo = vec![String::from("Foo")].append_bar();
    assert_eq!(foo.pop().unwrap(), String::from("Bar"));
    assert_eq!(foo.pop().unwrap(), String::from("Foo"));
}

#[test]
fn sale_price_takes_ten_off_even_and_three_off_odd() {
    assert_eq!(sale_price(50), 40);
    assert_eq!(sale_price(51), 48);
    assert_eq!(sale_price(-3), -6);
}

#[test]
fn different_counts() {
    let s = "Café au lait";
    assert_eq!(byte_counter(s), 13);
    assert_eq!(char_counter(s), 12);
}

#[test]
fn same_counts() {
    let s = "Cafe au lait";
    assert_eq!(byte_counter(s), 12);
    assert_eq!(char_counter(s), 12);
}

#[test]
fn num_sq_test() {
    let mut x = 5u32;
    num_sq(&mut x);
    assert_eq!(x, 25);
}

#[test]
fn secret_recipe_is_ginger() {
    assert_eq!(get_secret_recipe(), "Ginger");
}

#[test]
fn get_char_gives_the_last_character() {
    assert_eq!(get_char(&"Rust is great!".to_string()), '!');
    assert_eq!(get_char(&"é".to_string()), 'é');
}

#[test]
fn test_unsafe() {
    let mut address = 0x12345678u32;
    let place = &mut address;
    *place = 0xAABBCCDD;
    assert_eq!(address, 0xAABBCCDD);
}

#[test]
fn a_queue_is_cut_in_the_middle() {
    assert_eq!(
        halves(&vec![1, 2, 3, 4, 5, 6, 7, 8, 9, 10]),
        (vec![1, 2, 3, 4, 5], vec![6, 7, 8, 9, 10])
    );
    assert_eq!(halves(&vec![1, 2, 3]), (vec![1], vec![2, 3]));
    assert_eq!(halves(&vec![7]), (vec![], vec![7]));
    assert_eq!(halves(&vec![]), (vec![], vec![]));
}
