use lang_tour::borrowing::{
    borrow_book, new_edition, show_borrowing, show_borrowing_scenarios,
    show_borrowing_with_mutable_reference, Book,
};
use lang_tour::closures::{
    apply_to_number, change_to_upper, create_fn, create_fnmut, create_fnonce,
    display_closure_as_input_parameters, display_closure_as_output, display_closure_capturing,
    vec_contains,
};
use lang_tour::functions::{display_high_order_function, is_odd};
use lang_tour::lifetime::{
    add_two, choose_first, coerce_static, multiply, pass_x, show_functions_with_lifetime,
    show_lifetime_in_struct, show_lifetime_with_explicit_annotation,
    show_static_lifetime_reference, BorrowedV2, Owner,
};
use lang_tour::ownership::{destroy_box, show_mutability, show_ownership, show_partial_moves};

#[test]
fn borrowing_reads_the_same_values_each_time() {
    assert_eq!(show_borrowing(), vec![5, 6, 5, 5]);
}

#[test]
fn a_new_edition_changes_only_the_year() {
    let mut book = Book { author: "Douglas Hofstadter", title: "Gödel, Escher, Bach", year: 1979 };
    assert_eq!(borrow_book(&book), ("Gödel, Escher, Bach", 1979));
    let edition = new_edition(&mut book);
    assert_eq!(edition, ("Gödel, Escher, Bach", 2014));
    assert_eq!(book.year, 2014);
    assert_eq!(book.author, "Douglas Hofstadter");
}

#[test]
fn the_mutable_book_walk_reports_both_editions() {
    let entries = show_borrowing_with_mutable_reference();
    assert_eq!(
        entries,
        vec![
            ("Gödel, Escher, Bach", 1979),
            ("Gödel, Escher, Bach", 1979),
            ("Gödel, Escher, Bach", 2014),
        ]
    );
}

#[test]
fn borrow_scenarios_read_then_write_then_read() {
    assert_eq!(show_borrowing_scenarios(), vec![(0, 0, 0), (0, 0, 0), (5, 2, 1), (5, 2, 1)]);
}

#[test]
fn ownership_walks_copy_and_move() {
    assert_eq!(show_ownership(), (5, 5, 5));
    assert_eq!(show_mutability(), (5, 5, 4));
    assert_eq!(destroy_box(Box::new(9)), 9);
}

#[test]
fn partial_move_keeps_the_age_readable() {
    assert_eq!(show_partial_moves(), ("Lumex".to_string(), 23, 23));
}

#[test]
fn lifetime_walks_collect_their_values() {
    assert_eq!(show_lifetime_with_explicit_annotation(), (3, 6));
    let (values, names) = show_functions_with_lifetime();
    assert_eq!(values, vec![7, 7, 9, 7, 5]);
    assert_eq!(names, ("Lumex", "Ralph"));
    assert_eq!(show_lifetime_in_struct(), vec![18, 18, 15, 18, 18, 10, 6, 2]);
    let (text, coerced, direct) = show_static_lifetime_reference();
    assert_eq!(text, "I'm in read-only memory");
    assert_eq!(coerced, 45);
    assert_eq!(direct, 45);
}

#[test]
fn lifetime_helpers_do_their_one_thing() {
    let mut t = 3;
    add_two(&mut t);
    assert_eq!(t, 5);
    let x = 7;
    let y = 9;
    assert_eq!(*pass_x(&x, &y), 7);
    assert_eq!(multiply(&6, &7), 42);
    assert_eq!(*choose_first(&2, &3), 2);
    assert_eq!(*coerce_static(&1), 45);
    let b: BorrowedV2 = Default::default();
    assert_eq!(*b.x, 10);
    let mut owner = Owner("Lumex", "");
    owner.add_last_name("Ralph");
    assert_eq!(owner.print_name(), ("Lumex", "Ralph"));
}

#[test]
fn closure_capturing_counts_and_looks_up() {
    let (color, count, miss, hit) = display_closure_capturing();
    assert_eq!(color, "green");
    assert_eq!(count, 2);
    assert!(!miss);
    assert!(hit);
}

#[test]
fn closures_as_inputs_scream_triple_shout_and_append() {
    let (screamed, tripled, shouted, appended) = display_closure_as_input_parameters();
    assert_eq!(screamed, "hello!!!");
    assert_eq!(tripled, 12);
    assert_eq!(shouted, "HELLO WORLD...");
    assert_eq!(appended, vec!["foot", "ball"]);
}

#[test]
fn change_to_upper_uppercases_what_the_closure_built() {
    let out = change_to_upper(|word| format!("{} there", word), "hi");
    assert_eq!(out, "HI THERE...");
}

#[test]
fn apply_to_number_hands_back_the_closure_answer() {
    assert_eq!(apply_to_number(|v| v + 1, 41), 42);
}

#[test]
fn returned_closures_say_which_flavour_they_are() {
    assert_eq!(create_fn()(), "Fn");
    assert_eq!(create_fnmut()(), "FnMut");
    assert_eq!(create_fnonce()(), "FnOnce");
    assert_eq!(
        display_closure_as_output(),
        vec!["This is a: Fn", "This is a: FnMut", "This is a: FnOnce"]
    );
}

#[test]
fn vec_contains_finds_only_members() {
    let v = vec![3, 4, 6];
    assert!(vec_contains(&v, 4));
    assert!(!vec_contains(&v, 1));
}

#[test]
fn odd_squares_below_one_thousand_sum_to_the_known_total() {
    assert!(is_odd(9));
    assert!(!is_odd(10));
    assert_eq!(display_high_order_function(), 5456);
}
