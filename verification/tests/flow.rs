use lang_tour::if_else::{display_if_else, display_if_let, display_while_let};
use lang_tour::loops::{
    display_for_loop, display_labelled_loops, display_loop, display_loop_with_return_value,
    fizzbuzz_label, greet_name, rename_rustacean,
};
use lang_tour::pattern_matching::{
    display_match_guard, display_match_with_binding, display_match_with_enums,
    display_pointer_ref_match, display_regular_match, display_struct_match,
    display_tuple_destructuring_match, Color,
};

#[test]
fn small_numbers_grow_tenfold_and_big_ones_halve() {
    let small = ", and is a small number, increase ten-fold";
    let big = ", and is a big number, halve the number";
    assert_eq!(display_if_else(5), (small, 50));
    assert_eq!(display_if_else(-9), (small, -90));
    assert_eq!(display_if_else(20), (big, 10));
    assert_eq!(display_if_else(-21), (big, -10));
    assert_eq!(display_if_else(i32::MIN), (big, -1073741824));
}

#[test]
fn if_let_walk_reports_each_match() {
    let lines = display_if_let();
    assert_eq!(
        lines,
        vec![
            "Matched 7!",
            "Didn't match a number. Let's go with a letter!",
            "I don't like letters. Let's go with an emoticon :)!",
            "a is foobar",
            "c is 100",
            "c is one hundred",
            "colour is black",
        ]
    );
}

#[test]
fn while_let_counts_to_nine_twice() {
    let lines = display_while_let();
    assert_eq!(lines.len(), 22);
    assert_eq!(lines[0], "`i` is `0`. Try again.");
    assert_eq!(lines[9], "`i` is `9`. Try again.");
    assert_eq!(lines[10], "Greater than 9, quit!");
    assert_eq!(lines[11], "`i` is `0`. Try again.");
    assert_eq!(lines[21], "Greater than 9, quit!");
}

#[test]
fn bare_loop_counts_to_five_skipping_three() {
    let lines = display_loop();
    assert_eq!(lines, vec!["1", "2", "three", "4", "5", "OK, that's enough"]);
}

#[test]
fn labelled_break_leaves_both_loops() {
    let lines = display_labelled_loops();
    assert_eq!(
        lines,
        vec!["Entered the outer loop", "Entered the inner loop", "Exited the outer loop"]
    );
}

#[test]
fn loop_with_return_value_runs() {
    display_loop_with_return_value();
}

#[test]
fn fizzbuzz_labels_follow_divisibility() {
    assert_eq!(fizzbuzz_label(15), "fizzbuzz");
    assert_eq!(fizzbuzz_label(9), "fizz");
    assert_eq!(fizzbuzz_label(10), "buzz");
    assert_eq!(fizzbuzz_label(7), "7");
    assert_eq!(fizzbuzz_label(100), "buzz");
}

#[test]
fn for_loop_walk_counts_greets_and_renames() {
    let (fizz, greet, renamed) = display_for_loop();
    assert_eq!(fizz.len(), 200);
    assert_eq!(fizz[0], "1");
    assert_eq!(fizz[14], "fizzbuzz");
    assert_eq!(fizz[99], "buzz");
    assert_eq!(fizz[100], "1");
    assert_eq!(fizz[199], "buzz");
    assert_eq!(
        greet,
        vec![
            "Hello Bob",
            "Hello Frank",
            "There is a rustacean among us!",
            "Hello Bob",
            "Hello Frank",
            "There is a rustacean among us!",
        ]
    );
    assert_eq!(renamed, vec!["Holla", "Holla", "A Rustacean"]);
}

#[test]
fn greeting_singles_out_ferris() {
    assert_eq!(greet_name("Ferris"), "There is a rustacean among us!");
    assert_eq!(greet_name("Bob"), "Hello Bob");
    assert_eq!(rename_rustacean("Ferris"), "A Rustacean");
    assert_eq!(rename_rustacean("Frank"), "Holla");
}

#[test]
fn regular_match_classifies_numbers() {
    assert_eq!(display_regular_match(1), ("One!", 1));
    assert_eq!(display_regular_match(3), ("This is a prime", 1));
    assert_eq!(display_regular_match(16), ("A teen", 1));
    assert_eq!(display_regular_match(99), ("Ain't special", 1));
}

#[test]
fn tuple_match_looks_at_the_first_element() {
    assert_eq!(
        display_tuple_destructuring_match((0, 20, 10)),
        "First is `0`, `y` is 20, and `z` is 10"
    );
    assert_eq!(display_tuple_destructuring_match((1, 2, 3)), "First is `1` and the rest doesn't matter");
    assert_eq!(display_tuple_destructuring_match((5, 2, 3)), "It doesn't matter what they are");
}

#[test]
fn enum_match_renders_every_channel() {
    assert_eq!(display_match_with_enums(Color::Red), "The color is Red!");
    assert_eq!(
        display_match_with_enums(Color::RGB(122, 17, 40)),
        "Red: 122, green: 17, and blue: 40!"
    );
    assert_eq!(
        display_match_with_enums(Color::CMYK(1, 2, 3, 4)),
        "Cyan: 1, magenta: 2, yellow: 3, key (black): 4!"
    );
}

#[test]
fn reference_walk_reads_and_bumps() {
    assert_eq!(display_pointer_ref_match(), vec![4, 4, 5, 20]);
}

#[test]
fn struct_match_destructures_the_first_arm() {
    assert_eq!(display_struct_match(), "First of x is 1, b = 2,  y = 3 ");
}

#[test]
fn guards_filter_the_pair_arms() {
    assert_eq!(display_match_guard((4, 4), 30).0, "These are twins");
    assert_eq!(display_match_guard((3, -3), 30).0, "Antimatter, kaboom!");
    assert_eq!(display_match_guard((5, 2), 30).0, "The first one is odd");
    assert_eq!(display_match_guard((2, 4), 30).0, "No correlation...");
    assert_eq!(display_match_guard((4, 4), 0).1, "Zero");
    assert_eq!(display_match_guard((4, 4), 30).1, "Greater than zero");
}

#[test]
fn binding_match_reports_ages_and_the_answer() {
    assert_eq!(display_match_with_binding(0, None).0, "I haven't celebrated my first birthday yet");
    assert_eq!(display_match_with_binding(5, None).0, "I'm a child of age 5");
    assert_eq!(display_match_with_binding(15, None).0, "I'm a teen of age 15");
    assert_eq!(display_match_with_binding(40, None).0, "I'm an old person of age 40");
    assert_eq!(display_match_with_binding(40, Some(42)).1, Some("The Answer: 42!".to_string()));
    assert_eq!(display_match_with_binding(40, Some(7)).1, Some("Not interesting... 7".to_string()));
    assert_eq!(display_match_with_binding(40, None).1, None);
}
