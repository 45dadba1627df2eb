use lang_tour::animals::{Animal, Cow, Goat, Mammal, Sheep};
use lang_tour::conversion::{
    display_aliasing, display_string_conversion, display_try_from_into_conversion,
    show_expressions, use_from_and_into, Circle, EvenNumber, Number,
};
use lang_tour::csv::{parse_csv, parse_csv_document};
use lang_tour::decimal::{parse_u16, render_i32, render_i64, render_u64, ParseError};
use lang_tour::events::{
    display_colour, display_days_of_the_week, display_using_use, inspect, Operations, WebEvent,
};
use lang_tour::generic_functions::{show_generic_function, show_impl_with_generic, GenVal};
use lang_tour::generic_traits::{
    difference, difference_b, show_generic_non_associative_type, show_generic_trait,
    show_generic_using_where, show_generic_with_associated_types, ContainerA, ContainerB,
};
use lang_tour::guess::{guess_outcome, GuessGame, GuessOutcome, StepResult};
use lang_tour::students::{comp_sci_student_greeting, CompSciStudent, Person, Programmer, Student};
use lang_tour::text::{split_csv_line, split_str, str_eq, trim_str};

#[test]
fn rendering_covers_zero_signs_and_extremes() {
    assert_eq!(render_u64(0), "0");
    assert_eq!(render_u64(65), "65");
    assert_eq!(render_u64(18446744073709551615), "18446744073709551615");
    assert_eq!(render_i32(-123), "-123");
    assert_eq!(render_i32(i32::MIN), "-2147483648");
    assert_eq!(render_i64(i64::MIN), "-9223372036854775808");
    assert_eq!(render_i64(42), "42");
}

#[test]
fn parsing_accepts_digits_and_names_each_failure() {
    assert_eq!(parse_u16("65"), Ok(65));
    assert_eq!(parse_u16("65535"), Ok(65535));
    assert_eq!(parse_u16("0"), Ok(0));
    assert_eq!(parse_u16(""), Err(ParseError::Empty));
    assert_eq!(parse_u16("12x"), Err(ParseError::InvalidDigit));
    assert_eq!(parse_u16("-3"), Err(ParseError::InvalidDigit));
    assert_eq!(parse_u16("+65"), Ok(65));
    assert_eq!(parse_u16("+"), Err(ParseError::InvalidDigit));
    assert_eq!(parse_u16("++6"), Err(ParseError::InvalidDigit));
    assert_eq!(parse_u16("+65536"), Err(ParseError::Overflow));
    assert_eq!(parse_u16("65536"), Err(ParseError::Overflow));
    assert_eq!(parse_u16("99999999999999999999"), Err(ParseError::Overflow));
}

#[test]
fn string_helpers_compare_trim_and_split() {
    assert!(str_eq("abc", "abc"));
    assert!(!str_eq("abc", "abd"));
    assert!(!str_eq("abc", "ab"));
    assert_eq!(trim_str("  padded\t"), "padded");
    assert_eq!(trim_str("\u{a0}wide\u{3000}"), "wide");
    assert_eq!(trim_str("   "), "");
    assert_eq!(trim_str("bare"), "bare");
    assert_eq!(split_str("a b  c", ' '), vec!["a", "b", "", "c"]);
    assert_eq!(split_csv_line(" a, b ,c"), vec!["a", "b", "c"]);
    assert_eq!(split_csv_line(""), vec![""]);
    assert_eq!(split_csv_line(",x,"), vec!["", "x", ""]);
}

#[test]
fn csv_lines_become_rows_of_trimmed_fields() {
    let lines = vec![" one, two ,three".to_string(), "lone".to_string()];
    let rows = parse_csv(&lines);
    assert_eq!(rows, vec![vec!["one", "two", "three"], vec!["lone"]]);
    assert_eq!(parse_csv_document(&lines), rows);
}

#[test]
fn events_say_what_happened() {
    assert_eq!(inspect(WebEvent::PageLoad), "page loaded");
    assert_eq!(inspect(WebEvent::PageUnload), "page unloaded");
    assert_eq!(inspect(WebEvent::KeyPress('x')), "pressed 'x'.");
    assert_eq!(inspect(WebEvent::Paste("my text".to_string())), "pasted \"my text\".");
    assert_eq!(inspect(WebEvent::Click { x: 20, y: 80 }), "clicked at x=20, y=80.");
}

#[test]
fn the_verbose_enum_adds_and_subtracts() {
    let add = Operations::Add;
    let subtract = Operations::Subtract;
    assert_eq!(add.run(64, 30), 94);
    assert_eq!(subtract.run(64, 30), 34);
}

#[test]
fn enum_walks_report_their_fixed_values() {
    assert_eq!(display_using_use(), ("we go make am", "civilian work"));
    assert_eq!(display_days_of_the_week(), vec![0, 1, 2, 3, 4, 5, 6]);
    assert_eq!(display_colour(), (0xff0000, 0x0000ff));
}

#[test]
fn generic_walks_report_their_fixed_values() {
    show_generic_function();
    assert_eq!(show_impl_with_generic(), ("ball", true));
    assert_eq!(*GenVal { gen_val: 9u8 }.value(), 9);
    assert_eq!(show_generic_trait(), ("red", "blue"));
    assert_eq!(show_generic_using_where(), Some(vec![1, 2, 3]));
    assert_eq!(show_generic_non_associative_type(), (true, 3, 10, 7));
    assert_eq!(show_generic_with_associated_types(), (true, 3, 10, 7));
    assert_eq!(difference(&ContainerA(3, 10)), 7);
    assert_eq!(difference_b(&ContainerB(3, 10)), 7);
}

#[test]
fn sheep_talk_before_and_after_shearing() {
    let lines = lang_tour::animals::show_trait_implementation();
    assert_eq!(
        lines,
        vec![
            "sheeper pauses briefly... baa!",
            "sheeper gets a haircut!",
            "sheeper pauses briefly... baa?",
            "super-sonic pauses briefly... baa!",
            "super-sonic gets a haircut!",
            "super-sonic pauses briefly... baa?",
        ]
    );
    let mut dolly: Sheep = Animal::new("dolly");
    assert!(!dolly.is_naked());
    assert_eq!(dolly.noise(), "baa!");
    assert_eq!(dolly.talk(), "dolly pauses briefly... baa!");
    assert_eq!(dolly.shear(), "dolly gets a haircut!");
    assert_eq!(dolly.shear(), "dolly is already naked...");
    assert_eq!(dolly.noise(), "baa?");
    assert_eq!(dolly.talk(), "dolly pauses briefly... baa?");
    assert_eq!(Goat {}.noise(), "bleeh!");
    assert_eq!(Cow {}.noise(), "moooooo!");
}

struct Exchange;

impl Person for Exchange {
    fn name(&self) -> String {
        "Ada".to_string()
    }
}

impl Student for Exchange {
    fn university(&self) -> String {
        "Analytical U".to_string()
    }
}

impl Programmer for Exchange {
    fn fav_language(&self) -> String {
        "Rust".to_string()
    }
}

impl CompSciStudent for Exchange {
    fn git_username(&self) -> String {
        "ada-l".to_string()
    }
}

#[test]
fn the_greeting_draws_on_all_three_traits() {
    assert_eq!(
        comp_sci_student_greeting(&Exchange),
        "My name is Ada and I attend Analytical U. My favorite language is Rust. My Git username is ada-l"
    );
}

#[test]
fn aliases_from_and_into_convert_values() {
    assert_eq!(display_aliasing(), 7);
    let (text, num, number) = use_from_and_into();
    assert_eq!(text, "lumex");
    assert_eq!(num.value, 30);
    assert_eq!(number.value, 45);
    assert_eq!(Number::from(-2).value, -2);
}

#[test]
fn only_even_numbers_convert() {
    assert_eq!(EvenNumber::try_from(10), Ok(EvenNumber(10)));
    assert_eq!(EvenNumber::try_from(7), Err(()));
    assert_eq!(EvenNumber::try_from(-4), Ok(EvenNumber(-4)));
    assert_eq!(
        display_try_from_into_conversion(),
        (Ok(EvenNumber(10)), Err(()), 10)
    );
}

#[test]
fn a_circle_survives_the_trip_through_text() {
    let circle = Circle { radius: 65 };
    let text = circle.to_display();
    assert_eq!(text, "Circle of radius 65");
    assert_eq!(Circle::from_str(&text), Ok(Circle { radius: 65 }));
    assert_eq!(Circle::from_str("Circle of radius "), Err(ParseError::Empty));
    assert_eq!(Circle::from_str("Circle of radius"), Err(ParseError::InvalidDigit));
    assert_eq!(Circle::from_str("Circle of radius 99999"), Err(ParseError::Overflow));
    assert_eq!(Circle::from_str("Circle of radius +65"), Ok(Circle { radius: 65 }));
    let (text2, parsed, sum) = display_string_conversion();
    assert_eq!(text2, "Circle of radius 65");
    assert_eq!(parsed, Ok(Circle { radius: 65 }));
    assert_eq!(sum, 50);
}

#[test]
fn block_expressions_build_the_polynomial() {
    assert_eq!(show_expressions(), (5, 155));
}

#[test]
fn guesses_compare_against_the_secret() {
    assert_eq!(guess_outcome(50, 60), GuessOutcome::TooBig);
    assert_eq!(guess_outcome(50, 40), GuessOutcome::TooSmall);
    assert_eq!(guess_outcome(50, 50), GuessOutcome::Win);
}

#[test]
fn a_fresh_game_draws_a_secret_in_bounds() {
    let game = GuessGame::new();
    assert_eq!(game.attempts, 5);
    assert!(1 <= game.secret && game.secret <= 100);
}

#[test]
fn game_rounds_spend_attempts_only_on_wrong_guesses() {
    let mut game = GuessGame { secret: 50, attempts: 2 };
    assert_eq!(game.step(None), StepResult::AskAgain);
    assert_eq!(game.attempts, 2);
    assert_eq!(game.step(Some(60)), StepResult::TooBig);
    assert_eq!(game.attempts, 1);
    assert_eq!(game.step(Some(40)), StepResult::TooSmall);
    assert_eq!(game.attempts, 0);
    assert_eq!(game.step(Some(40)), StepResult::OutOfLuck(50));
    let mut winning = GuessGame { secret: 7, attempts: 5 };
    assert_eq!(winning.step(Some(7)), StepResult::Win);
    assert_eq!(winning.attempts, 5);
}
