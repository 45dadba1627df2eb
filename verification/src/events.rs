//! Enum demonstrations: a web event classified by variant, a verbose
//! enum behind a type alias, variants brought into scope with `use`,
//! days of the week numbered in order, and colours with fixed values.
use crate::decimal::{int_chars, render_i64};
use crate::text::push_char;
use vstd::prelude::*;

verus! {

// The variant names are brought into scope once so the matches below
// can use them without manual scoping.
use crate::events::Status::Poor;
use crate::events::Status::Rich;
use crate::events::Work::Civilian;
use crate::events::Work::Soldier;

/// A web event; names and payload types together pick the variant.
pub enum WebEvent {
    PageLoad,
    PageUnload,
    KeyPress(char),
    Paste(String),
    Click { x: i64, y: i64 },
}

/// The line `inspect` reports for an event.
pub open spec fn event_chars(e: WebEvent) -> Seq<char> {
    match e {
        WebEvent::PageLoad => "page loaded"@,
        WebEvent::PageUnload => "page unloaded"@,
        WebEvent::KeyPress(c) => "pressed '"@ + seq![c] + "'."@,
        WebEvent::Paste(s) => "pasted \""@ + s@ + "\"."@,
        WebEvent::Click { x, y } => "clicked at x="@ + int_chars(x as int) + ", y="@ + int_chars(
            y as int,
        ) + "."@,
    }
}

/// Destructures an event and says what happened.
pub fn inspect(event: WebEvent) -> (r: String)
    ensures
        r@ == event_chars(event),
{
    match event {
        WebEvent::PageLoad => String::from_str("page loaded"),
        WebEvent::PageUnload => String::from_str("page unloaded"),
        WebEvent::KeyPress(c) => {
            let mut line = String::from_str("pressed '");
            push_char(&mut line, c);
            line.append("'.");
            line
        },
        WebEvent::Paste(s) => {
            let mut line = String::from_str("pasted \"");
            line.append(s.as_str());
            line.append("\".");
            line
        },
        WebEvent::Click { x, y } => {
            let mut line = String::from_str("clicked at x=");
            line.append(render_i64(x).as_str());
            line.append(", y=");
            line.append(render_i64(y).as_str());
            line.append(".");
            line
        },
    }
}

/// An enum whose long name is eased by the `Operations` alias.
pub enum VeryVerboseEnumOfThingsToDoWithNumbers {
    Add,
    Subtract,
}

pub type Operations = VeryVerboseEnumOfThingsToDoWithNumbers;

impl VeryVerboseEnumOfThingsToDoWithNumbers {
    /// Applies the operation the variant names.
    pub fn run(&self, x: i32, y: i32) -> (r: i32)
        requires
            self is Add ==> i32::MIN <= x + y <= i32::MAX,
            self is Subtract ==> i32::MIN <= x - y <= i32::MAX,
        ensures
            r == (match *self {
                VeryVerboseEnumOfThingsToDoWithNumbers::Add => x + y,
                VeryVerboseEnumOfThingsToDoWithNumbers::Subtract => x - y,
            }),
    {
        match self {
            Self::Add => x + y,
            Self::Subtract => x - y,
        }
    }
}

pub enum Status {
    Rich,
    Poor,
}

pub enum Work {
    Civilian,
    Soldier,
}

/// Matches a status and a line of work brought into scope by `use`,
/// and reports the line each match picks.
pub fn display_using_use() -> (r: (&'static str, &'static str))
    ensures
        r.0@ == "we go make am"@,
        r.1@ == "civilian work"@,
{
    let status = Poor;
    let work = Civilian;
    let status_line: &'static str = match status {
        Rich => "Rich guys!",
        Poor => "we go make am",
    };
    let work_line: &'static str = match work {
        Civilian => "civilian work",
        Soldier => "soldier work",
    };
    (status_line, work_line)
}

/// The days of the week, numbered implicitly from zero.
pub enum DaysOfTheWeek {
    Sunday,
    Monday,
    Tuesday,
    Wednesday,
    Thursday,
    Friday,
    Saturday,
}

/// The position of a day in the week, Sunday first.
pub open spec fn day_index(d: DaysOfTheWeek) -> u32 {
    match d {
        DaysOfTheWeek::Sunday => 0,
        DaysOfTheWeek::Monday => 1,
        DaysOfTheWeek::Tuesday => 2,
        DaysOfTheWeek::Wednesday => 3,
        DaysOfTheWeek::Thursday => 4,
        DaysOfTheWeek::Friday => 5,
        DaysOfTheWeek::Saturday => 6,
    }
}

impl DaysOfTheWeek {
    /// The number of this day, counting Sunday as zero.
    pub fn day_number(&self) -> (r: u32)
        ensures
            r == day_index(*self),
    {
        match self {
            DaysOfTheWeek::Sunday => 0,
            DaysOfTheWeek::Monday => 1,
            DaysOfTheWeek::Tuesday => 2,
            DaysOfTheWeek::Wednesday => 3,
            DaysOfTheWeek::Thursday => 4,
            DaysOfTheWeek::Friday => 5,
            DaysOfTheWeek::Saturday => 6,
        }
    }
}

/// Numbers every day of the week in order.
pub fn display_days_of_the_week() -> (r: Vec<u32>)
    ensures
        r@ == seq![0u32, 1u32, 2u32, 3u32, 4u32, 5u32, 6u32],
{
    let mut r: Vec<u32> = Vec::new();
    r.push(DaysOfTheWeek::Sunday.day_number());
    r.push(DaysOfTheWeek::Monday.day_number());
    r.push(DaysOfTheWeek::Tuesday.day_number());
    r.push(DaysOfTheWeek::Wednesday.day_number());
    r.push(DaysOfTheWeek::Thursday.day_number());
    r.push(DaysOfTheWeek::Friday.day_number());
    r.push(DaysOfTheWeek::Saturday.day_number());
    proof {
        assert(r@ =~= seq![0u32, 1u32, 2u32, 3u32, 4u32, 5u32, 6u32]);
    }
    r
}

/// Colours with the packed red-green-blue value each one stands for.
pub enum Color {
    Red,
    Green,
    Blue,
}

impl Color {
    /// The packed red-green-blue value of this colour.
    pub fn rgb_value(&self) -> (r: u32)
        ensures
            r == (match *self {
                Color::Red => 0xff0000u32,
                Color::Green => 0x00ff00u32,
                Color::Blue => 0x0000ffu32,
            }),
    {
        match self {
            Color::Red => 0xff0000,
            Color::Green => 0x00ff00,
            Color::Blue => 0x0000ff,
        }
    }
}

/// The packed values of the two colours the verses name.
pub fn display_colour() -> (r: (u32, u32))
    ensures
        r == (0xff0000u32, 0x0000ffu32),
{
    (Color::Red.rgb_value(), Color::Blue.rgb_value())
}

} // verus!
