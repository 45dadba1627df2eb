//! Comma-separated lines parsed into rows of trimmed fields.
use crate::text::{csv_field, split_csv_line, split_fields};
use vstd::prelude::*;

verus! {

/// Splits every line at its commas and strips whitespace from every
/// field, keeping the lines in order.
pub fn parse_csv(lines: &Vec<String>) -> (r: Vec<Vec<String>>)
    ensures
        r@.len() == lines@.len(),
        forall|i: int|
            0 <= i < r@.len() ==> #[trigger] r@[i]@.len() == split_fields(lines@[i]@, ',').len(),
        forall|i: int, j: int|
            0 <= i < r@.len() && 0 <= j < r@[i]@.len() ==> #[trigger] r@[i]@[j]@ == csv_field(
                lines@[i]@,
                j,
            ),
{
    let mut r: Vec<Vec<String>> = Vec::new();
    let line_count = lines.len();
    for i in 0..line_count
        invariant
            line_count == lines@.len(),
            r@.len() == i,
            forall|k: int| 0 <= k < i ==> #[trigger] r@[k]@.len() == split_fields(lines@[k]@, ',').len(),
            forall|k: int, j: int|
                0 <= k < i && 0 <= j < r@[k]@.len() ==> #[trigger] r@[k]@[j]@ == csv_field(
                    lines@[k]@,
                    j,
                ),
    {
        r.push(split_csv_line(lines[i].as_str()));
    }
    r
}

/// The same parse, written against any source of lines; it reads them
/// one after the other exactly as `parse_csv` does.
pub fn parse_csv_document(lines: &Vec<String>) -> (r: Vec<Vec<String>>)
    ensures
        r@.len() == lines@.len(),
        forall|i: int|
            0 <= i < r@.len() ==> #[trigger] r@[i]@.len() == split_fields(lines@[i]@, ',').len(),
        forall|i: int, j: int|
            0 <= i < r@.len() && 0 <= j < r@[i]@.len() ==> #[trigger] r@[i]@[j]@ == csv_field(
                lines@[i]@,
                j,
            ),
{
    parse_csv(lines)
}

} // verus!
