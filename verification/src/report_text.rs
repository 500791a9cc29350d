//! The fixed text of the command reports: the banner that opens a report
//! and the heading of each of its sections.
use vstd::prelude::*;
use crate::text::{push_repeated, push_str, repeat_char};

verus! {

/// A report banner: `title` between two rules of `width` `=` characters,
/// each on a line of its own.
pub open spec fn banner(title: Seq<char>, width: nat) -> Seq<char> {
    repeat_char('=', width) + "\n"@ + title + "\n"@ + repeat_char('=', width) + "\n"@
}

/// A section heading: a blank line, `title`, and a rule of `width` `-`
/// characters.
pub open spec fn section(title: Seq<char>, width: nat) -> Seq<char> {
    "\n"@ + title + "\n"@ + repeat_char('-', width) + "\n"@
}

/// The banner of a report titled `title`, `width` characters wide (as
/// `println!("{}", "=".repeat(width))`, the title, and the rule again print
/// it).
pub fn report_header(title: &str, width: usize) -> (r: String)
    ensures
        r@ == banner(title@, width as nat),
{
    let mut r = String::new();
    push_repeated(&mut r, '=', width);
    push_str(&mut r, "\n");
    push_str(&mut r, title);
    push_str(&mut r, "\n");
    push_repeated(&mut r, '=', width);
    push_str(&mut r, "\n");
    assert(r@ =~= banner(title@, width as nat));
    r
}

/// The heading of a report section titled `title` with a rule `width`
/// characters wide.
pub fn section_heading(title: &str, width: usize) -> (r: String)
    ensures
        r@ == section(title@, width as nat),
{
    let mut r = String::new();
    push_str(&mut r, "\n");
    push_str(&mut r, title);
    push_str(&mut r, "\n");
    push_repeated(&mut r, '-', width);
    push_str(&mut r, "\n");
    assert(r@ =~= section(title@, width as nat));
    r
}

} // verus!
