//! What a call says as it ends for want of a value.
//!
//! A call that finds no value does not return. Whether it then names the
//! place it was made from is a choice fixed when the program is built, and
//! [`Reporting`] is that choice. The text of the message is computed here;
//! capturing the place and ending the thread belong to the caller.

use crate::decimal::{
    decimal, is_digit, lemma_decimal_reads_back, lemma_decimal_shape, push_decimal,
};
use vstd::prelude::*;
use vstd::string::StringExecFns;

verus! {

/// Whether the end of a call names the place the call was made from.
#[derive(Clone, Copy, Debug, PartialEq, Eq, Structural)]
pub enum Reporting {
    /// The call ends without a message.
    Silent,
    /// The call ends with a message that gives file, line and column.
    Located,
}

/// A place in source text: where a call was written.
#[derive(Clone, Copy, Debug)]
pub struct CallSite<'a> {
    /// The file, as the compiler names it.
    pub file: &'a str,
    /// The number of the line.
    pub line: u32,
    /// The number of the column.
    pub column: u32,
}

/// The words that open a located message. The spelling is part of the
/// format: programs that read the message match on it.
pub open spec fn opening() -> Seq<char> {
    seq!['p', 'a', 'n', 'i', 'c', 'e', 'd', ' ', 'a', 't', ' ']
}

/// The message for a call made at `file`, `line` and `column`: the opening
/// words, then the three parts with a colon between them, the numbers as
/// decimal numerals.
pub open spec fn located_text(file: Seq<char>, line: nat, column: nat) -> Seq<char> {
    opening() + file + seq![':'] + decimal(line) + seq![':'] + decimal(column)
}

impl CallSite<'_> {
    /// The message that names this place.
    pub open spec fn message(self) -> Seq<char> {
        located_text(self.file@, self.line as nat, self.column as nat)
    }
}

/// The message that ends a call made at `site`, if there is one.
pub open spec fn message_text(reporting: Reporting, site: CallSite) -> Option<Seq<char>> {
    match reporting {
        Reporting::Silent => None,
        Reporting::Located => Some(site.message()),
    }
}

/// The characters of a message, if there is one.
pub open spec fn message_view(message: Option<String>) -> Option<Seq<char>> {
    match message {
        Some(text) => Some(text@),
        None => None,
    }
}

/// Whether `part` stands in `text` from position `at` on.
pub open spec fn occurs_at(part: Seq<char>, text: Seq<char>, at: int) -> bool {
    &&& 0 <= at
    &&& at + part.len() <= text.len()
    &&& text.subrange(at, at + part.len()) == part
}

/// Whether `part` stands somewhere in `text`, unbroken.
pub open spec fn occurs_in(part: Seq<char>, text: Seq<char>) -> bool {
    exists|at: int| #[trigger] occurs_at(part, text, at)
}

/// Compute the message that ends a call made at `site`.
///
/// With [`Reporting::Silent`] there is none. With [`Reporting::Located`] it
/// is `paniced at `, then file, line and column with a colon between them.
/// Callers pass `reporting` as a constant of their build, so that a silent
/// build carries none of the formatting.
#[inline]
pub fn termination_message(reporting: Reporting, site: &CallSite) -> (message: Option<String>)
    ensures
        message_view(message) == message_text(reporting, *site),
{
    match reporting {
        Reporting::Silent => None,
        Reporting::Located => {
            let mut text = String::from_str("paniced at ");
            proof {
                reveal_strlit("paniced at ");
                reveal_strlit(":");
                assert(text@ =~= opening());
                assert(":"@ =~= seq![':']);
            }
            text.append(site.file);
            text.append(":");
            push_decimal(&mut text, site.line);
            text.append(":");
            push_decimal(&mut text, site.column);
            Some(text)
        },
    }
}

/// A located message holds the file, the line and the column of the call,
/// each unbroken: the file right after the opening words, the line after the
/// colon that follows the file, and the column at the end.
pub proof fn lemma_located_message_names_call_site(site: CallSite)
    ensures
        message_text(Reporting::Located, site) == Some(site.message()),
        occurs_at(site.file@, site.message(), opening().len() as int),
        occurs_at(
            decimal(site.line as nat),
            site.message(),
            (opening().len() + site.file@.len() + 1) as int,
        ),
        occurs_at(
            decimal(site.column as nat),
            site.message(),
            site.message().len() - decimal(site.column as nat).len(),
        ),
        occurs_in(site.file@, site.message()),
        occurs_in(decimal(site.line as nat), site.message()),
        occurs_in(decimal(site.column as nat), site.message()),
{
    let file = site.file@;
    let line = decimal(site.line as nat);
    let column = decimal(site.column as nat);
    let text = site.message();
    let file_at = opening().len() as int;
    let line_at = file_at + file.len() + 1;
    let column_at = text.len() - column.len();
    assert(text.subrange(file_at, file_at + file.len()) =~= file);
    assert(text.subrange(line_at, line_at + line.len()) =~= line);
    assert(text.subrange(column_at, column_at + column.len()) =~= column);
    assert(occurs_at(file, text, file_at));
    assert(occurs_at(line, text, line_at));
    assert(occurs_at(column, text, column_at));
}

/// Two texts that each end in a colon and a run of digits are equal only if
/// the runs are equal and what stands before the colons is equal.
proof fn lemma_split_at_last_colon(
    before: Seq<char>,
    digits: Seq<char>,
    other_before: Seq<char>,
    other_digits: Seq<char>,
)
    requires
        before + seq![':'] + digits == other_before + seq![':'] + other_digits,
        forall|i: int| 0 <= i < digits.len() ==> is_digit(#[trigger] digits[i]),
        forall|i: int| 0 <= i < other_digits.len() ==> is_digit(#[trigger] other_digits[i]),
    ensures
        before == other_before,
        digits == other_digits,
{
    let text = before + seq![':'] + digits;
    let other_text = other_before + seq![':'] + other_digits;
    assert(text.len() == before.len() + 1 + digits.len());
    assert(other_text.len() == other_before.len() + 1 + other_digits.len());
    if digits.len() < other_digits.len() {
        let colon_at = before.len() as int;
        assert(text[colon_at] == ':');
        assert(other_text[colon_at] == other_digits[colon_at - other_before.len() - 1]);
        assert(is_digit(other_digits[colon_at - other_before.len() - 1]));
        assert(false);
    } else if other_digits.len() < digits.len() {
        let colon_at = other_before.len() as int;
        assert(other_text[colon_at] == ':');
        assert(text[colon_at] == digits[colon_at - before.len() - 1]);
        assert(is_digit(digits[colon_at - before.len() - 1]));
        assert(false);
    } else {
        assert forall|i: int| 0 <= i < before.len() implies before[i] == other_before[i] by {
            assert(text[i] == before[i]);
            assert(other_text[i] == other_before[i]);
        }
        assert(before =~= other_before);
        assert forall|i: int| 0 <= i < digits.len() implies digits[i] == other_digits[i] by {
            assert(text[before.len() + 1 + i] == digits[i]);
            assert(other_text[before.len() + 1 + i] == other_digits[i]);
        }
        assert(digits =~= other_digits);
    }
}

/// A located message fixes the place of the call: two places with the same
/// message have the same file, the same line and the same column.
pub proof fn lemma_located_message_fixes_call_site(one: CallSite, other: CallSite)
    requires
        message_text(Reporting::Located, one) == message_text(Reporting::Located, other),
    ensures
        one.file@ == other.file@,
        one.line == other.line,
        one.column == other.column,
{
    let line = decimal(one.line as nat);
    let other_line = decimal(other.line as nat);
    let column = decimal(one.column as nat);
    let other_column = decimal(other.column as nat);
    lemma_decimal_shape(one.line as nat);
    lemma_decimal_shape(other.line as nat);
    lemma_decimal_shape(one.column as nat);
    lemma_decimal_shape(other.column as nat);
    lemma_split_at_last_colon(
        opening() + one.file@ + seq![':'] + line,
        column,
        opening() + other.file@ + seq![':'] + other_line,
        other_column,
    );
    lemma_split_at_last_colon(
        opening() + one.file@,
        line,
        opening() + other.file@,
        other_line,
    );
    lemma_decimal_reads_back(one.line as nat);
    lemma_decimal_reads_back(other.line as nat);
    lemma_decimal_reads_back(one.column as nat);
    lemma_decimal_reads_back(other.column as nat);
    assert(one.file@ =~= other.file@) by {
        let head = opening().len() as int;
        assert forall|i: int| 0 <= i < one.file@.len() implies one.file@[i] == other.file@[i] by {
            assert((opening() + one.file@)[head + i] == one.file@[i]);
            assert((opening() + other.file@)[head + i] == other.file@[i]);
        }
        assert((opening() + one.file@).len() == head + one.file@.len());
        assert((opening() + other.file@).len() == head + other.file@.len());
    }
}

/// With reporting off no message is made, so nothing of the place of the
/// call reaches the end of it: any two places give the same outcome.
pub proof fn lemma_silent_says_nothing(one: CallSite, other: CallSite)
    ensures
        message_text(Reporting::Silent, one) is None,
        message_text(Reporting::Silent, one) == message_text(Reporting::Silent, other),
{
}

} // verus!
