//! Identifier aliases shared by every model of the crate, and the plain
//! calendar timestamp used in date-range query parameters.
use vstd::prelude::*;

use crate::text::pad2;
use crate::text::pad4;
use crate::text::push_char;
use crate::text::push_pad2;
use crate::text::push_pad4;

verus! {

pub type PlayerId = i64;

pub type GroupId = i64;

pub type CompetitionId = i64;

pub type RecordId = i64;

pub type Username = String;

pub type GroupName = String;

/// A point in time in UTC, held as plain calendar fields. The embedding
/// application converts from whatever date representation it uses.
#[derive(Debug, Clone, Copy, PartialEq, Eq, Structural)]
pub struct Timestamp {
    pub year: u32,
    pub month: u32,
    pub day: u32,
    pub hour: u32,
    pub minute: u32,
    pub second: u32,
}

impl Timestamp {
    /// The `YYYY-MM-DD HH:MM:SS` rendering the upstream service expects in
    /// date query parameters.
    pub open spec fn format_spec(self) -> Seq<char> {
        pad4(self.year as nat) + seq!['-'] + pad2(self.month as nat) + seq!['-'] + pad2(
            self.day as nat,
        ) + seq![' '] + pad2(self.hour as nat) + seq![':'] + pad2(self.minute as nat) + seq![':']
            + pad2(self.second as nat)
    }

    /// Renders this timestamp as a date query-parameter value.
    pub fn to_query_value(&self) -> (r: String)
        ensures
            r@ == self.format_spec(),
    {
        let mut out = String::new();
        push_pad4(&mut out, self.year);
        push_char(&mut out, '-');
        push_pad2(&mut out, self.month);
        push_char(&mut out, '-');
        push_pad2(&mut out, self.day);
        push_char(&mut out, ' ');
        push_pad2(&mut out, self.hour);
        push_char(&mut out, ':');
        push_pad2(&mut out, self.minute);
        push_char(&mut out, ':');
        push_pad2(&mut out, self.second);
        out
    }
}

} // verus!
