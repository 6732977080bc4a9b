//! A person as the model reads it from the `persons` table.

use vstd::prelude::*;
use crate::text::{decimal, decimal_string, pad_left, pad_right, push_padded_left, push_padded_right};

verus! {

/// One row of the `persons` table.
#[derive(Debug)]
pub struct Person {
    pub id: u64,
    pub name: String,
    pub age: u8,
    pub state: String,
}

/// The separator between the columns of a row.
pub open spec fn column_separator() -> Seq<char> {
    seq![' ', '|', ' ']
}

/// A person as one line of a table: the id right-aligned in 8 characters,
/// the name left-aligned in 16, the age right-aligned in 4 and the state
/// left-aligned in 16, separated by " | ". A value longer than its column
/// is written whole.
pub open spec fn row_text(id: u64, name: Seq<char>, age: u8, state: Seq<char>) -> Seq<char> {
    pad_left(decimal(id as nat), 8) + column_separator()
        + pad_right(name, 16) + column_separator()
        + pad_left(decimal(age as nat), 4) + column_separator()
        + pad_right(state, 16)
}

impl Person {
    /// A person from the columns of a row; a row without a readable
    /// `state` column gets the empty state.
    pub fn from_columns(id: u64, name: String, age: u8, state: Option<String>) -> (p: Person)
        ensures
            p.id == id,
            p.name@ == name@,
            p.age == age,
            p.state@ == (match state {
                Some(s) => s@,
                None => Seq::<char>::empty(),
            }),
    {
        let state = match state {
            Some(s) => s,
            None => String::new(),
        };
        Person { id, name, age, state }
    }

    /// The person as one line of the persons table (see `row_text`).
    pub fn format_row(&self) -> (row: String)
        ensures
            row@ == row_text(self.id, self.name@, self.age, self.state@),
    {
        proof { reveal_strlit(" | "); }
        let mut row = String::new();
        let id = decimal_string(self.id);
        push_padded_left(&mut row, id.as_str(), 8);
        row.append(" | ");
        push_padded_right(&mut row, self.name.as_str(), 16);
        row.append(" | ");
        let age = decimal_string(self.age as u64);
        push_padded_left(&mut row, age.as_str(), 4);
        row.append(" | ");
        push_padded_right(&mut row, self.state.as_str(), 16);
        assert(row@ =~= row_text(self.id, self.name@, self.age, self.state@));
        row
    }
}

} // verus!
