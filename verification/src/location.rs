//! The place in the source where a frame was attached.

use vstd::prelude::*;
use vstd::string::*;
use crate::text::{decimal, render_decimal};

verus! {

/// A call site: file, line and column.
#[derive(Clone, Copy, Debug)]
pub struct Location {
    pub file: &'static str,
    pub line: u32,
    pub column: u32,
}

/// What a [`Location`] holds, with the file name as a sequence of
/// characters.
pub ghost struct LocationView {
    pub file: Seq<char>,
    pub line: nat,
    pub column: nat,
}

impl LocationView {
    /// The text `file:line:column`.
    pub open spec fn rendered(self) -> Seq<char> {
        self.file + seq![':'] + decimal(self.line) + seq![':'] + decimal(self.column)
    }
}

impl View for Location {
    type V = LocationView;

    open spec fn view(&self) -> LocationView {
        LocationView { file: self.file@, line: self.line as nat, column: self.column as nat }
    }
}

impl Location {
    /// A location from its three parts.
    pub fn new(file: &'static str, line: u32, column: u32) -> (location: Location)
        ensures
            location == (Location { file, line, column }),
    {
        Location { file, line, column }
    }

    /// The file's name.
    pub fn file(&self) -> (file: &'static str)
        ensures
            file == self.file,
    {
        self.file
    }

    /// The line, counted from 1.
    pub fn line(&self) -> (line: u32)
        ensures
            line == self.line,
    {
        self.line
    }

    /// The column, counted from 1.
    pub fn column(&self) -> (column: u32)
        ensures
            column == self.column,
    {
        self.column
    }

    /// Renders the location as `file:line:column`.
    pub fn render(&self) -> (s: String)
        ensures
            s@ == self@.rendered(),
    {
        proof {
            reveal_strlit(":");
        }
        let mut s = String::from_str(self.file);
        s.append(":");
        let line = render_decimal(self.line as u64);
        s.append(line.as_str());
        s.append(":");
        let column = render_decimal(self.column as u64);
        s.append(column.as_str());
        assert(":"@ =~= seq![':']);
        s
    }
}

} // verus!
