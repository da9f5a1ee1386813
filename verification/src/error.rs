//! The error that the connection operations report, and the two forms in
//! which it is shown.
use vstd::prelude::*;
use vstd::string::StringSliceAdditionalSpecFns;
use crate::text::{decimal_text, parse_i32, parsed_i32, radix_string};

verus! {

/// An error of the sqlite3 binding: its message, and the place and error
/// class that raised it.
#[derive(Clone)]
pub struct Sqlite3ConnError {
    pub msg: String,
    pub fname: String,
    pub lineno: u32,
    pub types: String,
}

/// The error class name that the connection errors carry.
pub open spec fn conn_error_class() -> Seq<char> {
    "Sqlite3ConnError"@
}

/// The long form of an error: `[file:line][class]message`.
pub open spec fn detailed_form(fname: Seq<char>, lineno: u32, types: Seq<char>, msg: Seq<char>) -> Seq<char> {
    seq!['['] + fname + seq![':'] + decimal_text(lineno as int) + seq![']', '['] + types + seq![']'] + msg
}

/// Whether the error-level setting asks for the long form: it reads as an
/// `i32` of at least 3.
pub open spec fn shows_detail(level: Option<Seq<u8>>) -> bool {
    match level {
        Some(bytes) => match parsed_i32(bytes) {
            Some(v) => v >= 3,
            None => false,
        },
        None => false,
    }
}

impl Sqlite3ConnError {
    /// An error raised at `fname:lineno` by the class `types`, with message `c`.
    pub fn create(fname: &str, lineno: u32, types: &str, c: &str) -> (e: Sqlite3ConnError)
        ensures
            e.msg@ == c@,
            e.fname@ == fname@,
            e.lineno == lineno,
            e.types@ == types@,
    {
        Sqlite3ConnError {
            msg: c.to_owned(),
            fname: fname.to_owned(),
            lineno: lineno,
            types: types.to_owned(),
        }
    }

    /// A connection error raised at `fname:lineno` with message `c`.
    pub fn connection(fname: &str, lineno: u32, c: &str) -> (e: Sqlite3ConnError)
        ensures
            e.msg@ == c@,
            e.fname@ == fname@,
            e.lineno == lineno,
            e.types@ == conn_error_class(),
    {
        proof { reveal_strlit("Sqlite3ConnError"); }
        Self::create(fname, lineno, "Sqlite3ConnError", c)
    }

    /// The long form `[file:line][class]message`.
    pub fn detailed_text(&self) -> (s: String)
        ensures
            s@ == detailed_form(self.fname@, self.lineno, self.types@, self.msg@),
    {
        let mut s: String = String::new();
        proof {
            reveal_strlit("[");
            reveal_strlit(":");
            reveal_strlit("][");
            reveal_strlit("]");
        }
        s.append("[");
        s.append(self.fname.as_str());
        s.append(":");
        let line: String = radix_string(self.lineno as u64, 10, false);
        s.append(line.as_str());
        s.append("][");
        s.append(self.types.as_str());
        s.append("]");
        s.append(self.msg.as_str());
        assert(s@ =~= detailed_form(self.fname@, self.lineno, self.types@, self.msg@));
        s
    }

    /// How the error is displayed: the long form when the error-level
    /// setting `level` (the variable's text, if it is set) reads as a number
    /// of at least 3, else the message alone.
    pub fn render(&self, level: Option<&str>) -> (s: String)
        ensures
            s@ == (if shows_detail(
                match level {
                    Some(t) => Some(t.spec_bytes()),
                    None => None,
                },
            ) {
                detailed_form(self.fname@, self.lineno, self.types@, self.msg@)
            } else {
                self.msg@
            }),
    {
        let detail: bool = match level {
            Some(t) => match parse_i32(t) {
                Some(v) => v >= 3,
                None => false,
            },
            None => false,
        };
        if detail {
            self.detailed_text()
        } else {
            self.msg.clone()
        }
    }
}

} // verus!
