//! The result code that every sqlite3 entry point hands back, and the
//! constants the connection logic compares it against.
use vstd::prelude::*;
use crate::text::{bit_pattern, bit_pattern_32, decimal_string, decimal_text, radix_digits, radix_string};
use vstd::std_specs::cmp::PartialEqSpecImpl;
use vstd::std_specs::cmp::PartialEqSpec;

verus! {

/// A result code returned by the sqlite3 C API (`SQLITE_OK`, `SQLITE_ERROR`, ...).
#[allow(non_camel_case_types)]
pub struct SQLITE_RESULT(pub i32);

/// The code sqlite3 returns on success.
pub const SQLITE3_OK_CODE: i32 = 0;

/// `SQLITE_OPEN_READWRITE`.
pub const SQLITE_OPEN_READWRITE: i32 = 2;

/// `SQLITE_OPEN_CREATE`.
pub const SQLITE_OPEN_CREATE: i32 = 4;

impl SQLITE_RESULT {
    /// The success code.
    pub fn ok() -> (r: SQLITE_RESULT)
        ensures
            r.0 == SQLITE3_OK_CODE,
    {
        SQLITE_RESULT(SQLITE3_OK_CODE)
    }

    /// The code in decimal, as its `Display` and `Debug` forms print it.
    pub fn display_text(&self) -> (s: String)
        ensures
            s@ == decimal_text(self.0 as int),
    {
        decimal_string(self.0)
    }

    /// The code in binary, as its `Binary` form prints it (two's complement
    /// bits for a negative code).
    pub fn binary_text(&self) -> (s: String)
        ensures
            s@ == radix_digits(bit_pattern_32(self.0 as int), 2, false),
    {
        radix_string(bit_pattern(self.0), 2, false)
    }

    /// The code in octal, as its `Octal` form prints it.
    pub fn octal_text(&self) -> (s: String)
        ensures
            s@ == radix_digits(bit_pattern_32(self.0 as int), 8, false),
    {
        radix_string(bit_pattern(self.0), 8, false)
    }

    /// The code in lower-case hexadecimal, as its `LowerHex` form prints it.
    pub fn lower_hex_text(&self) -> (s: String)
        ensures
            s@ == radix_digits(bit_pattern_32(self.0 as int), 16, false),
    {
        radix_string(bit_pattern(self.0), 16, false)
    }

    /// The code in upper-case hexadecimal, as its `UpperHex` form prints it.
    pub fn upper_hex_text(&self) -> (s: String)
        ensures
            s@ == radix_digits(bit_pattern_32(self.0 as int), 16, true),
    {
        radix_string(bit_pattern(self.0), 16, true)
    }

    /// Whether this code reports success.
    pub fn is_ok(&self) -> (b: bool)
        ensures
            b == (self.0 == SQLITE3_OK_CODE),
    {
        self.0 == SQLITE3_OK_CODE
    }
}

impl PartialEq for SQLITE_RESULT {
    fn eq(&self, others: &SQLITE_RESULT) -> (r: bool) {
        self.0 == others.0
    }

    fn ne(&self, others: &SQLITE_RESULT) -> (r: bool) {
        !self.eq(others)
    }
}

impl PartialEqSpecImpl for SQLITE_RESULT {
    open spec fn obeys_eq_spec() -> bool {
        true
    }

    open spec fn eq_spec(&self, other: &SQLITE_RESULT) -> bool {
        self.0 == other.0
    }
}

/// Two result codes compare equal exactly when their numbers do, and `!=`
/// is the negation of `==`; equality is reflexive, symmetric and transitive.
pub proof fn result_code_equality(a: SQLITE_RESULT, b: SQLITE_RESULT, c: SQLITE_RESULT)
    ensures
        PartialEqSpec::eq_spec(&a, &b) <==> a.0 == b.0,
        PartialEqSpec::eq_spec(&a, &a),
        PartialEqSpec::eq_spec(&a, &b) ==> PartialEqSpec::eq_spec(&b, &a),
        PartialEqSpec::eq_spec(&a, &b) && PartialEqSpec::eq_spec(&b, &c) ==> PartialEqSpec::eq_spec(&a, &c),
{
}

/// The flags of the first open attempt: read-write, creating the file if needed.
pub fn open_create_flags() -> (f: i32)
    ensures
        f == 6,
{
    let f: i32 = SQLITE_OPEN_READWRITE | SQLITE_OPEN_CREATE;
    assert(2i32 | 4i32 == 6i32) by (bit_vector);
    f
}

} // verus!
