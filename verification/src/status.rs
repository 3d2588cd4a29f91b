//! HTTP status codes, as the bridge reads them.

use vstd::prelude::*;

verus! {

/// The text that `reqwest::StatusCode` prints for a code: the number, a space
/// and the code's canonical reason phrase.
pub uninterp spec fn status_line(code: u16) -> Seq<char>;

/// The decimal digit for `d`, for `d` from 0 to 9.
pub open spec fn digit_char(d: int) -> char {
    if d == 0 {
        '0'
    } else if d == 1 {
        '1'
    } else if d == 2 {
        '2'
    } else if d == 3 {
        '3'
    } else if d == 4 {
        '4'
    } else if d == 5 {
        '5'
    } else if d == 6 {
        '6'
    } else if d == 7 {
        '7'
    } else if d == 8 {
        '8'
    } else {
        '9'
    }
}

/// The three decimal digits of a status code.
pub open spec fn code_digits(code: u16) -> Seq<char> {
    seq![
        digit_char(code as int / 100),
        digit_char((code as int / 10) % 10),
        digit_char(code as int % 10),
    ]
}

/// Whether a printed line opens with the digits of `code` and a space.
pub open spec fn opens_with_code(line: Seq<char>, code: u16) -> bool {
    &&& line.len() >= 4
    &&& line.subrange(0, 3) == code_digits(code)
    &&& line[3] == ' '
}

/// Whether a code lies in the success class, 200 to 299.
pub open spec fn is_success_code(code: u16) -> bool {
    200 <= code <= 299
}

/// Calls `reqwest::StatusCode::is_success` on the status with this code.
/// Trusted: the answer is true exactly for the codes 200 to 299.
#[verifier::external_body]
fn success_class(code: u16) -> (ok: bool)
    requires
        100 <= code <= 999,
    ensures
        ok == is_success_code(code),
{
    match reqwest::StatusCode::from_u16(code) {
        Ok(status) => status.is_success(),
        Err(_) => false,
    }
}

/// Prints the status with this code through `reqwest::StatusCode`'s `Display`.
/// Trusted: the text is a function of the code alone, and it opens with the
/// code's three digits followed by a space.
#[verifier::external_body]
fn printed(code: u16) -> (line: String)
    requires
        100 <= code <= 999,
    ensures
        line@ == status_line(code),
        opens_with_code(line@, code),
{
    match reqwest::StatusCode::from_u16(code) {
        Ok(status) => status.to_string(),
        Err(_) => String::new(),
    }
}

/// A three-digit HTTP status code.
#[derive(Clone, Copy, Debug)]
pub struct HttpStatus {
    code: u16,
}

impl HttpStatus {
    #[verifier::type_invariant]
    spec fn in_range(self) -> bool {
        100 <= self.code <= 999
    }

    /// The numeric code.
    pub closed spec fn code(self) -> u16 {
        self.code
    }

    /// Accepts the codes 100 to 999 and no others.
    pub fn from_u16(code: u16) -> (status: Option<HttpStatus>)
        ensures
            status is Some <==> 100 <= code <= 999,
            status matches Some(s) ==> s.code() == code,
    {
        if 100 <= code && code <= 999 {
            Some(HttpStatus { code })
        } else {
            None
        }
    }

    /// The numeric code, always three digits.
    pub fn as_u16(&self) -> (code: u16)
        ensures
            code == self.code(),
            100 <= code <= 999,
    {
        proof {
            use_type_invariant(self);
        }
        self.code
    }

    /// Whether the status reports success (2xx).
    pub fn is_success(&self) -> (ok: bool)
        ensures
            ok == is_success_code(self.code()),
    {
        proof {
            use_type_invariant(self);
        }
        success_class(self.code)
    }

    /// The status as it is printed in error details, such as
    /// `500 Internal Server Error`.
    pub fn to_string(&self) -> (line: String)
        ensures
            line@ == status_line(self.code()),
            opens_with_code(line@, self.code()),
    {
        proof {
            use_type_invariant(self);
        }
        printed(self.code)
    }
}

} // verus!
