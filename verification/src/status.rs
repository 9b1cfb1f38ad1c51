//! HTTP status codes, as far as this tool reads them.

use vstd::prelude::*;

verus! {

/// A status code of the success class, 200 to 299.
pub open spec fn status_is_success(status: u16) -> bool {
    200 <= status < 300
}

/// Whether `status` is a code of the success class.
pub fn is_success(status: u16) -> (ok: bool)
    ensures
        ok == status_is_success(status),
{
    200 <= status && status < 300
}

/// The character of a decimal digit.
pub open spec fn digit_char(d: nat) -> char {
    if d == 0 {
        '0'
    } else if d == 1 {
        '1'
    } else if d == 2 {
        '2'
    } else if d == 3 {
        '3'
    } else if d == 4 {
        '4'
    } else if d == 5 {
        '5'
    } else if d == 6 {
        '6'
    } else if d == 7 {
        '7'
    } else if d == 8 {
        '8'
    } else {
        '9'
    }
}

/// A number in decimal, most significant digit first, without leading
/// zeros; zero is the single digit `0`.
pub open spec fn decimal(n: nat) -> Seq<char>
    decreases n,
{
    if n < 10 {
        seq![digit_char(n)]
    } else {
        decimal(n / 10).push(digit_char(n % 10))
    }
}

/// The one-character string of a decimal digit.
fn digit_str(d: u16) -> (s: &'static str)
    requires
        d < 10,
    ensures
        s@ == seq![digit_char(d as nat)],
{
    proof {
        reveal_strlit("0");
        reveal_strlit("1");
        reveal_strlit("2");
        reveal_strlit("3");
        reveal_strlit("4");
        reveal_strlit("5");
        reveal_strlit("6");
        reveal_strlit("7");
        reveal_strlit("8");
        reveal_strlit("9");
    }
    let s = if d == 0 {
        "0"
    } else if d == 1 {
        "1"
    } else if d == 2 {
        "2"
    } else if d == 3 {
        "3"
    } else if d == 4 {
        "4"
    } else if d == 5 {
        "5"
    } else if d == 6 {
        "6"
    } else if d == 7 {
        "7"
    } else if d == 8 {
        "8"
    } else {
        "9"
    };
    assert(s@ =~= seq![digit_char(d as nat)]);
    s
}

/// The status code in decimal.
pub fn decimal_string(n: u16) -> (text: String)
    ensures
        text@ == decimal(n as nat),
    decreases n,
{
    if n < 10 {
        digit_str(n).to_owned()
    } else {
        let mut text = decimal_string(n / 10);
        let ghost head = text@;
        text.append(digit_str(n % 10));
        assert(text@ =~= head.push(digit_char((n % 10) as nat)));
        text
    }
}

/// The listing request was answered with a status that is no success.
#[derive(Debug, Clone, PartialEq, Eq)]
pub struct HttpStatusError {
    /// The status code of the response.
    pub status: u16,
}

/// The text of the message for a listing that failed with `status`.
pub open spec fn status_message(status: u16) -> Seq<char> {
    "Failed to fetch templates: "@ + decimal(status as nat)
}

impl HttpStatusError {
    /// The message to show for this error; it ends in the status code.
    pub fn message(&self) -> (text: String)
        ensures
            text@ == status_message(self.status),
    {
        let mut text = "Failed to fetch templates: ".to_owned();
        let code = decimal_string(self.status);
        text.append(code.as_str());
        text
    }
}

/// Accepts the status of the listing response, or reports it: a status
/// outside the success class fails the listing before its body is read.
pub fn check_listing_status(status: u16) -> (r: Result<(), HttpStatusError>)
    ensures
        status_is_success(status) ==> r is Ok,
        !status_is_success(status) ==> r == Err::<(), HttpStatusError>(
            (HttpStatusError { status }),
        ),
{
    if is_success(status) {
        Ok(())
    } else {
        Err(HttpStatusError { status })
    }
}

} // verus!
