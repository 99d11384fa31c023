//! The strings the flow produces: the provider URL and the messages.

use vstd::prelude::*;
use vstd::string::*;
use crate::models::AuthError;

verus! {

/// The decimal digit for `d`, where `d < 10`.
pub open spec fn digit_char(d: nat) -> char {
    if d == 0 {
        '0'
    } else if d == 1 {
        '1'
    } else if d == 2 {
        '2'
    } else if d == 3 {
        '3'
    } else if d == 4 {
        '4'
    } else if d == 5 {
        '5'
    } else if d == 6 {
        '6'
    } else if d == 7 {
        '7'
    } else if d == 8 {
        '8'
    } else {
        '9'
    }
}

/// `n` in decimal, most significant digit first, without leading zeros.
pub open spec fn spec_decimal(n: nat) -> Seq<char>
    decreases n,
{
    if n < 10 {
        seq![digit_char(n)]
    } else {
        spec_decimal(n / 10).push(digit_char(n % 10))
    }
}

fn digit_str(d: u64) -> (s: &'static str)
    requires
        d < 10,
    ensures
        s@ == seq![digit_char(d as nat)],
{
    proof {
        reveal_strlit("0");
        reveal_strlit("1");
        reveal_strlit("2");
        reveal_strlit("3");
        reveal_strlit("4");
        reveal_strlit("5");
        reveal_strlit("6");
        reveal_strlit("7");
        reveal_strlit("8");
        reveal_strlit("9");
        assert("0"@ =~= seq!['0']);
        assert("1"@ =~= seq!['1']);
        assert("2"@ =~= seq!['2']);
        assert("3"@ =~= seq!['3']);
        assert("4"@ =~= seq!['4']);
        assert("5"@ =~= seq!['5']);
        assert("6"@ =~= seq!['6']);
        assert("7"@ =~= seq!['7']);
        assert("8"@ =~= seq!['8']);
        assert("9"@ =~= seq!['9']);
    }
    if d == 0 {
        "0"
    } else if d == 1 {
        "1"
    } else if d == 2 {
        "2"
    } else if d == 3 {
        "3"
    } else if d == 4 {
        "4"
    } else if d == 5 {
        "5"
    } else if d == 6 {
        "6"
    } else if d == 7 {
        "7"
    } else if d == 8 {
        "8"
    } else {
        "9"
    }
}

/// Writes `n` in decimal.
pub fn decimal(n: u64) -> (s: String)
    ensures
        s@ == spec_decimal(n as nat),
    decreases n,
{
    if n < 10 {
        String::from_str(digit_str(n))
    } else {
        let mut s = decimal(n / 10);
        let d = digit_str(n % 10);
        s.append(d);
        assert(s@ =~= spec_decimal((n / 10) as nat).push(digit_char((n % 10) as nat)));
        s
    }
}

/// The provider's introspection address for `token`: the token follows the
/// fixed prefix as it is.
pub open spec fn spec_verification_url(token: Seq<char>) -> Seq<char> {
    "https://oauth2.googleapis.com/tokeninfo?id_token="@ + token
}

pub fn verification_url(id_token: &str) -> (url: String)
    ensures
        url@ == spec_verification_url(id_token@),
{
    let mut url = String::from_str("https://oauth2.googleapis.com/tokeninfo?id_token=");
    url.append(id_token);
    url
}

/// What the caller is told for each failure. The text never carries detail
/// of the underlying error.
pub open spec fn spec_failure_message(error: AuthError) -> Seq<char> {
    match error {
        AuthError::InvalidToken => "Invalid Token"@,
        AuthError::UserStorageFailure => "Failed to save user"@,
        AuthError::SessionStorageFailure => "Failed to create session"@,
        AuthError::ExpiryOutOfRange => "Failed to create session"@,
        AuthError::ProviderUnreachable => "Authentication error"@,
        AuthError::MalformedClaims => "Authentication error"@,
        AuthError::UnexpectedEvent => "Authentication error"@,
    }
}

pub fn failure_message(error: AuthError) -> (message: String)
    ensures
        message@ == spec_failure_message(error),
{
    match error {
        AuthError::InvalidToken => String::from_str("Invalid Token"),
        AuthError::UserStorageFailure => String::from_str("Failed to save user"),
        AuthError::SessionStorageFailure => String::from_str("Failed to create session"),
        AuthError::ExpiryOutOfRange => String::from_str("Failed to create session"),
        AuthError::ProviderUnreachable => String::from_str("Authentication error"),
        AuthError::MalformedClaims => String::from_str("Authentication error"),
        AuthError::UnexpectedEvent => String::from_str("Authentication error"),
    }
}

/// The greeting of a successful sign-in: the user's name and the number of
/// rows the user table reported as written.
pub open spec fn spec_welcome_message(name: Seq<char>, rows_affected: nat) -> Seq<char> {
    "Welcome Big Boi!! "@ + name + "! (Inserted "@ + spec_decimal(rows_affected) + " row(s))"@
}

pub fn welcome_message(name: &str, rows_affected: u64) -> (message: String)
    ensures
        message@ == spec_welcome_message(name@, rows_affected as nat),
{
    let mut message = String::from_str("Welcome Big Boi!! ");
    message.append(name);
    message.append("! (Inserted ");
    let count = decimal(rows_affected);
    message.append(count.as_str());
    message.append(" row(s))");
    message
}

/// The line written to the server's log for a failure: the stage, the word
/// `error` and the detail.
pub open spec fn spec_log_line(context: Seq<char>, detail: Seq<char>) -> Seq<char> {
    context + " error: "@ + detail
}

} // verus!
