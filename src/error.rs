//! Error types for ModSecurity.

use vstd::prelude::*;
use vstd::string::StringExecFns;

verus! {

/// Primary error type for ModSecurity.
#[derive(Clone, PartialEq, Eq, Debug)]
pub enum ModSecurityError {
    /// A string handed to the engine holds a NUL byte, at the given byte position.
    Nul(usize),
    /// Error when processing a connection
    ProcessConnection,
    /// Error when processing URI
    ProcessUri,
    /// Error when processing logging
    ProcessLogging,
    /// Error when processing the request body
    ProcessRequestBody,
    /// Error when processing the response body
    ProcessResponseBody,
    /// Error when processing the request headers
    ProcessRequestHeaders,
    /// Error when processing the response headers
    ProcessResponseHeaders,
    /// Error when adding a request header
    AddRequestHeader,
    /// Error when adding a response header
    AddResponseHeader,
    /// Error when appending to the request body
    AppendRequestBody,
    /// Error when appending to the response body
    AppendResponseBody,
    /// Error when checking for an intervention
    Intervention,
    /// Error when adding a file to the rule set, with the parser's message
    RulesAddFile(String),
    /// Error when adding plain rules to the rule set, with the parser's message
    RulesAddPlain(String),
    /// Error when updating the status code
    UpdateStatusCode,
}

/// The character of decimal digit `d`.
pub open spec fn digit_char(d: nat) -> char {
    if d == 0 { '0' }
    else if d == 1 { '1' }
    else if d == 2 { '2' }
    else if d == 3 { '3' }
    else if d == 4 { '4' }
    else if d == 5 { '5' }
    else if d == 6 { '6' }
    else if d == 7 { '7' }
    else if d == 8 { '8' }
    else { '9' }
}

/// The decimal notation of `n`, without leading zeros.
pub open spec fn decimal(n: nat) -> Seq<char>
    decreases n,
{
    if n < 10 {
        seq![digit_char(n)]
    } else {
        decimal(n / 10).push(digit_char(n % 10))
    }
}

fn digit_str(d: usize) -> (r: &'static str)
    requires
        d < 10,
    ensures
        r@ == seq![digit_char(d as nat)],
{
    proof {
        reveal_strlit("0");
        reveal_strlit("1");
        reveal_strlit("2");
        reveal_strlit("3");
        reveal_strlit("4");
        reveal_strlit("5");
        reveal_strlit("6");
        reveal_strlit("7");
        reveal_strlit("8");
        reveal_strlit("9");
    }
    if d == 0 { "0" }
    else if d == 1 { "1" }
    else if d == 2 { "2" }
    else if d == 3 { "3" }
    else if d == 4 { "4" }
    else if d == 5 { "5" }
    else if d == 6 { "6" }
    else if d == 7 { "7" }
    else if d == 8 { "8" }
    else { "9" }
}

/// Writes `n` in decimal notation.
pub fn decimal_string(n: usize) -> (r: String)
    ensures
        r@ == decimal(n as nat),
    decreases n,
{
    if n < 10 {
        String::from_str(digit_str(n))
    } else {
        let mut s = decimal_string(n / 10);
        s.append(digit_str(n % 10));
        s
    }
}

/// The text that describes error `e`.
pub open spec fn error_text(e: ModSecurityError) -> Seq<char> {
    match e {
        ModSecurityError::Nul(pos) => "Nul error: nul byte found in provided data at position: "@
            + decimal(pos as nat),
        ModSecurityError::ProcessConnection => "Error processing connection"@,
        ModSecurityError::ProcessUri => "Error processing URI"@,
        ModSecurityError::ProcessLogging => "Error processing logging"@,
        ModSecurityError::ProcessRequestBody => "Error processing request body"@,
        ModSecurityError::ProcessResponseBody => "Error processing response body"@,
        ModSecurityError::ProcessRequestHeaders => "Error processing request headers"@,
        ModSecurityError::ProcessResponseHeaders => "Error processing response headers"@,
        ModSecurityError::AddRequestHeader => "Error adding request header"@,
        ModSecurityError::AddResponseHeader => "Error adding response header"@,
        ModSecurityError::AppendRequestBody => "Error appending to request body"@,
        ModSecurityError::AppendResponseBody => "Error appending to response body"@,
        ModSecurityError::Intervention => "Error checking for intervention"@,
        ModSecurityError::RulesAddFile(m) => "Error adding file to rule set: "@ + m@,
        ModSecurityError::RulesAddPlain(m) => "Error adding plain rules to rule set: "@ + m@,
        ModSecurityError::UpdateStatusCode => "Error updating status code"@,
    }
}

impl ModSecurityError {
    /// Describes the error in one line of text.
    pub fn message(&self) -> (r: String)
        ensures
            r@ == error_text(*self),
    {
        match self {
            ModSecurityError::Nul(pos) => String::from_str(
                "Nul error: nul byte found in provided data at position: ",
            ).concat(decimal_string(*pos).as_str()),
            ModSecurityError::ProcessConnection => String::from_str("Error processing connection"),
            ModSecurityError::ProcessUri => String::from_str("Error processing URI"),
            ModSecurityError::ProcessLogging => String::from_str("Error processing logging"),
            ModSecurityError::ProcessRequestBody => String::from_str(
                "Error processing request body",
            ),
            ModSecurityError::ProcessResponseBody => String::from_str(
                "Error processing response body",
            ),
            ModSecurityError::ProcessRequestHeaders => String::from_str(
                "Error processing request headers",
            ),
            ModSecurityError::ProcessResponseHeaders => String::from_str(
                "Error processing response headers",
            ),
            ModSecurityError::AddRequestHeader => String::from_str("Error adding request header"),
            ModSecurityError::AddResponseHeader => String::from_str("Error adding response header"),
            ModSecurityError::AppendRequestBody => String::from_str(
                "Error appending to request body",
            ),
            ModSecurityError::AppendResponseBody => String::from_str(
                "Error appending to response body",
            ),
            ModSecurityError::Intervention => String::from_str("Error checking for intervention"),
            ModSecurityError::RulesAddFile(m) => String::from_str(
                "Error adding file to rule set: ",
            ).concat(m.as_str()),
            ModSecurityError::RulesAddPlain(m) => String::from_str(
                "Error adding plain rules to rule set: ",
            ).concat(m.as_str()),
            ModSecurityError::UpdateStatusCode => String::from_str("Error updating status code"),
        }
    }
}

} // verus!
