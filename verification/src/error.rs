//! Error codes and errors of the VDO API.

use vstd::prelude::*;

use crate::text::{decimal, decimal_value, is_digit, lemma_decimal_reads_back, push_decimal};

verus! {

/// Error codes returned by the VDO API.
#[derive(Debug, Clone, Copy, PartialEq, Eq, Structural)]
#[non_exhaustive]
pub enum ErrorCode {
    /// Resource not found.
    NotFound,
    /// Resource already exists.
    Exists,
    /// Invalid argument provided.
    InvalidArgument,
    /// Permission denied.
    PermissionDenied,
    /// Operation not supported.
    NotSupported,
    /// Resource is closed.
    Closed,
    /// Resource is busy.
    Busy,
    /// I/O error.
    Io,
    /// HAL error.
    Hal,
    /// D-Bus error.
    Dbus,
    /// Out of memory.
    Oom,
    /// Resource is idle.
    Idle,
    /// No data available.
    NoData,
    /// No buffer space available.
    NoBufferSpace,
    /// Buffer failure.
    BufferFailure,
    /// Interface is down.
    InterfaceDown,
    /// General failure.
    Failed,
    /// Fatal error.
    Fatal,
    /// Not controlled.
    NotControlled,
    /// No event.
    NoEvent,
    /// No video.
    NoVideo,
    /// Unknown error code.
    Unknown(u32),
}

impl ErrorCode {
    /// The number by which the VDO API reports this code.
    pub open spec fn raw_code(self) -> u32 {
        match self {
            ErrorCode::NotFound => 1,
            ErrorCode::Exists => 2,
            ErrorCode::InvalidArgument => 3,
            ErrorCode::PermissionDenied => 4,
            ErrorCode::NotSupported => 5,
            ErrorCode::Closed => 6,
            ErrorCode::Busy => 7,
            ErrorCode::Io => 8,
            ErrorCode::Hal => 9,
            ErrorCode::Dbus => 10,
            ErrorCode::Oom => 11,
            ErrorCode::Idle => 12,
            ErrorCode::NoData => 13,
            ErrorCode::NoBufferSpace => 14,
            ErrorCode::BufferFailure => 15,
            ErrorCode::InterfaceDown => 16,
            ErrorCode::Failed => 17,
            ErrorCode::Fatal => 18,
            ErrorCode::NotControlled => 19,
            ErrorCode::NoEvent => 20,
            ErrorCode::NoVideo => 21,
            ErrorCode::Unknown(code) => code,
        }
    }

    /// The code that the VDO API means by the number `code`: the named code whose
    /// number it is, and `Unknown(code)` for a number that no named code has.
    pub open spec fn spec_from_raw(code: u32) -> ErrorCode {
        if code == 1 { ErrorCode::NotFound }
        else if code == 2 { ErrorCode::Exists }
        else if code == 3 { ErrorCode::InvalidArgument }
        else if code == 4 { ErrorCode::PermissionDenied }
        else if code == 5 { ErrorCode::NotSupported }
        else if code == 6 { ErrorCode::Closed }
        else if code == 7 { ErrorCode::Busy }
        else if code == 8 { ErrorCode::Io }
        else if code == 9 { ErrorCode::Hal }
        else if code == 10 { ErrorCode::Dbus }
        else if code == 11 { ErrorCode::Oom }
        else if code == 12 { ErrorCode::Idle }
        else if code == 13 { ErrorCode::NoData }
        else if code == 14 { ErrorCode::NoBufferSpace }
        else if code == 15 { ErrorCode::BufferFailure }
        else if code == 16 { ErrorCode::InterfaceDown }
        else if code == 17 { ErrorCode::Failed }
        else if code == 18 { ErrorCode::Fatal }
        else if code == 19 { ErrorCode::NotControlled }
        else if code == 20 { ErrorCode::NoEvent }
        else if code == 21 { ErrorCode::NoVideo }
        else { ErrorCode::Unknown(code) }
    }

    /// The human-readable text of the code.
    pub open spec fn text(self) -> Seq<char> {
        match self {
            ErrorCode::NotFound => "not found"@,
            ErrorCode::Exists => "already exists"@,
            ErrorCode::InvalidArgument => "invalid argument"@,
            ErrorCode::PermissionDenied => "permission denied"@,
            ErrorCode::NotSupported => "not supported"@,
            ErrorCode::Closed => "closed"@,
            ErrorCode::Busy => "busy"@,
            ErrorCode::Io => "I/O error"@,
            ErrorCode::Hal => "HAL error"@,
            ErrorCode::Dbus => "D-Bus error"@,
            ErrorCode::Oom => "out of memory"@,
            ErrorCode::Idle => "idle"@,
            ErrorCode::NoData => "no data"@,
            ErrorCode::NoBufferSpace => "no buffer space"@,
            ErrorCode::BufferFailure => "buffer failure"@,
            ErrorCode::InterfaceDown => "interface down"@,
            ErrorCode::Failed => "failed"@,
            ErrorCode::Fatal => "fatal error"@,
            ErrorCode::NotControlled => "not controlled"@,
            ErrorCode::NoEvent => "no event"@,
            ErrorCode::NoVideo => "no video"@,
            ErrorCode::Unknown(code) => "unknown error ("@ + decimal(code as nat) + ")"@,
        }
    }

    /// Converts the number by which the VDO API reports an error into its code.
    pub fn from_raw(code: u32) -> (r: ErrorCode)
        ensures
            r == ErrorCode::spec_from_raw(code),
    {
        match code {
            1 => ErrorCode::NotFound,
            2 => ErrorCode::Exists,
            3 => ErrorCode::InvalidArgument,
            4 => ErrorCode::PermissionDenied,
            5 => ErrorCode::NotSupported,
            6 => ErrorCode::Closed,
            7 => ErrorCode::Busy,
            8 => ErrorCode::Io,
            9 => ErrorCode::Hal,
            10 => ErrorCode::Dbus,
            11 => ErrorCode::Oom,
            12 => ErrorCode::Idle,
            13 => ErrorCode::NoData,
            14 => ErrorCode::NoBufferSpace,
            15 => ErrorCode::BufferFailure,
            16 => ErrorCode::InterfaceDown,
            17 => ErrorCode::Failed,
            18 => ErrorCode::Fatal,
            19 => ErrorCode::NotControlled,
            20 => ErrorCode::NoEvent,
            21 => ErrorCode::NoVideo,
            _ => ErrorCode::Unknown(code),
        }
    }

    /// The human-readable text of the code, such as `"not found"` or
    /// `"unknown error (42)"`.
    pub fn to_string(&self) -> (s: String)
        ensures
            s@ == self.text(),
            self matches ErrorCode::Unknown(c) ==> {
                &&& s@.len() >= 17
                &&& s@.subrange(0, 15) == "unknown error ("@
                &&& s@.last() == ')'
                &&& decimal_value(s@.subrange(15, s@.len() - 1)) == c
            },
    {
        proof {
            if let ErrorCode::Unknown(c) = *self {
                lemma_unknown_text_reads_back(c);
            }
        }
        match self {
            ErrorCode::NotFound => String::from_str("not found"),
            ErrorCode::Exists => String::from_str("already exists"),
            ErrorCode::InvalidArgument => String::from_str("invalid argument"),
            ErrorCode::PermissionDenied => String::from_str("permission denied"),
            ErrorCode::NotSupported => String::from_str("not supported"),
            ErrorCode::Closed => String::from_str("closed"),
            ErrorCode::Busy => String::from_str("busy"),
            ErrorCode::Io => String::from_str("I/O error"),
            ErrorCode::Hal => String::from_str("HAL error"),
            ErrorCode::Dbus => String::from_str("D-Bus error"),
            ErrorCode::Oom => String::from_str("out of memory"),
            ErrorCode::Idle => String::from_str("idle"),
            ErrorCode::NoData => String::from_str("no data"),
            ErrorCode::NoBufferSpace => String::from_str("no buffer space"),
            ErrorCode::BufferFailure => String::from_str("buffer failure"),
            ErrorCode::InterfaceDown => String::from_str("interface down"),
            ErrorCode::Failed => String::from_str("failed"),
            ErrorCode::Fatal => String::from_str("fatal error"),
            ErrorCode::NotControlled => String::from_str("not controlled"),
            ErrorCode::NoEvent => String::from_str("no event"),
            ErrorCode::NoVideo => String::from_str("no video"),
            ErrorCode::Unknown(code) => {
                let mut s = String::from_str("unknown error (");
                push_decimal(&mut s, *code);
                s.append(")");
                s
            },
        }
    }
}

/// Converting a reported number into a code loses nothing: the code gives the
/// number back, and a number is reported as `Unknown` exactly when no named code
/// has it.
pub proof fn lemma_from_raw_keeps_number(code: u32)
    ensures
        ErrorCode::spec_from_raw(code).raw_code() == code,
        (ErrorCode::spec_from_raw(code) is Unknown) <==> !(1 <= code <= 21),
{
}

/// The text of an unknown code is `"unknown error ("`, then the decimal digits of
/// the code itself (no leading zero unless it is zero), then `")"`: the digits
/// between the brackets read back as the code.
pub proof fn lemma_unknown_text_reads_back(code: u32)
    ensures
        ({
            let t = ErrorCode::Unknown(code).text();
            let digits = t.subrange(15, t.len() - 1);
            &&& t.len() >= 17
            &&& t.subrange(0, 15) == "unknown error ("@
            &&& t.last() == ')'
            &&& forall|i: int| 0 <= i < digits.len() ==> is_digit(#[trigger] digits[i])
            &&& (code > 0 ==> digits[0] != '0')
            &&& decimal_value(digits) == code
        }),
{
    reveal_strlit("unknown error (");
    reveal_strlit(")");
    lemma_decimal_reads_back(code as nat);
    let d = decimal(code as nat);
    let t = ErrorCode::Unknown(code).text();
    assert(t == "unknown error ("@ + d + ")"@);
    assert(t.subrange(15, t.len() - 1) =~= d);
    assert(t.subrange(0, 15) =~= "unknown error ("@);
}

/// Two different numbers never become the same code.
pub proof fn lemma_from_raw_injective(a: u32, b: u32)
    requires
        ErrorCode::spec_from_raw(a) == ErrorCode::spec_from_raw(b),
    ensures
        a == b,
{
    lemma_from_raw_keeps_number(a);
    lemma_from_raw_keeps_number(b);
}

/// Every named code is what its own number converts into.
pub proof fn lemma_named_code_round_trip(c: ErrorCode)
    requires
        !(c is Unknown),
    ensures
        ErrorCode::spec_from_raw(c.raw_code()) == c,
{
}

/// The optional message of an error, as text.
pub open spec fn message_view(message: Option<String>) -> Option<Seq<char>> {
    match message {
        Some(m) => Some(m@),
        None => None,
    }
}

/// Error type for VDO operations: a code and an optional message.
#[derive(Debug)]
pub struct Error {
    code: ErrorCode,
    message: Option<String>,
}

impl View for Error {
    type V = (ErrorCode, Option<Seq<char>>);

    closed spec fn view(&self) -> (ErrorCode, Option<Seq<char>>) {
        (self.code, message_view(self.message))
    }
}

impl Error {
    /// The human-readable text of the error: the code's text, followed by
    /// `": "` and the message where there is one.
    pub open spec fn text(self) -> Seq<char> {
        match self@.1 {
            Some(m) => self@.0.text() + ": "@ + m,
            None => self@.0.text(),
        }
    }

}

/// The text of an error with a message is the text of its code, then `": "`, then
/// the message, whatever the code; without a message it is the code's text alone.
pub proof fn lemma_error_text_joins_code_and_message(e: Error)
    ensures
        e@.1 matches Some(m) ==> e.text() == e@.0.text() + ": "@ + m,
        e@.1 is None ==> e.text() == e@.0.text(),
{
}

impl Error {
    /// Creates an error from the fields of a `GError` reported by the VDO API:
    /// its code, taken as an unsigned number, and its message if it had one.
    pub fn from_gerror_fields(code: i32, message: Option<String>) -> (e: Error)
        ensures
            e@ == (ErrorCode::spec_from_raw(code as u32), message_view(message)),
    {
        Error { code: ErrorCode::from_raw(code as u32), message }
    }

    /// Creates a new error with a custom message.
    pub fn new(code: ErrorCode, message: &str) -> (e: Error)
        ensures
            e@ == (code, Some(message@)),
    {
        Error { code, message: Some(String::from_str(message)) }
    }

    /// Returns the error code.
    pub fn code(&self) -> (c: ErrorCode)
        ensures
            c == self@.0,
    {
        self.code
    }

    /// Returns the error message, if any.
    pub fn message(&self) -> (m: Option<&str>)
        ensures
            match m {
                Some(s) => self@.1 == Some(s@),
                None => self@.1 is None,
            },
    {
        match &self.message {
            Some(s) => Some(s.as_str()),
            None => None,
        }
    }

    /// The human-readable text of the error, such as
    /// `"out of memory: Failed to create VdoMap"` or `"busy"`.
    pub fn to_string(&self) -> (s: String)
        ensures
            s@ == self.text(),
            self@.1 matches Some(m) ==> s@ == self@.0.text() + ": "@ + m,
            self@.1 is None ==> s@ == self@.0.text(),
    {
        proof {
            lemma_error_text_joins_code_and_message(*self);
        }
        let mut s = self.code.to_string();
        match &self.message {
            Some(m) => {
                s.append(": ");
                s.append(m.as_str());
            },
            None => {},
        }
        s
    }
}

} // verus!
