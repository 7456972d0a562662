//! The error taxonomy of the client: authentication, transport, decoding,
//! and structured remote failures.
use vstd::prelude::*;
use vstd::string::StringExecFns;

verus! {

/// Every failure the client surfaces to its caller.
///
/// `PubSub` is the structured remote error: the service answered, but with
/// a failure envelope (`code`, `status`, `message`). The other variants
/// carry the text of a lower-level failure: token exchange (`PubSubAuth`),
/// connection (`Http`), response-body decoding (`Json`), base64 payload
/// decoding (`Base64`), or local I/O (`IO`).
#[derive(Debug)]
pub enum Error {
    PubSubAuth(String),
    Http(String),
    Json(String),
    Base64(String),
    IO(String),
    PubSub { code: i32, message: String, status: String },
}

/// The character of the decimal digit `n`.
pub open spec fn digit_char(n: nat) -> char
    recommends
        n < 10,
{
    if n == 0 {
        '0'
    } else if n == 1 {
        '1'
    } else if n == 2 {
        '2'
    } else if n == 3 {
        '3'
    } else if n == 4 {
        '4'
    } else if n == 5 {
        '5'
    } else if n == 6 {
        '6'
    } else if n == 7 {
        '7'
    } else if n == 8 {
        '8'
    } else {
        '9'
    }
}

/// The decimal digits of `n` as text, most significant first.
pub open spec fn dec_chars(n: nat) -> Seq<char>
    decreases n,
{
    if n < 10 {
        seq![digit_char(n)]
    } else {
        dec_chars(n / 10) + seq![digit_char(n % 10)]
    }
}

/// The decimal rendering of `n` as text, with a leading minus sign when
/// negative.
pub open spec fn int_chars(n: int) -> Seq<char> {
    if n < 0 {
        seq!['-'] + dec_chars((-n) as nat)
    } else {
        dec_chars(n as nat)
    }
}

/// The description of an error, one line naming its kind and its content.
pub open spec fn error_text(e: Error) -> Seq<char> {
    match e {
        Error::PubSubAuth(m) => "PubSubAuth("@ + m@ + ")"@,
        Error::Http(m) => "Hyper("@ + m@ + ")"@,
        Error::Json(m) => "Json("@ + m@ + ")"@,
        Error::Base64(m) => "Base64("@ + m@ + ")"@,
        Error::IO(m) => "IO("@ + m@ + ")"@,
        Error::PubSub { code, message, status } => "PubSub(code: "@ + int_chars(code as int)
            + ", status: "@ + status@ + ", message: "@ + message@ + ")"@,
    }
}

fn digit_str(n: u32) -> (r: &'static str)
    requires
        n < 10,
    ensures
        r@ == seq![digit_char(n as nat)],
{
    proof {
        reveal_strlit("0");
        reveal_strlit("1");
        reveal_strlit("2");
        reveal_strlit("3");
        reveal_strlit("4");
        reveal_strlit("5");
        reveal_strlit("6");
        reveal_strlit("7");
        reveal_strlit("8");
        reveal_strlit("9");
    }
    if n == 0 {
        "0"
    } else if n == 1 {
        "1"
    } else if n == 2 {
        "2"
    } else if n == 3 {
        "3"
    } else if n == 4 {
        "4"
    } else if n == 5 {
        "5"
    } else if n == 6 {
        "6"
    } else if n == 7 {
        "7"
    } else if n == 8 {
        "8"
    } else {
        "9"
    }
}

fn append_dec_chars(out: &mut String, n: u32)
    ensures
        final(out)@ == old(out)@ + dec_chars(n as nat),
    decreases n,
{
    if n < 10 {
        out.append(digit_str(n));
        assert(out@ =~= old(out)@ + dec_chars(n as nat));
    } else {
        append_dec_chars(out, n / 10);
        out.append(digit_str(n % 10));
        assert(out@ =~= old(out)@ + dec_chars(n as nat));
    }
}

/// The decimal rendering of `n`, sign included, as a string.
pub fn int_string(n: i32) -> (r: String)
    ensures
        r@ == int_chars(n as int),
{
    let mut out = String::new();
    if n < 0 {
        out.append("-");
        proof {
            reveal_strlit("-");
        }
        let wide: i64 = n as i64;
        let m: u32 = (-wide) as u32;
        assert(m == -(n as int));
        append_dec_chars(&mut out, m);
    } else {
        append_dec_chars(&mut out, n as u32);
    }
    assert(out@ =~= int_chars(n as int));
    out
}

impl Error {
    /// The error as one line of text, naming its kind and its content.
    pub fn describe(&self) -> (r: String)
        ensures
            r@ == error_text(*self),
    {
        match self {
            Error::PubSubAuth(m) => {
                let mut out = "PubSubAuth(".to_owned();
                out.append(m.as_str());
                out.append(")");
                assert(out@ =~= error_text(*self));
                out
            },
            Error::Http(m) => {
                let mut out = "Hyper(".to_owned();
                out.append(m.as_str());
                out.append(")");
                assert(out@ =~= error_text(*self));
                out
            },
            Error::Json(m) => {
                let mut out = "Json(".to_owned();
                out.append(m.as_str());
                out.append(")");
                assert(out@ =~= error_text(*self));
                out
            },
            Error::Base64(m) => {
                let mut out = "Base64(".to_owned();
                out.append(m.as_str());
                out.append(")");
                assert(out@ =~= error_text(*self));
                out
            },
            Error::IO(m) => {
                let mut out = "IO(".to_owned();
                out.append(m.as_str());
                out.append(")");
                assert(out@ =~= error_text(*self));
                out
            },
            Error::PubSub { code, message, status } => {
                let mut out = "PubSub(code: ".to_owned();
                let code_text = int_string(*code);
                out.append(code_text.as_str());
                out.append(", status: ");
                out.append(status.as_str());
                out.append(", message: ");
                out.append(message.as_str());
                out.append(")");
                assert(out@ =~= error_text(*self));
                out
            },
        }
    }
}

} // verus!
