//! The error model: a business error with a code and a message, or a system
//! error carrying a plain description.

use crate::utils::textual::ascii_to_string;
use crate::utils::textual::dec_u128;
use crate::utils::textual::spec_dec_digits;
use vstd::prelude::*;
use vstd::string::*;

verus! {

/// The usual return type of the gateway's fallible operations.
pub type GlobalResult<T> = Result<T, GlobalError>;

/// A business error: a numeric code with a message.
#[derive(Debug, Clone, PartialEq)]
pub struct BizError {
    pub code: u16,
    pub msg: String,
}

impl BizError {
    /// The error as one line of text: its code and its message.
    pub fn message(&self) -> (r: String)
        ensures
            r@ == "BizError: [code = "@ + spec_ascii_digits(self.code as nat) + ", msg = \""@
                + self.msg@ + "\"]"@,
    {
        let mut out = "BizError: [code = ".to_owned();
        let digits = dec_u128(self.code as u128);
        proof {
            crate::utils::textual::lemma_dec_digits_bounds(self.code as nat);
        }
        let digits_text = ascii_to_string(digits);
        proof {
            assert(digits_text@ =~= spec_ascii_digits(self.code as nat));
        }
        out.append(digits_text.as_str());
        out.append(", msg = \"");
        out.append(self.msg.as_str());
        out.append("\"]");
        out
    }
}

/// The decimal digits of `n` read as characters.
pub open spec fn spec_ascii_digits(n: nat) -> Seq<char> {
    Seq::new(spec_dec_digits(n).len(), |i: int| spec_dec_digits(n)[i] as char)
}

/// Either a business error or a system error described by plain text.
#[derive(Debug, Clone, PartialEq)]
pub enum GlobalError {
    BizErr(BizError),
    SysErr(String),
}

impl GlobalError {
    /// Builds a business error from its code and message.
    pub fn new_biz_error(code: u16, msg: &str) -> (r: Self)
        ensures
            r matches GlobalError::BizErr(b) && b.code == code && b.msg@ == msg@,
    {
        GlobalError::BizErr(BizError { code, msg: msg.to_owned() })
    }

    /// Builds a system error from its description.
    pub fn new_sys_error(msg: &str) -> (r: Self)
        ensures
            r matches GlobalError::SysErr(m) && m@ == msg@,
    {
        GlobalError::SysErr(msg.to_owned())
    }
}

/// Lifts a plain error description into the gateway's error model. The
/// drivers hand the library the description of whatever failed outside it.
/// A success passes through unchanged; a failure becomes the gateway's
/// error, carrying the description or the given code and message.
pub trait GlobalResultExt<T>: Sized {
    /// The successful value this holds, if it holds one.
    spec fn spec_ok_value(self) -> Option<T>;

    /// The failure description this holds, when it holds no value.
    spec fn spec_err_text(self) -> Seq<char>;

    fn hand_log(self) -> (r: GlobalResult<T>)
        ensures
            self.spec_ok_value() matches Some(v) ==> r == Ok::<T, GlobalError>(v),
            self.spec_ok_value() is None ==> (r matches Err(e) && e matches GlobalError::SysErr(m)
                && m@ == self.spec_err_text()),
    ;

    fn hand_biz_log(self, code: u16, msg: &str) -> (r: GlobalResult<T>)
        ensures
            self.spec_ok_value() matches Some(v) ==> r == Ok::<T, GlobalError>(v),
            self.spec_ok_value() is None ==> (r matches Err(e) && e matches GlobalError::BizErr(b)
                && b.code == code && b.msg@ == msg@),
    ;
}

impl<T> GlobalResultExt<T> for Result<T, String> {
    open spec fn spec_ok_value(self) -> Option<T> {
        match self {
            Ok(v) => Some(v),
            Err(_) => None,
        }
    }

    open spec fn spec_err_text(self) -> Seq<char> {
        match self {
            Ok(_) => Seq::empty(),
            Err(s) => s@,
        }
    }

    /// An `Err` becomes a system error carrying the description.
    fn hand_log(self) -> (r: GlobalResult<T>) {
        match self {
            Ok(t) => Ok(t),
            Err(s) => Err(GlobalError::SysErr(s)),
        }
    }

    /// An `Err` becomes a business error with the given code and message.
    fn hand_biz_log(self, code: u16, msg: &str) -> (r: GlobalResult<T>) {
        match self {
            Ok(t) => Ok(t),
            Err(_) => Err(GlobalError::BizErr(BizError { code, msg: msg.to_owned() })),
        }
    }
}

/// What can go wrong on the typed message bus.
#[derive(Debug, Clone, Copy, PartialEq, Eq, Structural)]
pub enum MessageBusError {
    Full,
    Timeout,
    ChannelClosed,
    TypeMismatch,
    Lagged,
    NotFound,
    AlreadyExists,
}

impl MessageBusError {
    pub open spec fn spec_message(self) -> Seq<char> {
        match self {
            MessageBusError::Full => "the channel is full"@,
            MessageBusError::Timeout => "timed out waiting for a message"@,
            MessageBusError::ChannelClosed => "the channel is closed"@,
            MessageBusError::TypeMismatch => "the message type does not match"@,
            MessageBusError::Lagged => "the receiver lagged behind"@,
            MessageBusError::NotFound => "no such channel"@,
            MessageBusError::AlreadyExists => "the channel already exists"@,
        }
    }

    /// The error as one line of text.
    pub fn message(&self) -> (r: &'static str)
        ensures
            r@ == self.spec_message(),
    {
        match self {
            MessageBusError::Full => "the channel is full",
            MessageBusError::Timeout => "timed out waiting for a message",
            MessageBusError::ChannelClosed => "the channel is closed",
            MessageBusError::TypeMismatch => "the message type does not match",
            MessageBusError::Lagged => "the receiver lagged behind",
            MessageBusError::NotFound => "no such channel",
            MessageBusError::AlreadyExists => "the channel already exists",
        }
    }
}

/// What can go wrong on a remote procedure call.
#[derive(Debug, Clone, PartialEq)]
pub enum RpcError {
    Io(String),
    Timeout,
    Remote(String),
    Unknown,
}

impl RpcError {
    pub open spec fn spec_message(self) -> Seq<char> {
        match self {
            RpcError::Io(m) => "io error: "@ + m@,
            RpcError::Timeout => "timeout"@,
            RpcError::Remote(m) => "remote error: "@ + m@,
            RpcError::Unknown => "unknown error"@,
        }
    }

    /// The error as one line of text.
    pub fn message(&self) -> (r: String)
        ensures
            r@ == self.spec_message(),
    {
        match self {
            RpcError::Io(m) => {
                let mut out = "io error: ".to_owned();
                out.append(m.as_str());
                out
            },
            RpcError::Timeout => "timeout".to_owned(),
            RpcError::Remote(m) => {
                let mut out = "remote error: ".to_owned();
                out.append(m.as_str());
                out
            },
            RpcError::Unknown => "unknown error".to_owned(),
        }
    }
}

} // verus!
