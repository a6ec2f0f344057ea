//! WebTransport error codes (draft-ietf-webtrans-http3-15 Section 9.5) and
//! the mapping of application error codes into the HTTP/3 code space.

use vstd::prelude::*;
use crate::text::{hex_chars, push_str, push_hex, string_from_chars};
use crate::text::truncate_text;
use crate::text::truncated_text;

verus! {

/// The HTTP/3 error codes WebTransport defines.
#[derive(Debug, Clone, Copy, PartialEq, Eq, Structural)]
pub enum ErrorCode {
    /// `WebTransport data stream rejected due to lack of associated session` (0x3994bd84).
    BufferedStreamRejected,
    /// `WebTransport data stream aborted because the associated session has been closed` (0x170d7b68).
    SessionGone,
    /// `WebTransport session aborted because a flow control error was encountered` (0x45d4487).
    FlowControlError,
    /// `WebTransport ALPN negotiation failed` (0x817b3dd).
    AlpnError,
    /// `WebTransport requirements not met: missing required SETTINGS or transport parameters` (0x212c0d48).
    RequirementsNotMet,
}

/// The wire value of an error code.
pub open spec fn error_code_value(c: ErrorCode) -> u64 {
    match c {
        ErrorCode::BufferedStreamRejected => 0x3994bd84,
        ErrorCode::SessionGone => 0x170d7b68,
        ErrorCode::FlowControlError => 0x45d4487,
        ErrorCode::AlpnError => 0x817b3dd,
        ErrorCode::RequirementsNotMet => 0x212c0d48,
    }
}

/// The error code a wire value names.
pub open spec fn error_code_of(code: u64) -> Option<ErrorCode> {
    if code == 0x3994bd84 {
        Some(ErrorCode::BufferedStreamRejected)
    } else if code == 0x170d7b68 {
        Some(ErrorCode::SessionGone)
    } else if code == 0x45d4487 {
        Some(ErrorCode::FlowControlError)
    } else if code == 0x817b3dd {
        Some(ErrorCode::AlpnError)
    } else if code == 0x212c0d48 {
        Some(ErrorCode::RequirementsNotMet)
    } else {
        None
    }
}

/// The description of an error code.
pub open spec fn description_spec(c: ErrorCode) -> Seq<char> {
    match c {
        ErrorCode::BufferedStreamRejected => seq!['W', 'e', 'b', 'T', 'r', 'a', 'n', 's', 'p', 'o', 'r', 't', ' ', 'd', 'a', 't', 'a', ' ', 's', 't', 'r', 'e', 'a', 'm', ' ', 'r', 'e', 'j', 'e', 'c', 't', 'e', 'd', ' ', 'd', 'u', 'e', ' ', 't', 'o', ' ', 'l', 'a', 'c', 'k', ' ', 'o', 'f', ' ', 'a', 's', 's', 'o', 'c', 'i', 'a', 't', 'e', 'd', ' ', 's', 'e', 's', 's', 'i', 'o', 'n'],
        ErrorCode::SessionGone => seq!['W', 'e', 'b', 'T', 'r', 'a', 'n', 's', 'p', 'o', 'r', 't', ' ', 'd', 'a', 't', 'a', ' ', 's', 't', 'r', 'e', 'a', 'm', ' ', 'a', 'b', 'o', 'r', 't', 'e', 'd', ' ', 'b', 'e', 'c', 'a', 'u', 's', 'e', ' ', 't', 'h', 'e', ' ', 'a', 's', 's', 'o', 'c', 'i', 'a', 't', 'e', 'd', ' ', 's', 'e', 's', 's', 'i', 'o', 'n', ' ', 'h', 'a', 's', ' ', 'b', 'e', 'e', 'n', ' ', 'c', 'l', 'o', 's', 'e', 'd'],
        ErrorCode::FlowControlError => seq!['W', 'e', 'b', 'T', 'r', 'a', 'n', 's', 'p', 'o', 'r', 't', ' ', 's', 'e', 's', 's', 'i', 'o', 'n', ' ', 'a', 'b', 'o', 'r', 't', 'e', 'd', ' ', 'b', 'e', 'c', 'a', 'u', 's', 'e', ' ', 'a', ' ', 'f', 'l', 'o', 'w', ' ', 'c', 'o', 'n', 't', 'r', 'o', 'l', ' ', 'e', 'r', 'r', 'o', 'r', ' ', 'w', 'a', 's', ' ', 'e', 'n', 'c', 'o', 'u', 'n', 't', 'e', 'r', 'e', 'd'],
        ErrorCode::AlpnError => seq!['W', 'e', 'b', 'T', 'r', 'a', 'n', 's', 'p', 'o', 'r', 't', ' ', 'A', 'L', 'P', 'N', ' ', 'n', 'e', 'g', 'o', 't', 'i', 'a', 't', 'i', 'o', 'n', ' ', 'f', 'a', 'i', 'l', 'e', 'd'],
        ErrorCode::RequirementsNotMet => seq!['W', 'e', 'b', 'T', 'r', 'a', 'n', 's', 'p', 'o', 'r', 't', ' ', 'r', 'e', 'q', 'u', 'i', 'r', 'e', 'm', 'e', 'n', 't', 's', ' ', 'n', 'o', 't', ' ', 'm', 'e', 't', ':', ' ', 'm', 'i', 's', 's', 'i', 'n', 'g', ' ', 'r', 'e', 'q', 'u', 'i', 'r', 'e', 'd', ' ', 'S', 'E', 'T', 'T', 'I', 'N', 'G', 'S', ' ', 'o', 'r', ' ', 't', 'r', 'a', 'n', 's', 'p', 'o', 'r', 't', ' ', 'p', 'a', 'r', 'a', 'm', 'e', 't', 'e', 'r', 's'],
    }
}

impl ErrorCode {
    /// The error code a wire value names, if any.
    pub fn from_code(code: u64) -> (r: Option<ErrorCode>)
        ensures
            r == error_code_of(code),
    {
        if code == 0x3994bd84 {
            Some(ErrorCode::BufferedStreamRejected)
        } else if code == 0x170d7b68 {
            Some(ErrorCode::SessionGone)
        } else if code == 0x45d4487 {
            Some(ErrorCode::FlowControlError)
        } else if code == 0x817b3dd {
            Some(ErrorCode::AlpnError)
        } else if code == 0x212c0d48 {
            Some(ErrorCode::RequirementsNotMet)
        } else {
            None
        }
    }

    /// The wire value of this code.
    pub fn value(self) -> (r: u64)
        ensures
            r == error_code_value(self),
            error_code_of(r) == Some(self),
    {
        match self {
            ErrorCode::BufferedStreamRejected => 0x3994bd84,
            ErrorCode::SessionGone => 0x170d7b68,
            ErrorCode::FlowControlError => 0x45d4487,
            ErrorCode::AlpnError => 0x817b3dd,
            ErrorCode::RequirementsNotMet => 0x212c0d48,
        }
    }

    /// A description of this code.
    pub fn description(self) -> (r: &'static str)
        ensures
            r@ == description_spec(self),
    {
        match self {
            ErrorCode::BufferedStreamRejected => {
                proof {
                    reveal_strlit("WebTransport data stream rejected due to lack of associated session");
                }
                "WebTransport data stream rejected due to lack of associated session"
            },
            ErrorCode::SessionGone => {
                proof {
                    reveal_strlit("WebTransport data stream aborted because the associated session has been closed");
                }
                "WebTransport data stream aborted because the associated session has been closed"
            },
            ErrorCode::FlowControlError => {
                proof {
                    reveal_strlit("WebTransport session aborted because a flow control error was encountered");
                }
                "WebTransport session aborted because a flow control error was encountered"
            },
            ErrorCode::AlpnError => {
                proof {
                    reveal_strlit("WebTransport ALPN negotiation failed");
                }
                "WebTransport ALPN negotiation failed"
            },
            ErrorCode::RequirementsNotMet => {
                proof {
                    reveal_strlit("WebTransport requirements not met: missing required SETTINGS or transport parameters");
                }
                "WebTransport requirements not met: missing required SETTINGS or transport parameters"
            },
        }
    }
}

/// The first HTTP/3 code of the WebTransport application error range.
pub const APPLICATION_ERROR_FIRST: u64 = 0x52e4a40fa8db;

/// The last HTTP/3 code of the WebTransport application error range.
pub const APPLICATION_ERROR_LAST: u64 = 0x52e5ac983162;

/// The mapping between WebTransport application error codes (32 bits) and
/// HTTP/3 error codes, skipping the reserved codes `0x1f * N + 0x21`.
pub struct ApplicationErrorCode;

/// The HTTP/3 code of an application error code.
pub open spec fn app_to_http3(n: u32) -> u64 {
    (APPLICATION_ERROR_FIRST + n + n / 0x1e) as u64
}

/// A reserved HTTP/3 code.
pub open spec fn is_reserved_code(h: u64) -> bool {
    h >= 0x21 && (h - 0x21) % 0x1f == 0
}

/// The application error code an HTTP/3 code stands for, if any.
pub open spec fn http3_to_app(h: u64) -> Option<u32> {
    if h < APPLICATION_ERROR_FIRST || h > APPLICATION_ERROR_LAST || is_reserved_code(h) {
        None
    } else {
        let s = h - APPLICATION_ERROR_FIRST;
        let a = s - s / 0x1f;
        if a <= u32::MAX {
            Some(a as u32)
        } else {
            None
        }
    }
}

impl ApplicationErrorCode {
    /// The first code of the range.
    pub const FIRST: u64 = 0x52e4a40fa8db;

    /// The last code of the range.
    pub const LAST: u64 = 0x52e5ac983162;

    /// The HTTP/3 code of application error `app_code`: one more for every
    /// 30 codes, which skips the reserved ones.
    pub fn to_http3_code(app_code: u32) -> (r: u64)
        ensures
            r == app_to_http3(app_code),
    {
        let n = app_code as u64;
        APPLICATION_ERROR_FIRST + n + n / 0x1e
    }

    /// The application error code of an HTTP/3 code; `None` outside the
    /// range and for reserved codes.
    pub fn from_http3_code(http3_code: u64) -> (r: Option<u32>)
        ensures
            r == http3_to_app(http3_code),
    {
        if http3_code < APPLICATION_ERROR_FIRST || http3_code > APPLICATION_ERROR_LAST {
            return None;
        }
        if (http3_code - 0x21) % 0x1f == 0 {
            return None;
        }
        let shifted = http3_code - APPLICATION_ERROR_FIRST;
        let app_code = shifted - shifted / 0x1f;
        if app_code <= 0xffff_ffff {
            Some(app_code as u32)
        } else {
            None
        }
    }

    /// Whether `http3_code` lies in the application error range.
    pub fn is_application_error(http3_code: u64) -> (r: bool)
        ensures
            r == (APPLICATION_ERROR_FIRST <= http3_code <= APPLICATION_ERROR_LAST),
    {
        APPLICATION_ERROR_FIRST <= http3_code && http3_code <= APPLICATION_ERROR_LAST
    }
}

/// Every application error code maps into the range, onto no reserved code,
/// and maps back to itself.
pub proof fn lemma_application_code_roundtrip(n: u32)
    ensures
        APPLICATION_ERROR_FIRST <= app_to_http3(n) <= APPLICATION_ERROR_LAST,
        !is_reserved_code(app_to_http3(n)),
        http3_to_app(app_to_http3(n)) == Some(n),
{
    let q = n / 0x1e;
    let r = n % 0x1e;
    assert(n == 0x1e * q + r);
    assert(q <= 143165576);
    let h = app_to_http3(n);
    assert(h == APPLICATION_ERROR_FIRST + 0x1f * q + r);
    let s = h - APPLICATION_ERROR_FIRST;
    assert(s == 0x1f * q + r);
    assert(s / 0x1f == q) by (nonlinear_arith)
        requires
            s == 0x1f * q + r,
            0 <= r < 0x1e,
    ;
    assert((h - 0x21) % 0x1f == (1 + r) % 0x1f) by (nonlinear_arith)
        requires
            h - 0x21 == 0x1f * (q + 0x2ac896bdc27) + 1 + r,
            0 <= r < 0x1e,
    ;
}

/// A WebTransport error.
#[derive(Debug, Clone, PartialEq, Eq)]
pub enum Error {
    /// A WebTransport protocol error.
    Protocol(ErrorCode),
    /// An application error: a 32-bit code and a message of at most 1024 bytes.
    Application {
        /// The application code.
        code: u32,
        /// The message.
        message: String,
    },
    /// A code outside both WebTransport ranges: the stream was reset without
    /// an application code (Section 4.4).
    Unknown(u64),
}

/// The abstract value of an [`Error`].
pub enum ErrorView {
    /// A WebTransport protocol error.
    Protocol(ErrorCode),
    /// An application error.
    Application { code: u32, message: Seq<char> },
    /// A code outside both ranges.
    Unknown(u64),
}

impl View for Error {
    type V = ErrorView;

    open spec fn view(&self) -> ErrorView {
        match self {
            Error::Protocol(c) => ErrorView::Protocol(*c),
            Error::Application { code, message } => ErrorView::Application { code: *code, message: message@ },
            Error::Unknown(c) => ErrorView::Unknown(*c),
        }
    }
}

/// The application error [`Error::application`] builds.
pub open spec fn application_view(code: u32, message: Seq<char>) -> ErrorView {
    ErrorView::Application { code, message: truncated_text(message, 1024) }
}

impl Error {
    /// A protocol error.
    pub fn protocol(code: ErrorCode) -> (r: Error)
        ensures
            r == Error::Protocol(code),
    {
        Error::Protocol(code)
    }

    /// An application error; the message is cut to 1024 bytes at a
    /// character boundary.
    pub fn application(code: u32, message: &str) -> (r: Error)
        ensures
            r@ == application_view(code, message@),
    {
        Error::Application { code, message: truncate_text(message, 1024) }
    }

    /// The error an HTTP/3 code reports: a WebTransport code, an
    /// application code (with an empty message), or an unknown code.
    pub fn from_http3_code(code: u64) -> (r: Error)
        ensures
            match error_code_of(code) {
                Some(c) => r == Error::Protocol(c),
                None => match http3_to_app(code) {
                    Some(a) => r matches Error::Application { code: c, message: m } && c == a
                        && m@.len() == 0,
                    None => r == Error::Unknown(code),
                },
            },
    {
        match ErrorCode::from_code(code) {
            Some(c) => Error::Protocol(c),
            None => match ApplicationErrorCode::from_http3_code(code) {
                Some(a) => Error::Application { code: a, message: String::new() },
                None => Error::Unknown(code),
            },
        }
    }

    /// Whether this is a reset with a code outside the WebTransport ranges.
    pub fn is_out_of_range_reset(&self) -> (r: bool)
        ensures
            r == (self is Unknown),
    {
        match self {
            Error::Unknown(_) => true,
            _ => false,
        }
    }

    /// The HTTP/3 code of this error.
    pub fn to_http3_code(&self) -> (r: u64)
        ensures
            r == match self {
                Error::Protocol(c) => error_code_value(*c),
                Error::Application { code, .. } => app_to_http3(*code),
                Error::Unknown(c) => *c,
            },
    {
        match self {
            Error::Protocol(c) => c.value(),
            Error::Application { code, .. } => ApplicationErrorCode::to_http3_code(*code),
            Error::Unknown(c) => *c,
        }
    }
}

/// The message of a WebTransport error.
pub open spec fn wt_error_message(e: ErrorView) -> Seq<char> {
    match e {
        ErrorView::Protocol(c) => "webtransport protocol error: "@ + description_spec(c),
        ErrorView::Application { code, message } => "webtransport application error: "@ + hex_chars(code as nat) + if message.len()
            == 0 {
            Seq::empty()
        } else {
            " ("@ + message + ")"@
        },
        ErrorView::Unknown(c) => "webtransport unknown error: "@ + hex_chars(c as nat),
    }
}

impl ErrorCode {
    /// The description of this code, as `Display` writes it.
    pub fn to_string(&self) -> (r: String)
        ensures
            r@ == description_spec(*self),
    {
        let mut v: Vec<char> = Vec::new();
        push_str(&mut v, self.description());
        assert(v@ =~= description_spec(*self));
        string_from_chars(v.as_slice())
    }
}

impl Error {
    /// The message of this error.
    pub fn to_string(&self) -> (r: String)
        ensures
            r@ == wt_error_message(self@),
    {
        let mut v: Vec<char> = Vec::new();
        match self {
            Error::Protocol(c) => {
                push_str(&mut v, "webtransport protocol error: ");
                push_str(&mut v, c.description());
            },
            Error::Application { code, message } => {
                push_str(&mut v, "webtransport application error: ");
                push_hex(&mut v, *code as u64);
                if message.as_str().unicode_len() != 0 {
                    push_str(&mut v, " (");
                    push_str(&mut v, message.as_str());
                    push_str(&mut v, ")");
                }
            },
            Error::Unknown(c) => {
                push_str(&mut v, "webtransport unknown error: ");
                push_hex(&mut v, *c);
            },
        }
        assert(v@ =~= wt_error_message(self@));
        string_from_chars(v.as_slice())
    }
}

} // verus!
