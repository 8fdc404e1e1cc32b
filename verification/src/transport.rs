//! The transport's verdict on a delivery attempt.
//!
//! The HTTP round trip itself happens outside this crate. What comes back
//! from it, a status code or a fault, is classified here.

use vstd::prelude::*;
use vstd::string::*;

verus! {

/// What a delivery attempt came back with.
#[derive(Debug, PartialEq, Eq)]
pub enum Reply {
    /// The endpoint answered with this HTTP status code.
    Status(u16),
    /// No answer arrived: the connection failed, timed out or broke.
    Fault(String),
}

/// The result of one delivery attempt.
#[derive(Debug, PartialEq, Eq)]
pub struct DeliveryOutcome {
    /// Whether the endpoint took the batch.
    pub success: bool,
    /// What went wrong; present exactly when `success` is false.
    pub error_detail: Option<String>,
}

/// What precedes the status code in the detail of a refused delivery.
pub const STATUS_DETAIL_PREFIX: &'static str = "unexpected HTTP status ";

/// The text of a single decimal digit.
pub open spec fn digit_text(digit: nat) -> Seq<char> {
    if digit == 0 {
        "0"@
    } else if digit == 1 {
        "1"@
    } else if digit == 2 {
        "2"@
    } else if digit == 3 {
        "3"@
    } else if digit == 4 {
        "4"@
    } else if digit == 5 {
        "5"@
    } else if digit == 6 {
        "6"@
    } else if digit == 7 {
        "7"@
    } else if digit == 8 {
        "8"@
    } else {
        "9"@
    }
}

/// The decimal numeral of `n`, without leading zeros.
pub open spec fn decimal_text(n: nat) -> Seq<char>
    decreases n,
{
    if n < 10 {
        digit_text(n)
    } else {
        decimal_text(n / 10) + digit_text(n % 10)
    }
}

/// Whether a status code reports success: the 2xx range and nothing else.
pub open spec fn is_success_status(code: u16) -> bool {
    200 <= code <= 299
}

/// The detail that describes a refusal with status `code`.
pub open spec fn status_detail(code: u16) -> Seq<char> {
    STATUS_DETAIL_PREFIX@ + decimal_text(code as nat)
}

/// The error detail that belongs to `reply`; `None` where it is a success.
pub open spec fn detail_of(reply: Reply) -> Option<Seq<char>> {
    match reply {
        Reply::Status(code) => if is_success_status(code) {
            None
        } else {
            Some(status_detail(code))
        },
        Reply::Fault(detail) => Some(detail@),
    }
}

impl DeliveryOutcome {
    /// The error detail as characters, where there is one.
    pub open spec fn detail(&self) -> Option<Seq<char>> {
        match self.error_detail {
            Some(text) => Some(text@),
            None => None,
        }
    }

    /// A failed attempt carries a detail and a successful one does not.
    pub open spec fn wf(&self) -> bool {
        self.success <==> self.error_detail is None
    }

    /// The outcome of an attempt that the endpoint accepted.
    pub fn delivered() -> (outcome: Self)
        ensures
            outcome.wf(),
            outcome.success,
    {
        DeliveryOutcome { success: true, error_detail: None }
    }

    /// The outcome of an attempt that failed for the reason given.
    pub fn failed(detail: String) -> (outcome: Self)
        ensures
            outcome.wf(),
            !outcome.success,
            outcome.detail() == Some(detail@),
    {
        DeliveryOutcome { success: false, error_detail: Some(detail) }
    }
}

/// The text of the decimal digit `d`.
fn digit(d: u16) -> (text: &'static str)
    requires
        d < 10,
    ensures
        text@ == digit_text(d as nat),
{
    if d == 0 {
        "0"
    } else if d == 1 {
        "1"
    } else if d == 2 {
        "2"
    } else if d == 3 {
        "3"
    } else if d == 4 {
        "4"
    } else if d == 5 {
        "5"
    } else if d == 6 {
        "6"
    } else if d == 7 {
        "7"
    } else if d == 8 {
        "8"
    } else {
        "9"
    }
}

/// Appends the decimal numeral of `n` to `text`.
fn append_decimal(text: &mut String, n: u16)
    ensures
        final(text)@ == old(text)@ + decimal_text(n as nat),
    decreases n,
{
    if n >= 10 {
        append_decimal(text, n / 10);
    }
    text.append(digit(n % 10));
}

/// Classifies what a delivery attempt came back with. Any 2xx status is a
/// success; every other status, and every fault, is a failure that carries
/// a describing detail.
pub fn classify(reply: Reply) -> (outcome: DeliveryOutcome)
    ensures
        outcome.wf(),
        outcome.success == (detail_of(reply) is None),
        outcome.detail() == detail_of(reply),
{
    match reply {
        Reply::Status(code) => {
            if 200 <= code && code <= 299 {
                DeliveryOutcome::delivered()
            } else {
                let mut detail = String::from_str(STATUS_DETAIL_PREFIX);
                append_decimal(&mut detail, code);
                DeliveryOutcome::failed(detail)
            }
        },
        Reply::Fault(detail) => DeliveryOutcome::failed(detail),
    }
}

} // verus!
