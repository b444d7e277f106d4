//! Errors of the device backend.

use vstd::prelude::*;
use vstd::string::StringExecFns;

verus! {

/// Decimal digits of `n`, most significant first.
pub open spec fn decimal(n: nat) -> Seq<char>
    decreases n,
{
    if n < 10 {
        seq![digit_char(n)]
    } else {
        decimal(n / 10).push(digit_char(n % 10))
    }
}

pub open spec fn digit_char(d: nat) -> char {
    if d == 0 { '0' }
    else if d == 1 { '1' }
    else if d == 2 { '2' }
    else if d == 3 { '3' }
    else if d == 4 { '4' }
    else if d == 5 { '5' }
    else if d == 6 { '6' }
    else if d == 7 { '7' }
    else if d == 8 { '8' }
    else { '9' }
}

/// Decimal text of a signed number, with a leading `-` when negative.
pub open spec fn signed_decimal(n: int) -> Seq<char> {
    if n < 0 {
        seq!['-'] + decimal((-n) as nat)
    } else {
        decimal(n as nat)
    }
}

/// The digit `d` (below ten) as text.
fn digit_text(d: u32) -> (r: &'static str)
    requires
        d < 10,
    ensures
        r@ == seq![digit_char(d as nat)],
{
    proof {
        reveal_strlit("0");
        reveal_strlit("1");
        reveal_strlit("2");
        reveal_strlit("3");
        reveal_strlit("4");
        reveal_strlit("5");
        reveal_strlit("6");
        reveal_strlit("7");
        reveal_strlit("8");
        reveal_strlit("9");
    }
    if d == 0 { "0" }
    else if d == 1 { "1" }
    else if d == 2 { "2" }
    else if d == 3 { "3" }
    else if d == 4 { "4" }
    else if d == 5 { "5" }
    else if d == 6 { "6" }
    else if d == 7 { "7" }
    else if d == 8 { "8" }
    else { "9" }
}

/// Decimal digits of `n`, without leading zeros.
pub(crate) fn u32_text(n: u32) -> (r: String)
    ensures
        r@ == decimal(n as nat),
    decreases n,
{
    if n < 10 {
        String::from_str(digit_text(n))
    } else {
        let head = u32_text(n / 10);
        head.concat(digit_text(n % 10))
    }
}

/// Decimal digits of `n`, after a `-` when negative.
fn i32_text(n: i32) -> (r: String)
    ensures
        r@ == signed_decimal(n as int),
{
    if n < 0 {
        let magnitude: u32 = if n == i32::MIN { 2147483648u32 } else { (-n) as u32 };
        let digits = u32_text(magnitude);
        proof {
            reveal_strlit("-");
        }
        String::from_str("-").concat(digits.as_str())
    } else {
        u32_text(n as u32)
    }
}

/// Error of a device-backend operation.
#[derive(Debug, Clone)]
pub enum AudioBackendError {
    DeviceNotFound(String),
    DeviceEnumerationFailed(String),
    UnsupportedSampleRate(u32),
    SampleRateChangeFailed { requested: u32, reason: String },
    ExclusiveModeFailed(String),
    StreamCreationFailed(String),
    SystemError { code: i32, message: String },
    NotSupported(String),
    Other(String),
}

/// The human-readable text of an error.
pub open spec fn error_text(e: AudioBackendError) -> Seq<char> {
    match e {
        AudioBackendError::DeviceNotFound(name) => "Device not found: "@ + name@,
        AudioBackendError::DeviceEnumerationFailed(m) => "Device enumeration failed: "@ + m@,
        AudioBackendError::UnsupportedSampleRate(rate) =>
            "Unsupported sample rate: "@ + decimal(rate as nat) + " Hz"@,
        AudioBackendError::SampleRateChangeFailed { requested, reason } =>
            "Failed to set sample rate to "@ + decimal(requested as nat) + " Hz: "@ + reason@,
        AudioBackendError::ExclusiveModeFailed(m) => "Exclusive mode failed: "@ + m@,
        AudioBackendError::StreamCreationFailed(m) => "Stream creation failed: "@ + m@,
        AudioBackendError::SystemError { code, message } =>
            "System error "@ + signed_decimal(code as int) + ": "@ + message@,
        AudioBackendError::NotSupported(op) => "Not supported: "@ + op@,
        AudioBackendError::Other(m) => m@,
    }
}

impl AudioBackendError {
    /// The error as text, for logs and for the user.
    pub fn message(&self) -> (r: String)
        ensures
            r@ == error_text(*self),
    {
        match self {
            AudioBackendError::DeviceNotFound(name) => {
                String::from_str("Device not found: ").concat(name.as_str())
            },
            AudioBackendError::DeviceEnumerationFailed(m) => {
                String::from_str("Device enumeration failed: ").concat(m.as_str())
            },
            AudioBackendError::UnsupportedSampleRate(rate) => {
                let digits = u32_text(*rate);
                String::from_str("Unsupported sample rate: ").concat(digits.as_str()).concat(" Hz")
            },
            AudioBackendError::SampleRateChangeFailed { requested, reason } => {
                let digits = u32_text(*requested);
                String::from_str("Failed to set sample rate to ").concat(digits.as_str()).concat(
                    " Hz: ",
                ).concat(reason.as_str())
            },
            AudioBackendError::ExclusiveModeFailed(m) => {
                String::from_str("Exclusive mode failed: ").concat(m.as_str())
            },
            AudioBackendError::StreamCreationFailed(m) => {
                String::from_str("Stream creation failed: ").concat(m.as_str())
            },
            AudioBackendError::SystemError { code, message } => {
                let digits = i32_text(*code);
                String::from_str("System error ").concat(digits.as_str()).concat(": ").concat(
                    message.as_str(),
                )
            },
            AudioBackendError::NotSupported(op) => {
                String::from_str("Not supported: ").concat(op.as_str())
            },
            AudioBackendError::Other(m) => m.clone(),
        }
    }
}

} // verus!
