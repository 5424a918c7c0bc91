use vstd::prelude::*;

verus! {

broadcast use vstd::string::to_string_from_display_ensures_for_str;

/// Outcome of a call into the native LZO1X routines. The native layer
/// reports a small signed status code; `error_of_code` translates every
/// such code into exactly one of these named outcomes, with
/// `InternalError` as the catch-all for codes outside the documented
/// range.
#[derive(Debug, Copy, Clone, PartialEq, Eq, PartialOrd, Ord, Structural)]
pub enum LzoError {
    Success,
    Error,
    OutOfMemory,
    NotCompressible,
    InputOverrun,
    OutputOverrun,
    LookbehindOverrun,
    EofNotFound,
    InputNotConsumed,
    NotYetImplemented,
    InvalidArgument,
    InvalidAlignment,
    OutputNotConsumed,
    InternalError,
}

/// Total translation of a native status code: 0 is success, each
/// documented negative code names its own failure, and anything outside
/// the documented range falls to `InternalError`.
pub open spec fn error_of_code(code: i32) -> LzoError {
    if code == 0 {
        LzoError::Success
    } else if code == -1 {
        LzoError::Error
    } else if code == -2 {
        LzoError::OutOfMemory
    } else if code == -3 {
        LzoError::NotCompressible
    } else if code == -4 {
        LzoError::InputOverrun
    } else if code == -5 {
        LzoError::OutputOverrun
    } else if code == -6 {
        LzoError::LookbehindOverrun
    } else if code == -7 {
        LzoError::EofNotFound
    } else if code == -8 {
        LzoError::InputNotConsumed
    } else if code == -9 {
        LzoError::NotYetImplemented
    } else if code == -10 {
        LzoError::InvalidArgument
    } else if code == -11 {
        LzoError::InvalidAlignment
    } else if code == -12 {
        LzoError::OutputNotConsumed
    } else {
        LzoError::InternalError
    }
}

impl LzoError {
    /// Translate a native status code into its named outcome.
    pub fn from_code(code: i32) -> (r: LzoError)
        ensures
            r == error_of_code(code),
    {
        match code {
            0 => LzoError::Success,
            -1 => LzoError::Error,
            -2 => LzoError::OutOfMemory,
            -3 => LzoError::NotCompressible,
            -4 => LzoError::InputOverrun,
            -5 => LzoError::OutputOverrun,
            -6 => LzoError::LookbehindOverrun,
            -7 => LzoError::EofNotFound,
            -8 => LzoError::InputNotConsumed,
            -9 => LzoError::NotYetImplemented,
            -10 => LzoError::InvalidArgument,
            -11 => LzoError::InvalidAlignment,
            -12 => LzoError::OutputNotConsumed,
            _ => LzoError::InternalError,
        }
    }

    /// The fixed human-readable description of each outcome.
    pub open spec fn message_spec(self) -> Seq<char> {
        match self {
            LzoError::Success => "ok"@,
            LzoError::Error => "error"@,
            LzoError::OutOfMemory => "out of memory"@,
            LzoError::NotCompressible => "not compressible"@,
            LzoError::InputOverrun => "input overrun"@,
            LzoError::OutputOverrun => "output overrun"@,
            LzoError::LookbehindOverrun => "lookbehind overrun"@,
            LzoError::EofNotFound => "EOF not found"@,
            LzoError::InputNotConsumed => "input not consumed"@,
            LzoError::NotYetImplemented => "not yet implemented"@,
            LzoError::InvalidArgument => "invalid argument"@,
            LzoError::InvalidAlignment => "invalid alignment"@,
            LzoError::OutputNotConsumed => "output not consumed"@,
            LzoError::InternalError => "internal error"@,
        }
    }

    /// The fixed human-readable description of this outcome.
    pub fn message(&self) -> (r: String)
        ensures
            r@ == self.message_spec(),
    {
        match self {
            LzoError::Success => "ok".to_string(),
            LzoError::Error => "error".to_string(),
            LzoError::OutOfMemory => "out of memory".to_string(),
            LzoError::NotCompressible => "not compressible".to_string(),
            LzoError::InputOverrun => "input overrun".to_string(),
            LzoError::OutputOverrun => "output overrun".to_string(),
            LzoError::LookbehindOverrun => "lookbehind overrun".to_string(),
            LzoError::EofNotFound => "EOF not found".to_string(),
            LzoError::InputNotConsumed => "input not consumed".to_string(),
            LzoError::NotYetImplemented => "not yet implemented".to_string(),
            LzoError::InvalidArgument => "invalid argument".to_string(),
            LzoError::InvalidAlignment => "invalid alignment".to_string(),
            LzoError::OutputNotConsumed => "output not consumed".to_string(),
            LzoError::InternalError => "internal error".to_string(),
        }
    }
}

/// Status totality, first half: within the documented status range every
/// code names its own outcome, so no two documented codes share one.
pub proof fn lemma_status_codes_distinct(a: i32, b: i32)
    requires
        -12 <= a <= 0,
        -12 <= b <= 0,
        a != b,
    ensures
        error_of_code(a) != error_of_code(b),
{
}

/// Status totality, second half: every code outside the documented range
/// falls to the `InternalError` catch-all, so the translation is total.
pub proof fn lemma_unknown_code_is_internal(code: i32)
    requires
        code > 0 || code < -12,
    ensures
        error_of_code(code) == LzoError::InternalError,
{
}

} // verus!
