use vstd::prelude::*;
use vstd::string::StringExecFns;

verus! {

/// Why a position could not be delivered.
///
/// The first three kinds are reported by the host platform; the last two are
/// produced locally.
#[derive(Debug, Clone, Copy, PartialEq, Eq, Structural)]
pub enum PositionErrorCode {
    PermissionDenied,
    PositionUnavailable,
    Timeout,
    FailedToDeserialize,
    NoBrowserSupport,
}

impl PositionErrorCode {
    /// The numeric value of the code.
    pub open spec fn spec_value(self) -> u16 {
        match self {
            PositionErrorCode::PermissionDenied => 1,
            PositionErrorCode::PositionUnavailable => 2,
            PositionErrorCode::Timeout => 3,
            PositionErrorCode::FailedToDeserialize => 4,
            PositionErrorCode::NoBrowserSupport => 5,
        }
    }

    /// Whether the host platform may report this code.
    pub open spec fn is_host_code(self) -> bool {
        self.spec_value() <= 3
    }

    pub fn value(&self) -> (r: u16)
        ensures
            r == self.spec_value(),
    {
        match self {
            PositionErrorCode::PermissionDenied => 1,
            PositionErrorCode::PositionUnavailable => 2,
            PositionErrorCode::Timeout => 3,
            PositionErrorCode::FailedToDeserialize => 4,
            PositionErrorCode::NoBrowserSupport => 5,
        }
    }
}

/// The code that the host platform means by `n`, if any.
pub open spec fn spec_map_code(n: u16) -> Option<PositionErrorCode> {
    if n == 1 {
        Some(PositionErrorCode::PermissionDenied)
    } else if n == 2 {
        Some(PositionErrorCode::PositionUnavailable)
    } else if n == 3 {
        Some(PositionErrorCode::Timeout)
    } else {
        None
    }
}

/// Maps a numeric code reported by the host platform to its kind. The host
/// only reports 1, 2 and 3; any other value yields `None`.
pub fn map_code(n: u16) -> (r: Option<PositionErrorCode>)
    ensures
        r == spec_map_code(n),
        r is Some <==> 1 <= n <= 3,
{
    match n {
        1 => Some(PositionErrorCode::PermissionDenied),
        2 => Some(PositionErrorCode::PositionUnavailable),
        3 => Some(PositionErrorCode::Timeout),
        _ => None,
    }
}

/// Mapping a host code and reading back its value gives the same number, and
/// every kind the host may report is reached by exactly one number.
pub proof fn lemma_map_code_bijective(n: u16, c: PositionErrorCode)
    ensures
        spec_map_code(n) == Some(c) <==> (c.is_host_code() && c.spec_value() == n),
{
}

/// A position error as delivered to the caller's error callback.
#[derive(Debug, Clone)]
pub struct PositionError {
    pub code: PositionErrorCode,
    pub message: String,
}

/// The text reported when the host platform offers no geolocation service.
pub open spec fn no_support_message() -> Seq<char> {
    "Could not get a handle on 'window.navigator.geolocation'"@
}

impl PositionError {
    /// The error reported when the host platform offers no geolocation service.
    pub fn no_browser_support() -> (r: PositionError)
        ensures
            r.code == PositionErrorCode::NoBrowserSupport,
            r.message@ == no_support_message(),
    {
        PositionError {
            code: PositionErrorCode::NoBrowserSupport,
            message: String::from_str("Could not get a handle on 'window.navigator.geolocation'"),
        }
    }
}

/// One field of a loosely typed payload handed over by the host platform.
#[derive(Debug, Clone)]
pub enum RawField {
    /// The field is absent.
    Missing,
    /// The field holds an integral number.
    Integer(i64),
    /// The field holds a string.
    Text(String),
    /// The field holds a value of any other kind.
    Other,
}

/// A failure payload of the host platform: an object whose `code` should be
/// an integer and whose `message` should be a string.
#[derive(Debug, Clone)]
pub struct RawPositionError {
    pub code: RawField,
    pub message: RawField,
}

/// The error that a well-formed failure payload stands for, or `None` when the
/// payload does not have the expected shape.
pub open spec fn spec_decoded(raw: RawPositionError) -> Option<(PositionErrorCode, Seq<char>)> {
    match (raw.code, raw.message) {
        (RawField::Integer(n), RawField::Text(m)) => if 1 <= n <= 3 {
            Some((spec_map_code(n as u16).unwrap(), m@))
        } else {
            None
        },
        _ => None,
    }
}

/// The diagnostic reported for a failure payload that could not be decoded.
pub open spec fn decode_diagnostic(raw: RawPositionError) -> Seq<char> {
    match raw.code {
        RawField::Missing => "missing field `code`"@,
        RawField::Integer(n) => if 1 <= n <= 3 {
            match raw.message {
                RawField::Missing => "missing field `message`"@,
                _ => "invalid type for field `message`: expected a string"@,
            }
        } else {
            "unknown position error code"@
        },
        _ => "invalid type for field `code`: expected an integer"@,
    }
}

/// Decodes a failure payload of the host platform. A payload of the wrong
/// shape still yields an error, of kind `FailedToDeserialize`.
pub fn decode_error(raw: RawPositionError) -> (r: PositionError)
    ensures
        spec_decoded(raw) matches Some((c, m)) ==> r.code == c && r.message@ == m,
        spec_decoded(raw) is None ==> r.code == PositionErrorCode::FailedToDeserialize
            && r.message@ == decode_diagnostic(raw),
{
    let code = match raw.code {
        RawField::Missing => {
            return PositionError {
                code: PositionErrorCode::FailedToDeserialize,
                message: String::from_str("missing field `code`"),
            };
        },
        RawField::Integer(n) => {
            if 1 <= n && n <= 3 {
                match map_code(n as u16) {
                    Some(c) => c,
                    None => {
                        return PositionError {
                            code: PositionErrorCode::FailedToDeserialize,
                            message: String::from_str("unknown position error code"),
                        };
                    },
                }
            } else {
                return PositionError {
                    code: PositionErrorCode::FailedToDeserialize,
                    message: String::from_str("unknown position error code"),
                };
            }
        },
        _ => {
            return PositionError {
                code: PositionErrorCode::FailedToDeserialize,
                message: String::from_str("invalid type for field `code`: expected an integer"),
            };
        },
    };
    match raw.message {
        RawField::Text(m) => PositionError { code, message: m },
        RawField::Missing => PositionError {
            code: PositionErrorCode::FailedToDeserialize,
            message: String::from_str("missing field `message`"),
        },
        _ => PositionError {
            code: PositionErrorCode::FailedToDeserialize,
            message: String::from_str("invalid type for field `message`: expected a string"),
        },
    }
}

/// A failure payload that is not an integer `code` with a string `message`
/// (a `code` given as a string, a missing `code` or `message`, ...) is
/// reported as a decode failure.
pub proof fn lemma_malformed_error_payload(raw: RawPositionError)
    requires
        !(raw.code is Integer && raw.message is Text),
    ensures
        spec_decoded(raw) is None,
{
}

/// A payload with a host code and a string message decodes to that code,
/// matched by its number, and to that message unchanged.
pub proof fn lemma_host_error_kept(n: i64, m: String)
    requires
        1 <= n <= 3,
    ensures
        spec_decoded(RawPositionError { code: RawField::Integer(n), message: RawField::Text(m) })
            matches Some((c, msg)) && c.spec_value() == n && c.is_host_code() && msg == m@,
{
}

/// Distinct host codes decode to distinct kinds, and 1, 2 and 3 reach the
/// three kinds the host may report.
pub proof fn lemma_host_codes_one_to_one(n1: i64, n2: i64)
    requires
        1 <= n1 <= 3,
        1 <= n2 <= 3,
    ensures
        spec_map_code(n1 as u16) == spec_map_code(n2 as u16) <==> n1 == n2,
        spec_map_code(1) == Some(PositionErrorCode::PermissionDenied),
        spec_map_code(2) == Some(PositionErrorCode::PositionUnavailable),
        spec_map_code(3) == Some(PositionErrorCode::Timeout),
{
}

} // verus!
