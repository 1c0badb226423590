use vstd::prelude::*;

use crate::ctp;

verus! {

/// The C side passes booleans as an unsigned byte: zero is false, anything else is true.
pub open spec fn spec_bool_from_c(c: u8) -> bool {
    c != 0
}

/// The byte that the C side reads as `b`.
pub open spec fn spec_c_bool_from(b: bool) -> u8 {
    if b { 1 } else { 0 }
}

/// Reads a C boolean byte, as the callbacks do with their `bIsLast` flag.
pub fn bool_from_c(c: u8) -> (b: bool)
    ensures
        b == spec_bool_from_c(c),
{
    c != 0
}

/// Writes a boolean as the byte that the C side expects (`use_udp`, `use_multicast`).
pub fn c_bool_from(b: bool) -> (c: u8)
    ensures
        c == spec_c_bool_from(b),
{
    if b { 1 } else { 0 }
}

/// A boolean written for the C side and read back is the same boolean.
pub proof fn lemma_c_bool_round_trip(b: bool)
    ensures
        spec_bool_from_c(spec_c_bool_from(b)) == b,
{
}

/// Why the connection to the front end was lost.
#[derive(Clone, Copy, Debug, PartialEq, Eq, Structural)]
pub enum DisconnectionReason {
    ReadError,
    WriteError,
    HeartbeatTimeout,
    HeartbeatSendError,
    ErrorMessageReceived,
    Unknown,
}

/// The reason that the native API's `nReason` code stands for.
pub open spec fn spec_disconnection_reason(code: i32) -> DisconnectionReason {
    if code == 0x1001 {
        DisconnectionReason::ReadError
    } else if code == 0x1002 {
        DisconnectionReason::WriteError
    } else if code == 0x2001 {
        DisconnectionReason::HeartbeatTimeout
    } else if code == 0x2002 {
        DisconnectionReason::HeartbeatSendError
    } else if code == 0x2003 {
        DisconnectionReason::ErrorMessageReceived
    } else {
        DisconnectionReason::Unknown
    }
}

/// The native API's code for each reason (`Unknown` stands for 0).
pub open spec fn spec_disconnection_code(reason: DisconnectionReason) -> i32 {
    match reason {
        DisconnectionReason::ReadError => 0x1001,
        DisconnectionReason::WriteError => 0x1002,
        DisconnectionReason::HeartbeatTimeout => 0x2001,
        DisconnectionReason::HeartbeatSendError => 0x2002,
        DisconnectionReason::ErrorMessageReceived => 0x2003,
        DisconnectionReason::Unknown => 0,
    }
}

impl DisconnectionReason {
    /// The native API's code for this reason, the number that the reason stands for.
    pub fn code(&self) -> (c: i32)
        ensures
            c == spec_disconnection_code(*self),
    {
        match self {
            DisconnectionReason::ReadError => 0x1001,
            DisconnectionReason::WriteError => 0x1002,
            DisconnectionReason::HeartbeatTimeout => 0x2001,
            DisconnectionReason::HeartbeatSendError => 0x2002,
            DisconnectionReason::ErrorMessageReceived => 0x2003,
            DisconnectionReason::Unknown => 0,
        }
    }
}

/// Every reason is decoded back from its own code.
pub proof fn lemma_disconnection_code_round_trip(reason: DisconnectionReason)
    ensures
        spec_disconnection_reason(spec_disconnection_code(reason)) == reason,
{
}

/// Decodes the `nReason` argument of the front-disconnected callback.
pub fn disconnection_reason_from(code: i32) -> (reason: DisconnectionReason)
    ensures
        reason == spec_disconnection_reason(code),
{
    ctp::disconnection_reason(code)
}

/// Why a request could not be handed to the native API.
#[derive(Clone, Copy, Debug, PartialEq, Eq, Structural)]
pub enum ApiError {
    NetworkError,
    QueueFull,
    Throttled,
}

/// The return code that the native API gives for each error.
pub open spec fn spec_api_error_code(e: ApiError) -> i32 {
    match e {
        ApiError::NetworkError => -1i32,
        ApiError::QueueFull => -2i32,
        ApiError::Throttled => -3i32,
    }
}

impl ApiError {
    /// The native API's return code for this error, the number that the error stands for.
    pub fn code(&self) -> (c: i32)
        ensures
            c == spec_api_error_code(*self),
    {
        match self {
            ApiError::NetworkError => -1,
            ApiError::QueueFull => -2,
            ApiError::Throttled => -3,
        }
    }
}

/// Every error is decoded back from its own return code.
pub proof fn lemma_api_error_code_round_trip(e: ApiError)
    ensures
        is_specified_api_return(spec_api_error_code(e)),
        spec_api_result(spec_api_error_code(e)) == Err::<(), ApiError>(e),
{
}

/// What a request call of the native API reports: accepted, or the reason it was not.
pub type ApiResult = Result<(), ApiError>;

/// The return codes that the native API's specification allows for a request.
pub open spec fn is_specified_api_return(code: i32) -> bool {
    -3 <= code <= 0
}

/// The outcome that a specified return code stands for.
pub open spec fn spec_api_result(code: i32) -> ApiResult {
    if code == 0 {
        Ok(())
    } else if code == -1 {
        Err(ApiError::NetworkError)
    } else if code == -2 {
        Err(ApiError::QueueFull)
    } else {
        Err(ApiError::Throttled)
    }
}

/// Decodes the return code of a request (`join`, the subscriptions, login and logout).
/// A code outside the specification makes the native binding panic, so it is left out here.
pub fn from_api_return_to_api_result(code: i32) -> (r: ApiResult)
    requires
        is_specified_api_return(code),
    ensures
        r == spec_api_result(code),
        r is Ok <==> code == 0,
{
    ctp::api_result(code)
}

} // verus!
