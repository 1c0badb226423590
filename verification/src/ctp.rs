//! The calls into `ctp_common`, with what is believed of each.

use vstd::prelude::*;

use crate::rsp::RspResult;
use crate::codes::{ApiError, ApiResult, DisconnectionReason, spec_disconnection_reason, spec_api_result, is_specified_api_return};

verus! {

/// Calls `ctp_common::DisconnectionReason::from` (its `From<c_int>` impl), which maps the
/// five documented reason codes to their variants and every other code to `Unknown`;
/// the variant is carried over to the library's own enum of the same shape.
#[verifier::external_body]
pub(crate) fn disconnection_reason(code: i32) -> (reason: DisconnectionReason)
    ensures
        reason == spec_disconnection_reason(code),
{
    match ctp_common::DisconnectionReason::from(code) {
        ctp_common::DisconnectionReason::ReadError => DisconnectionReason::ReadError,
        ctp_common::DisconnectionReason::WriteError => DisconnectionReason::WriteError,
        ctp_common::DisconnectionReason::HeartbeatTimeout => DisconnectionReason::HeartbeatTimeout,
        ctp_common::DisconnectionReason::HeartbeatSendError => DisconnectionReason::HeartbeatSendError,
        ctp_common::DisconnectionReason::ErrorMessageReceived => DisconnectionReason::ErrorMessageReceived,
        ctp_common::DisconnectionReason::Unknown => DisconnectionReason::Unknown,
    }
}

/// Calls `ctp_common::from_api_return_to_api_result`, which maps 0 to `Ok(())` and
/// -1, -2, -3 to `NetworkError`, `QueueFull`, `Throttled`, and panics on any other code
/// (hence the `requires`); the error is carried over to the library's own enum.
#[verifier::external_body]
pub(crate) fn api_result(code: i32) -> (r: ApiResult)
    requires
        is_specified_api_return(code),
    ensures
        r == spec_api_result(code),
{
    match ctp_common::from_api_return_to_api_result(code) {
        Ok(()) => Ok(()),
        Err(ctp_common::ApiError::NetworkError) => Err(ApiError::NetworkError),
        Err(ctp_common::ApiError::QueueFull) => Err(ApiError::QueueFull),
        Err(ctp_common::ApiError::Throttled) => Err(ApiError::Throttled),
    }
}


/// The bytes of a C string stored in a buffer: everything before the first NUL,
/// or the whole buffer when it holds none.
pub open spec fn cstr_prefix(bytes: Seq<u8>) -> Seq<u8>
    decreases bytes.len(),
{
    if bytes.len() == 0 || bytes[0] == 0 {
        Seq::empty()
    } else {
        seq![bytes[0]] + cstr_prefix(bytes.drop_first())
    }
}

/// Every byte is below 0x80.
pub open spec fn is_ascii_bytes(bytes: Seq<u8>) -> bool {
    forall|i: int| 0 <= i < bytes.len() ==> #[trigger] bytes[i] < 0x80
}

/// The text that `ctp_common::gb18030_cstr_to_str` decodes from a buffer.
pub uninterp spec fn gb18030_cstr_text(bytes: Seq<u8>) -> Seq<char>;

/// Calls `ctp_common::gb18030_cstr_to_str` and takes the text as an owned `String`.
/// The function cuts the buffer at its first NUL; an ASCII prefix is returned as it is
/// (that much is stated), anything else goes through the `encoding` crate's GB18030
/// decoder with replacement of malformed input, which is only named here.
#[verifier::external_body]
pub(crate) fn gb18030_cstr_to_string(bytes: &[u8]) -> (text: String)
    ensures
        text@ == gb18030_cstr_text(bytes@),
        is_ascii_bytes(cstr_prefix(bytes@)) ==>
            text@ == cstr_prefix(bytes@).map_values(|b: u8| b as char),
{
    ctp_common::gb18030_cstr_to_str(bytes).into_owned()
}


/// The decimal digit `d` (0 to 9) as a character.
pub open spec fn digit_char(d: nat) -> char {
    (48 + d) as char
}

/// The decimal numeral of `n`, without leading zeros.
pub open spec fn natural_text(n: nat) -> Seq<char>
    decreases n,
{
    if n < 10 {
        seq![digit_char(n)]
    } else {
        natural_text(n / 10).push(digit_char(n % 10))
    }
}

/// The value of a string of decimal digits.
pub open spec fn numeral_value(s: Seq<char>) -> int
    decreases s.len(),
{
    if s.len() == 0 {
        0
    } else {
        numeral_value(s.drop_last()) * 10 + (s.last() as int - 48)
    }
}

/// The numeral of `n` is made of decimal digits, starts with a nonzero digit unless `n` is
/// 0, and reads back as `n`: it is the usual decimal writing of `n`.
pub proof fn lemma_natural_text_is_decimal(n: nat)
    ensures
        natural_text(n).len() >= 1,
        forall|i: int| 0 <= i < natural_text(n).len() ==> '0' <= #[trigger] natural_text(n)[i] <= '9',
        n > 0 ==> natural_text(n)[0] != '0',
        numeral_value(natural_text(n)) == n,
    decreases n,
{
    let d = digit_char(n % 10);
    assert(d as int == 48 + n % 10);
    if n >= 10 {
        lemma_natural_text_is_decimal(n / 10);
        let t = natural_text(n);
        assert(t.drop_last() =~= natural_text(n / 10));
        assert forall|i: int| 0 <= i < t.len() implies '0' <= #[trigger] t[i] <= '9' by {
            if i < t.len() - 1 {
                assert(t[i] == natural_text(n / 10)[i]);
            }
        }
        assert(t[0] == natural_text(n / 10)[0]);
        assert(t.last() == d);
        assert(numeral_value(t) == numeral_value(natural_text(n / 10)) * 10 + (d as int - 48));
        assert((n / 10) * 10 + n % 10 == n);
    } else {
        let t = natural_text(n);
        assert(t.drop_last() =~= Seq::<char>::empty());
        assert(t.last() == d);
        assert(numeral_value(t) == numeral_value(t.drop_last()) * 10 + (d as int - 48));
    }
}

/// An integer as `Display` writes it: a minus sign for a negative value, then the numeral.
pub open spec fn integer_text(i: int) -> Seq<char> {
    if i < 0 {
        seq!['-'] + natural_text((-i) as nat)
    } else {
        natural_text(i as nat)
    }
}

/// The text of an integer is its decimal numeral, after a minus sign exactly when the
/// integer is negative: it reads back as the integer.
pub proof fn lemma_integer_text_is_decimal(i: int)
    ensures
        i >= 0 ==> numeral_value(integer_text(i)) == i && integer_text(i)[0] != '-',
        i < 0 ==> integer_text(i)[0] == '-' && numeral_value(integer_text(i).drop_first()) == -i,
{
    if i >= 0 {
        lemma_natural_text_is_decimal(i as nat);
        assert('0' <= natural_text(i as nat)[0] <= '9');
    } else {
        lemma_natural_text_is_decimal((-i) as nat);
        assert(integer_text(i).drop_first() =~= natural_text((-i) as nat));
    }
}

/// The text that `ctp_common::from_rsp_result_to_string` writes for an error.
pub open spec fn rsp_error_text(id: i32, msg: Seq<char>) -> Seq<char> {
    "Err(RspError{ id: "@ + integer_text(id as int) + ", msg: "@ + msg + " })"@
}

/// Calls `ctp_common::from_rsp_result_to_string` on the same outcome in `ctp_common`'s
/// types. Its source writes `Ok(())` for success and, for an error, the `format!` string
/// `Err(RspError{{ id: {}, msg: {} }})` with the code and the message, as stated.
#[verifier::external_body]
pub(crate) fn rsp_result_to_string(r: &RspResult) -> (text: String)
    ensures
        r is Ok ==> text@ == "Ok(())"@,
        r matches Err(e) ==> text@ == rsp_error_text(e.id, e.msg@),
{
    let outcome: ctp_common::RspResult = match r {
        Ok(()) => Ok(()),
        Err(e) => Err(ctp_common::RspError { id: e.id, msg: e.msg.clone() }),
    };
    ctp_common::from_rsp_result_to_string(&outcome)
}


/// The login reply record of the native API, carried through unread.
#[verifier::external_type_specification]
#[verifier::external_body]
pub struct ExRspUserLoginField(ctp_common::CThostFtdcRspUserLoginField);

/// The logout record of the native API, carried through unread.
#[verifier::external_type_specification]
#[verifier::external_body]
pub struct ExUserLogoutField(ctp_common::CThostFtdcUserLogoutField);

/// The instrument record of the native API's subscription replies, carried through unread.
#[verifier::external_type_specification]
#[verifier::external_body]
pub struct ExSpecificInstrumentField(ctp_common::CThostFtdcSpecificInstrumentField);

/// The depth market-data record of the native API, carried through unread.
#[verifier::external_type_specification]
#[verifier::external_body]
pub struct ExDepthMarketDataField(ctp_common::CThostFtdcDepthMarketDataField);

/// The quote-request record of the native API, carried through unread.
#[verifier::external_type_specification]
#[verifier::external_body]
pub struct ExForQuoteRspField(ctp_common::CThostFtdcForQuoteRspField);

} // verus!
