use vstd::prelude::*;

use crate::ctp;
use crate::ctp::{cstr_prefix, gb18030_cstr_text, integer_text, is_ascii_bytes, rsp_error_text};

verus! {

/// The response information that the native API attaches to a reply:
/// an error code, and a message as a NUL-terminated GB18030 byte string.
#[derive(Clone, Debug)]
pub struct RspInfo {
    pub error_id: i32,
    pub error_msg: Vec<u8>,
}

/// A refused request, as the native API reported it: its error code and decoded message.
#[derive(Clone, Debug, PartialEq)]
pub struct RspError {
    pub id: i32,
    pub msg: String,
}

/// The outcome of a request as a reply reports it.
pub type RspResult = Result<(), RspError>;

/// A reply reports success when it carries no information or its error code is 0.
pub open spec fn reports_success(info: Option<&RspInfo>) -> bool {
    match info {
        None => true,
        Some(i) => i.error_id == 0,
    }
}

/// Decodes the response information of a reply.
/// No information, or an error code of 0, is success; any other code is an error that
/// carries the code and the message decoded from GB18030 up to its first NUL
/// (an ASCII message is taken byte for byte).
pub fn from_rsp_info_to_rsp_result(info: Option<&RspInfo>) -> (r: RspResult)
    ensures
        r is Ok <==> reports_success(info),
        info is None ==> r is Ok,
        info matches Some(i) ==> (r is Ok <==> i.error_id == 0),
        info matches Some(i) ==> (i.error_id != 0 ==> (r matches Err(e) && e.id == i.error_id)),
        r matches Err(e) ==> {
            &&& info matches Some(i)
            &&& e.id == i.error_id
            &&& e.msg@ == gb18030_cstr_text(i.error_msg@)
            &&& is_ascii_bytes(cstr_prefix(i.error_msg@)) ==>
                e.msg@ == cstr_prefix(i.error_msg@).map_values(|b: u8| b as char)
        },
{
    match info {
        None => Ok(()),
        Some(i) => {
            if i.error_id == 0 {
                Ok(())
            } else {
                let msg = ctp::gb18030_cstr_to_string(i.error_msg.as_slice());
                Err(RspError { id: i.error_id, msg })
            }
        },
    }
}


/// The text that the default callbacks print for an outcome:
/// `Ok(())`, or `Err(RspError{ id: <code>, msg: <message> })`.
pub fn from_rsp_result_to_string(r: &RspResult) -> (text: String)
    ensures
        r is Ok ==> text@ == "Ok(())"@,
        r matches Err(e) ==> text@ == rsp_error_text(e.id, e.msg@),
        r matches Err(e) ==> text@ == "Err(RspError{ id: "@ + integer_text(e.id as int) + ", msg: "@
            + e.msg@ + " })"@,
{
    let text = ctp::rsp_result_to_string(r);
    proof {
        if let Err(e) = r {
            lemma_rsp_error_text_layout(e.id, e.msg@);
        }
    }
    text
}

/// A reply reports success exactly when it carries no information or its error code is 0:
/// every nonzero code is a refusal.
pub proof fn lemma_success_is_error_id_zero(i: RspInfo)
    ensures
        reports_success(None),
        reports_success(Some(&i)) <==> i.error_id == 0,
{
}

/// The text of a refusal is `Err(RspError{ id: `, the decimal code, `, msg: `, the whole
/// message and ` })`, whatever the code and the message: the message stands in it
/// unchanged just before the closing ` })`, and the code's numeral just after the opening.
pub proof fn lemma_rsp_error_text_layout(id: i32, msg: Seq<char>)
    ensures
        rsp_error_text(id, msg) == "Err(RspError{ id: "@ + integer_text(id as int) + ", msg: "@
            + msg + " })"@,
        rsp_error_text(id, msg).len() == 18 + integer_text(id as int).len() + 7 + msg.len() + 3,
        rsp_error_text(id, msg).subrange(
            rsp_error_text(id, msg).len() - msg.len() - 3,
            rsp_error_text(id, msg).len() - 3,
        ) == msg,
        rsp_error_text(id, msg).subrange(18int, 18int + integer_text(id as int).len() as int) == integer_text(id as int),
{
    reveal_strlit("Err(RspError{ id: ");
    reveal_strlit(", msg: ");
    reveal_strlit(" })");
    let t = rsp_error_text(id, msg);
    let n = integer_text(id as int);
    assert(t.subrange(t.len() - msg.len() - 3, t.len() - 3) =~= msg);
    assert(t.subrange(18int, 18int + n.len() as int) =~= n);
}


/// Two outcomes are alike: both success, or both errors with the same code and message.
pub open spec fn same_outcome(a: RspResult, b: RspResult) -> bool {
    &&& a is Ok <==> b is Ok
    &&& a matches Err(e) ==> (b matches Err(f) && f.id == e.id && f.msg@ == e.msg@)
}

/// Alike outcomes are both successes or both errors, and alike errors have the same code
/// and the same message, whatever the code.
pub proof fn lemma_same_outcome_keeps_error(a: RspResult, b: RspResult)
    requires
        same_outcome(a, b),
    ensures
        a is Ok <==> b is Ok,
        a matches Err(e) ==> (b matches Err(f) && f.id == e.id && f.msg@ == e.msg@),
{
}

/// Every outcome is alike to itself.
pub proof fn lemma_same_outcome_reflexive(a: RspResult)
    ensures
        same_outcome(a, a),
{
}

/// A copy of an outcome: the same success, or an error with the same code and message.
pub fn clone_rsp_result(r: &RspResult) -> (c: RspResult)
    ensures
        same_outcome(c, *r),
        c is Ok <==> r is Ok,
        r matches Err(e) ==> (c matches Err(f) && f.id == e.id && f.msg@ == e.msg@),
{
    match r {
        Ok(()) => Ok(()),
        Err(e) => Err(RspError { id: e.id, msg: e.msg.clone() }),
    }
}

} // verus!
