//! The callbacks of the market-data API as values, for an SPI that forwards them elsewhere.

use vstd::prelude::*;

use ctp_common::{
    CThostFtdcDepthMarketDataField, CThostFtdcForQuoteRspField, CThostFtdcRspUserLoginField,
    CThostFtdcSpecificInstrumentField, CThostFtdcUserLogoutField,
};

use crate::codes::DisconnectionReason;
use crate::rsp::{RspResult, clone_rsp_result, same_outcome};

verus! {

/// The front end is connected.
#[derive(Clone, Debug)]
pub struct MdSpiOnFrontConnected {}

/// The front end was lost, for `reason`.
#[derive(Clone, Debug)]
pub struct MdSpiOnFrontDisconnected {
    pub reason: DisconnectionReason,
}

/// The reply to a login request.
#[derive(Debug)]
pub struct MdSpiOnRspUserLogin {
    pub user_login: Option<CThostFtdcRspUserLoginField>,
    pub result: RspResult,
    pub request_id: i32,
    pub is_last: bool,
}

/// The reply to a logout request.
#[derive(Debug)]
pub struct MdSpiOnRspUserLogout {
    pub user_logout: Option<CThostFtdcUserLogoutField>,
    pub result: RspResult,
    pub request_id: i32,
    pub is_last: bool,
}

/// An error reply to a request.
#[derive(Debug)]
pub struct MdSpiOnRspError {
    pub result: RspResult,
    pub request_id: i32,
    pub is_last: bool,
}

/// The reply to a market-data subscription.
#[derive(Debug)]
pub struct MdSpiOnRspSubMarketData {
    pub specific_instrument: Option<CThostFtdcSpecificInstrumentField>,
    pub result: RspResult,
    pub request_id: i32,
    pub is_last: bool,
}

/// The reply to a market-data unsubscription.
#[derive(Debug)]
pub struct MdSpiOnRspUnSubMarketData {
    pub specific_instrument: Option<CThostFtdcSpecificInstrumentField>,
    pub result: RspResult,
    pub request_id: i32,
    pub is_last: bool,
}

/// The reply to a quote-request subscription.
#[derive(Debug)]
pub struct MdSpiOnRspSubForQuoteRsp {
    pub specific_instrument: Option<CThostFtdcSpecificInstrumentField>,
    pub result: RspResult,
    pub request_id: i32,
    pub is_last: bool,
}

/// The reply to a quote-request unsubscription.
#[derive(Debug)]
pub struct MdSpiOnRspUnSubForQuoteRsp {
    pub specific_instrument: Option<CThostFtdcSpecificInstrumentField>,
    pub result: RspResult,
    pub request_id: i32,
    pub is_last: bool,
}

/// A depth market-data update.
#[derive(Debug)]
pub struct MdSpiOnRtnDepthMarketData {
    pub depth_market_data: CThostFtdcDepthMarketDataField,
}

/// A quote request from the exchange.
#[derive(Debug)]
pub struct MdSpiOnRtnForQuoteRsp {
    pub for_quote_rsp: CThostFtdcForQuoteRspField,
}

/// Any one callback of the market-data API.
#[derive(Clone, Debug)]
pub enum MdSpiOutput {
    FrontConnected(MdSpiOnFrontConnected),
    RspUserLogin(MdSpiOnRspUserLogin),
    FrontDisconnected(MdSpiOnFrontDisconnected),
    RspUserLogout(MdSpiOnRspUserLogout),
    RspError(MdSpiOnRspError),
    SubMarketData(MdSpiOnRspSubMarketData),
    UnSubMarketData(MdSpiOnRspUnSubMarketData),
    SubForQuoteRsp(MdSpiOnRspSubForQuoteRsp),
    UnSubForQuoteRsp(MdSpiOnRspUnSubForQuoteRsp),
    DepthMarketData(MdSpiOnRtnDepthMarketData),
    ForQuoteRsp(MdSpiOnRtnForQuoteRsp),
}

/// What a forwarding SPI sends when the front end connects.
pub fn front_connected_output() -> (o: MdSpiOutput)
    ensures
        o == MdSpiOutput::FrontConnected(MdSpiOnFrontConnected {}),
{
    MdSpiOutput::FrontConnected(MdSpiOnFrontConnected {})
}

/// What a forwarding SPI sends when the front end is lost.
pub fn front_disconnected_output(reason: DisconnectionReason) -> (o: MdSpiOutput)
    ensures
        o == MdSpiOutput::FrontDisconnected(MdSpiOnFrontDisconnected { reason }),
{
    MdSpiOutput::FrontDisconnected(MdSpiOnFrontDisconnected { reason })
}

/// What a forwarding SPI sends for the reply to a login request.
pub fn rsp_user_login_output(user_login: Option<CThostFtdcRspUserLoginField>, result: RspResult, request_id: i32, is_last: bool) -> (o: MdSpiOutput)
    ensures
        o == MdSpiOutput::RspUserLogin(MdSpiOnRspUserLogin { user_login, result, request_id, is_last }),
{
    MdSpiOutput::RspUserLogin(MdSpiOnRspUserLogin { user_login, result, request_id, is_last })
}

/// What a forwarding SPI sends for the reply to a logout request.
pub fn rsp_user_logout_output(user_logout: Option<CThostFtdcUserLogoutField>, result: RspResult, request_id: i32, is_last: bool) -> (o: MdSpiOutput)
    ensures
        o == MdSpiOutput::RspUserLogout(MdSpiOnRspUserLogout { user_logout, result, request_id, is_last }),
{
    MdSpiOutput::RspUserLogout(MdSpiOnRspUserLogout { user_logout, result, request_id, is_last })
}

/// What a forwarding SPI sends for an error reply.
pub fn rsp_error_output(result: RspResult, request_id: i32, is_last: bool) -> (o: MdSpiOutput)
    ensures
        o == MdSpiOutput::RspError(MdSpiOnRspError { result, request_id, is_last }),
{
    MdSpiOutput::RspError(MdSpiOnRspError { result, request_id, is_last })
}

/// What a forwarding SPI sends for the reply to a market-data subscription.
pub fn sub_market_data_output(specific_instrument: Option<CThostFtdcSpecificInstrumentField>, result: RspResult, request_id: i32, is_last: bool) -> (o: MdSpiOutput)
    ensures
        o == MdSpiOutput::SubMarketData(MdSpiOnRspSubMarketData { specific_instrument, result, request_id, is_last }),
{
    MdSpiOutput::SubMarketData(MdSpiOnRspSubMarketData { specific_instrument, result, request_id, is_last })
}

/// What a forwarding SPI sends for the reply to a market-data unsubscription.
pub fn un_sub_market_data_output(specific_instrument: Option<CThostFtdcSpecificInstrumentField>, result: RspResult, request_id: i32, is_last: bool) -> (o: MdSpiOutput)
    ensures
        o == MdSpiOutput::UnSubMarketData(MdSpiOnRspUnSubMarketData { specific_instrument, result, request_id, is_last }),
{
    MdSpiOutput::UnSubMarketData(MdSpiOnRspUnSubMarketData { specific_instrument, result, request_id, is_last })
}

/// What a forwarding SPI sends for the reply to a quote-request subscription.
pub fn sub_for_quote_rsp_output(specific_instrument: Option<CThostFtdcSpecificInstrumentField>, result: RspResult, request_id: i32, is_last: bool) -> (o: MdSpiOutput)
    ensures
        o == MdSpiOutput::SubForQuoteRsp(MdSpiOnRspSubForQuoteRsp { specific_instrument, result, request_id, is_last }),
{
    MdSpiOutput::SubForQuoteRsp(MdSpiOnRspSubForQuoteRsp { specific_instrument, result, request_id, is_last })
}

/// What a forwarding SPI sends for the reply to a quote-request unsubscription.
pub fn un_sub_for_quote_rsp_output(specific_instrument: Option<CThostFtdcSpecificInstrumentField>, result: RspResult, request_id: i32, is_last: bool) -> (o: MdSpiOutput)
    ensures
        o == MdSpiOutput::UnSubForQuoteRsp(MdSpiOnRspUnSubForQuoteRsp { specific_instrument, result, request_id, is_last }),
{
    MdSpiOutput::UnSubForQuoteRsp(MdSpiOnRspUnSubForQuoteRsp { specific_instrument, result, request_id, is_last })
}

/// What a forwarding SPI sends for a depth market-data update.
pub fn depth_market_data_output(depth_market_data: CThostFtdcDepthMarketDataField) -> (o: MdSpiOutput)
    ensures
        o == MdSpiOutput::DepthMarketData(MdSpiOnRtnDepthMarketData { depth_market_data }),
{
    MdSpiOutput::DepthMarketData(MdSpiOnRtnDepthMarketData { depth_market_data })
}

/// What a forwarding SPI sends for a quote request from the exchange.
pub fn for_quote_rsp_output(for_quote_rsp: CThostFtdcForQuoteRspField) -> (o: MdSpiOutput)
    ensures
        o == MdSpiOutput::ForQuoteRsp(MdSpiOnRtnForQuoteRsp { for_quote_rsp }),
{
    MdSpiOutput::ForQuoteRsp(MdSpiOnRtnForQuoteRsp { for_quote_rsp })
}

impl Clone for MdSpiOnRspUserLogin {
    fn clone(&self) -> (c: Self)
        ensures
            c.user_login == self.user_login,
            same_outcome(c.result, self.result),
            c.result is Ok <==> self.result is Ok,
            self.result matches Err(e) ==> (c.result matches Err(f) && f.id == e.id && f.msg@ == e.msg@),
            c.request_id == self.request_id,
            c.is_last == self.is_last,
    {
        MdSpiOnRspUserLogin {
            user_login: self.user_login,
            result: clone_rsp_result(&self.result),
            request_id: self.request_id,
            is_last: self.is_last,
        }
    }
}

impl Clone for MdSpiOnRspUserLogout {
    fn clone(&self) -> (c: Self)
        ensures
            c.user_logout == self.user_logout,
            same_outcome(c.result, self.result),
            c.result is Ok <==> self.result is Ok,
            self.result matches Err(e) ==> (c.result matches Err(f) && f.id == e.id && f.msg@ == e.msg@),
            c.request_id == self.request_id,
            c.is_last == self.is_last,
    {
        MdSpiOnRspUserLogout {
            user_logout: self.user_logout,
            result: clone_rsp_result(&self.result),
            request_id: self.request_id,
            is_last: self.is_last,
        }
    }
}

impl Clone for MdSpiOnRspError {
    fn clone(&self) -> (c: Self)
        ensures
            same_outcome(c.result, self.result),
            c.result is Ok <==> self.result is Ok,
            self.result matches Err(e) ==> (c.result matches Err(f) && f.id == e.id && f.msg@ == e.msg@),
            c.request_id == self.request_id,
            c.is_last == self.is_last,
    {
        MdSpiOnRspError {
            result: clone_rsp_result(&self.result),
            request_id: self.request_id,
            is_last: self.is_last,
        }
    }
}

impl Clone for MdSpiOnRspSubMarketData {
    fn clone(&self) -> (c: Self)
        ensures
            c.specific_instrument == self.specific_instrument,
            same_outcome(c.result, self.result),
            c.result is Ok <==> self.result is Ok,
            self.result matches Err(e) ==> (c.result matches Err(f) && f.id == e.id && f.msg@ == e.msg@),
            c.request_id == self.request_id,
            c.is_last == self.is_last,
    {
        MdSpiOnRspSubMarketData {
            specific_instrument: self.specific_instrument,
            result: clone_rsp_result(&self.result),
            request_id: self.request_id,
            is_last: self.is_last,
        }
    }
}

impl Clone for MdSpiOnRspUnSubMarketData {
    fn clone(&self) -> (c: Self)
        ensures
            c.specific_instrument == self.specific_instrument,
            same_outcome(c.result, self.result),
            c.result is Ok <==> self.result is Ok,
            self.result matches Err(e) ==> (c.result matches Err(f) && f.id == e.id && f.msg@ == e.msg@),
            c.request_id == self.request_id,
            c.is_last == self.is_last,
    {
        MdSpiOnRspUnSubMarketData {
            specific_instrument: self.specific_instrument,
            result: clone_rsp_result(&self.result),
            request_id: self.request_id,
            is_last: self.is_last,
        }
    }
}

impl Clone for MdSpiOnRspSubForQuoteRsp {
    fn clone(&self) -> (c: Self)
        ensures
            c.specific_instrument == self.specific_instrument,
            same_outcome(c.result, self.result),
            c.result is Ok <==> self.result is Ok,
            self.result matches Err(e) ==> (c.result matches Err(f) && f.id == e.id && f.msg@ == e.msg@),
            c.request_id == self.request_id,
            c.is_last == self.is_last,
    {
        MdSpiOnRspSubForQuoteRsp {
            specific_instrument: self.specific_instrument,
            result: clone_rsp_result(&self.result),
            request_id: self.request_id,
            is_last: self.is_last,
        }
    }
}

impl Clone for MdSpiOnRspUnSubForQuoteRsp {
    fn clone(&self) -> (c: Self)
        ensures
            c.specific_instrument == self.specific_instrument,
            same_outcome(c.result, self.result),
            c.result is Ok <==> self.result is Ok,
            self.result matches Err(e) ==> (c.result matches Err(f) && f.id == e.id && f.msg@ == e.msg@),
            c.request_id == self.request_id,
            c.is_last == self.is_last,
    {
        MdSpiOnRspUnSubForQuoteRsp {
            specific_instrument: self.specific_instrument,
            result: clone_rsp_result(&self.result),
            request_id: self.request_id,
            is_last: self.is_last,
        }
    }
}

impl Clone for MdSpiOnRtnDepthMarketData {
    fn clone(&self) -> (c: Self)
        ensures
            c == *self,
    {
        MdSpiOnRtnDepthMarketData { depth_market_data: self.depth_market_data }
    }
}

impl Clone for MdSpiOnRtnForQuoteRsp {
    fn clone(&self) -> (c: Self)
        ensures
            c == *self,
    {
        MdSpiOnRtnForQuoteRsp { for_quote_rsp: self.for_quote_rsp }
    }
}

} // verus!
