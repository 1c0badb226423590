//! Market-data side of the CTP futures API: the decisions that sit between
//! the native API and its users, stated and proved.

pub mod ctp;

pub mod codes;
pub mod rsp;
pub mod registry;
pub mod output;

pub use codes::{ApiError, ApiResult, DisconnectionReason, bool_from_c, c_bool_from, disconnection_reason_from, from_api_return_to_api_result};
pub use rsp::{RspError, RspInfo, RspResult, from_rsp_info_to_rsp_result, from_rsp_result_to_string};
pub use registry::{ApiCommand, SpiHandle, SpiRegistry};
pub use output::{
    MdSpiOnFrontConnected, MdSpiOnFrontDisconnected, MdSpiOnRspError, MdSpiOnRspSubForQuoteRsp,
    MdSpiOnRspSubMarketData, MdSpiOnRspUnSubForQuoteRsp, MdSpiOnRspUnSubMarketData,
    MdSpiOnRspUserLogin, MdSpiOnRspUserLogout, MdSpiOnRtnDepthMarketData, MdSpiOnRtnForQuoteRsp,
    MdSpiOutput, depth_market_data_output, for_quote_rsp_output, front_connected_output,
    front_disconnected_output, rsp_error_output, rsp_user_login_output, rsp_user_logout_output,
    sub_for_quote_rsp_output, sub_market_data_output, un_sub_for_quote_rsp_output,
    un_sub_market_data_output,
};

pub use ctp_common::{
    CThostFtdcDepthMarketDataField, CThostFtdcFensUserInfoField, CThostFtdcForQuoteRspField,
    CThostFtdcReqUserLoginField, CThostFtdcRspInfoField, CThostFtdcRspUserLoginField,
    CThostFtdcSpecificInstrumentField, CThostFtdcUserLogoutField, TThostFtdcRequestIDType,
    ascii_cstr_to_str, gb18030_cstr_to_str, maybe_char, reduce_comb_flags, set_cstr_from_str,
    set_cstr_from_str_truncate,
};
