use std::mem::size_of;

use ctp_md::{
    from_api_return_to_api_result, from_rsp_info_to_rsp_result, from_rsp_result_to_string,
    bool_from_c, c_bool_from, disconnection_reason_from, ApiCommand, ApiError,
    CThostFtdcDepthMarketDataField, DisconnectionReason, MdSpiOnFrontDisconnected,
    MdSpiOnRspError, MdSpiOnRspUserLogin, MdSpiOnRtnDepthMarketData, MdSpiOutput, RspError,
    RspInfo, SpiRegistry, CThostFtdcForQuoteRspField, CThostFtdcSpecificInstrumentField,
    CThostFtdcUserLogoutField, depth_market_data_output, for_quote_rsp_output,
    front_connected_output, front_disconnected_output, rsp_error_output, rsp_user_login_output,
    rsp_user_logout_output, sub_for_quote_rsp_output, sub_market_data_output,
    un_sub_for_quote_rsp_output, un_sub_market_data_output,
};

#[test]
fn spi_output_size() {
    let expected_size = 416;
    let actual_size = size_of::<MdSpiOutput>();
    assert_eq!(expected_size, actual_size, "MdSpiOutput expected size {}, actual size {}", expected_size, actual_size);
}

#[test]
fn c_bool_reads_zero_as_false_and_anything_else_as_true() {
    assert!(!bool_from_c(0));
    assert!(bool_from_c(1));
    assert!(bool_from_c(255));
}

#[test]
fn c_bool_writes_one_and_zero() {
    assert_eq!(c_bool_from(true), 1);
    assert_eq!(c_bool_from(false), 0);
}

#[test]
fn c_bool_round_trip() {
    assert!(bool_from_c(c_bool_from(true)));
    assert!(!bool_from_c(c_bool_from(false)));
}

#[test]
fn disconnection_reasons_by_code() {
    assert_eq!(disconnection_reason_from(0x1001), DisconnectionReason::ReadError);
    assert_eq!(disconnection_reason_from(0x1002), DisconnectionReason::WriteError);
    assert_eq!(disconnection_reason_from(0x2001), DisconnectionReason::HeartbeatTimeout);
    assert_eq!(disconnection_reason_from(0x2002), DisconnectionReason::HeartbeatSendError);
    assert_eq!(disconnection_reason_from(0x2003), DisconnectionReason::ErrorMessageReceived);
}

#[test]
fn unknown_disconnection_codes() {
    assert_eq!(disconnection_reason_from(0), DisconnectionReason::Unknown);
    assert_eq!(disconnection_reason_from(0x1003), DisconnectionReason::Unknown);
    assert_eq!(disconnection_reason_from(-1), DisconnectionReason::Unknown);
}

#[test]
fn api_return_codes() {
    assert_eq!(from_api_return_to_api_result(0), Ok(()));
    assert_eq!(from_api_return_to_api_result(-1), Err(ApiError::NetworkError));
    assert_eq!(from_api_return_to_api_result(-2), Err(ApiError::QueueFull));
    assert_eq!(from_api_return_to_api_result(-3), Err(ApiError::Throttled));
}

#[test]
fn rsp_without_info_is_success() {
    assert_eq!(from_rsp_info_to_rsp_result(None), Ok(()));
}

#[test]
fn rsp_with_error_id_zero_is_success() {
    let info = RspInfo { error_id: 0, error_msg: b"CTP:\xd5\xfd\xc8\xb7\0".to_vec() };
    assert_eq!(from_rsp_info_to_rsp_result(Some(&info)), Ok(()));
}

#[test]
fn rsp_error_with_ascii_message() {
    let mut msg = b"CTP:not logged in\0".to_vec();
    msg.resize(81, 0);
    let info = RspInfo { error_id: 6, error_msg: msg };
    assert_eq!(
        from_rsp_info_to_rsp_result(Some(&info)),
        Err(RspError { id: 6, msg: "CTP:not logged in".to_string() })
    );
}

#[test]
fn rsp_error_message_stops_at_first_nul() {
    let info = RspInfo { error_id: 3, error_msg: b"bad\0login\0".to_vec() };
    assert_eq!(
        from_rsp_info_to_rsp_result(Some(&info)),
        Err(RspError { id: 3, msg: "bad".to_string() })
    );
}

#[test]
fn rsp_error_with_gb18030_message() {
    let info = RspInfo { error_id: -1, error_msg: b"\xd5\xfd\xc8\xb7\0".to_vec() };
    assert_eq!(
        from_rsp_info_to_rsp_result(Some(&info)),
        Err(RspError { id: -1, msg: "正确".to_string() })
    );
}

#[test]
fn rsp_result_text_for_success() {
    assert_eq!(from_rsp_result_to_string(&Ok(())), "Ok(())");
}

#[test]
fn rsp_result_text_for_error() {
    let r = Err(RspError { id: 42, msg: "throttled".to_string() });
    assert_eq!(from_rsp_result_to_string(&r), "Err(RspError{ id: 42, msg: throttled })");
    let r = Err(RspError { id: -7, msg: "正确".to_string() });
    assert_eq!(from_rsp_result_to_string(&r), "Err(RspError{ id: -7, msg: 正确 })");
}

#[test]
fn new_registry_holds_nothing() {
    let registry = SpiRegistry::new();
    assert_eq!(registry.registered(), None);
}

#[test]
fn first_registration_frees_nothing() {
    let mut registry = SpiRegistry::new();
    assert_eq!(registry.register_spi(10), vec![ApiCommand::RegisterSpi(10)]);
    assert_eq!(registry.registered(), Some(10));
}

#[test]
fn replacing_a_spi_registers_before_freeing() {
    let mut registry = SpiRegistry::new();
    registry.register_spi(10);
    assert_eq!(
        registry.register_spi(20),
        vec![ApiCommand::RegisterSpi(20), ApiCommand::FreeSpi(10)]
    );
    assert_eq!(registry.registered(), Some(20));
}

#[test]
fn release_without_spi_only_releases_the_api() {
    let mut registry = SpiRegistry::new();
    assert_eq!(registry.release(), vec![ApiCommand::ReleaseApi]);
    assert_eq!(registry.registered(), None);
}

#[test]
fn release_withdraws_then_frees_then_releases() {
    let mut registry = SpiRegistry::new();
    registry.register_spi(10);
    registry.register_spi(20);
    assert_eq!(
        registry.release(),
        vec![ApiCommand::UnregisterSpi, ApiCommand::FreeSpi(20), ApiCommand::ReleaseApi]
    );
    assert_eq!(registry.registered(), None);
}

#[test]
fn lifecycle_frees_each_spi_once_and_releases_last() {
    let mut registry = SpiRegistry::new();
    let mut commands = Vec::new();
    for spi in [1u64, 2, 3] {
        commands.extend(registry.register_spi(spi));
    }
    commands.extend(registry.release());
    let mut freed: Vec<u64> = commands
        .iter()
        .filter_map(|c| match c {
            ApiCommand::FreeSpi(h) => Some(*h),
            _ => None,
        })
        .collect();
    freed.sort();
    assert_eq!(freed, vec![1, 2, 3]);
    assert_eq!(commands.last(), Some(&ApiCommand::ReleaseApi));
    let mut target = None;
    for c in &commands {
        match c {
            ApiCommand::RegisterSpi(h) => target = Some(*h),
            ApiCommand::UnregisterSpi => target = None,
            ApiCommand::FreeSpi(h) => assert_ne!(target, Some(*h)),
            ApiCommand::ReleaseApi => assert_eq!(target, None),
        }
    }
}

#[test]
fn outputs_clone_their_fields() {
    let login = MdSpiOutput::RspUserLogin(MdSpiOnRspUserLogin {
        user_login: None,
        result: Err(RspError { id: 3, msg: "bad login".to_string() }),
        request_id: 7,
        is_last: true,
    });
    match login.clone() {
        MdSpiOutput::RspUserLogin(o) => {
            assert!(o.user_login.is_none());
            assert_eq!(o.result, Err(RspError { id: 3, msg: "bad login".to_string() }));
            assert_eq!(o.request_id, 7);
            assert!(o.is_last);
        }
        _ => panic!("clone changed the variant"),
    }
    let err = MdSpiOnRspError { result: Ok(()), request_id: 1, is_last: false };
    let copy = err.clone();
    assert_eq!(copy.result, Ok(()));
    assert_eq!(copy.request_id, 1);
    assert!(!copy.is_last);
    let gone = MdSpiOnFrontDisconnected { reason: disconnection_reason_from(0x2001) };
    assert_eq!(gone.clone().reason, DisconnectionReason::HeartbeatTimeout);
    let mut data = CThostFtdcDepthMarketDataField::default();
    data.Volume = 12;
    let depth = MdSpiOnRtnDepthMarketData { depth_market_data: data };
    assert_eq!(depth.clone().depth_market_data.Volume, 12);
}

#[test]
fn disconnection_reasons_carry_their_codes() {
    assert_eq!(DisconnectionReason::ReadError.code(), 0x1001);
    assert_eq!(DisconnectionReason::WriteError.code(), 0x1002);
    assert_eq!(DisconnectionReason::HeartbeatTimeout.code(), 0x2001);
    assert_eq!(DisconnectionReason::HeartbeatSendError.code(), 0x2002);
    assert_eq!(DisconnectionReason::ErrorMessageReceived.code(), 0x2003);
    assert_eq!(DisconnectionReason::Unknown.code(), 0);
    for reason in [
        DisconnectionReason::ReadError,
        DisconnectionReason::WriteError,
        DisconnectionReason::HeartbeatTimeout,
        DisconnectionReason::HeartbeatSendError,
        DisconnectionReason::ErrorMessageReceived,
        DisconnectionReason::Unknown,
    ] {
        assert_eq!(disconnection_reason_from(reason.code()), reason);
    }
}

#[test]
fn api_errors_carry_their_codes() {
    assert_eq!(ApiError::NetworkError.code(), -1);
    assert_eq!(ApiError::QueueFull.code(), -2);
    assert_eq!(ApiError::Throttled.code(), -3);
    for e in [ApiError::NetworkError, ApiError::QueueFull, ApiError::Throttled] {
        assert_eq!(from_api_return_to_api_result(e.code()), Err(e));
    }
}

#[test]
fn forwarding_outputs_pick_their_variant() {
    assert!(matches!(front_connected_output(), MdSpiOutput::FrontConnected(_)));
    match front_disconnected_output(DisconnectionReason::WriteError) {
        MdSpiOutput::FrontDisconnected(o) => assert_eq!(o.reason, DisconnectionReason::WriteError),
        _ => panic!("wrong variant"),
    }
    match rsp_user_login_output(None, Ok(()), 1, true) {
        MdSpiOutput::RspUserLogin(o) => {
            assert!(o.user_login.is_none());
            assert_eq!((o.result, o.request_id, o.is_last), (Ok(()), 1, true));
        }
        _ => panic!("wrong variant"),
    }
    let logout = CThostFtdcUserLogoutField::default();
    match rsp_user_logout_output(Some(logout), Ok(()), 2, false) {
        MdSpiOutput::RspUserLogout(o) => {
            assert!(o.user_logout.is_some());
            assert_eq!((o.request_id, o.is_last), (2, false));
        }
        _ => panic!("wrong variant"),
    }
    let refused = Err(RspError { id: 9, msg: "no".to_string() });
    match rsp_error_output(refused.clone(), 3, true) {
        MdSpiOutput::RspError(o) => assert_eq!((o.result, o.request_id, o.is_last), (refused, 3, true)),
        _ => panic!("wrong variant"),
    }
    let mut instrument = CThostFtdcSpecificInstrumentField::default();
    instrument.InstrumentID[0] = b'c';
    match sub_market_data_output(Some(instrument), Ok(()), 4, true) {
        MdSpiOutput::SubMarketData(o) => {
            assert_eq!(o.specific_instrument.unwrap().InstrumentID[0], b'c');
            assert_eq!(o.request_id, 4);
        }
        _ => panic!("wrong variant"),
    }
    match un_sub_market_data_output(None, Ok(()), 5, false) {
        MdSpiOutput::UnSubMarketData(o) => assert_eq!((o.request_id, o.is_last), (5, false)),
        _ => panic!("wrong variant"),
    }
    match sub_for_quote_rsp_output(None, Ok(()), 6, true) {
        MdSpiOutput::SubForQuoteRsp(o) => assert_eq!(o.request_id, 6),
        _ => panic!("wrong variant"),
    }
    match un_sub_for_quote_rsp_output(None, Ok(()), 7, true) {
        MdSpiOutput::UnSubForQuoteRsp(o) => assert_eq!(o.request_id, 7),
        _ => panic!("wrong variant"),
    }
    let mut depth = CThostFtdcDepthMarketDataField::default();
    depth.Volume = 8;
    match depth_market_data_output(depth) {
        MdSpiOutput::DepthMarketData(o) => assert_eq!(o.depth_market_data.Volume, 8),
        _ => panic!("wrong variant"),
    }
    let mut quote = CThostFtdcForQuoteRspField::default();
    quote.InstrumentID[0] = b'q';
    match for_quote_rsp_output(quote) {
        MdSpiOutput::ForQuoteRsp(o) => assert_eq!(o.for_quote_rsp.InstrumentID[0], b'q'),
        _ => panic!("wrong variant"),
    }
}

#[test]
fn registrations_with_a_reused_address_free_each_earlier_table_once() {
    let mut registry = SpiRegistry::new();
    let mut commands = Vec::new();
    // 1 is freed by the second registration, so its address may be handed out again.
    for spi in [1u64, 2, 1, 3] {
        commands.extend(registry.register_spi(spi));
        assert_eq!(registry.registered(), Some(spi));
    }
    let freed: Vec<u64> = commands
        .iter()
        .filter_map(|c| match c {
            ApiCommand::FreeSpi(h) => Some(*h),
            _ => None,
        })
        .collect();
    assert_eq!(freed, vec![1, 2, 1]);
}
