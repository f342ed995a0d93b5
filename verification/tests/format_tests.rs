use gateway::daemon::format_date_parts;
use gateway::daemon::format_start_time_friendly;
use gateway::daemon::DateParts;
use gateway::exception::BizError;
use gateway::exception::GlobalError;
use gateway::exception::GlobalResultExt;
use gateway::exception::MessageBusError;
use gateway::exception::RpcError;
use gateway::logger::level_filter;
use gateway::logger::match_target;
use gateway::logger::try_level_filter;
use gateway::logger::LevelFilter;
use gateway::logger::Logger;
use gateway::logger::Specify;
use gateway::utils::rt::RuntimeType;

#[test]
fn level_names_parse_case_insensitively() {
    assert_eq!(level_filter("OFF"), LevelFilter::Off);
    assert_eq!(level_filter("error"), LevelFilter::Error);
    assert_eq!(level_filter("Warn"), LevelFilter::Warn);
    assert_eq!(level_filter(" info "), LevelFilter::Info);
    assert_eq!(level_filter("DEBUG"), LevelFilter::Debug);
    assert_eq!(level_filter("trace"), LevelFilter::Trace);
    assert_eq!(try_level_filter("verbose"), None);
    assert_eq!(try_level_filter(""), None);
    assert_eq!(try_level_filter("in fo"), None);
}

#[test]
fn target_rules_prefix_and_exact() {
    let rules = vec!["test_log::a".to_string(), "test_log::d$".to_string()];
    assert!(match_target("test_log::a", &rules), "prefix rule matches itself");
    assert!(match_target("test_log::a::deep", &rules), "prefix rule matches below");
    assert!(match_target("test_log::d", &rules), "exact rule matches exactly");
    assert!(!match_target("test_log::d::deep", &rules), "exact rule matches nothing below");
    assert!(!match_target("other", &rules));
    assert!(!match_target("test_log", &rules));
    let empty: Vec<String> = Vec::new();
    assert!(!match_target("anything", &empty));
}

#[test]
fn logger_model_holds_configuration() {
    let s = Specify::new("test_log::a".to_string(), "debug".to_string(), Some("a".to_string()), None);
    let log = Logger::new("./logs".to_string(), "server".to_string(), "warn".to_string(), Some(vec![s]));
    assert_eq!(log.prefix, "server");
    assert_eq!(level_filter(&log.level), LevelFilter::Warn);
    let specify = log.specify.unwrap();
    assert_eq!(specify[0].file_name_prefix.as_deref(), Some("a"));
}

#[test]
fn runtime_thread_names() {
    assert_eq!(RuntimeType::Main.as_thread_name(), "main");
    assert_eq!(RuntimeType::CommonNetwork.as_thread_name(), "common-network");
    assert_eq!(RuntimeType::Database.as_thread_name(), "database");
    assert_eq!(RuntimeType::Custom("gb".to_string()).as_thread_name(), "custom-gb");
}

#[test]
fn date_parts_format_zero_padded() {
    let p = DateParts { year: 2025, month: 12, day: 4, hour: 18, minute: 25, second: 3 };
    assert_eq!(format_date_parts(&p), "2025-12-04 18:25:03");
    let early = DateParts { year: 33, month: 1, day: 2, hour: 0, minute: 0, second: 0 };
    assert_eq!(format_date_parts(&early), "0033-01-02 00:00:00");
}

#[test]
fn start_time_parses_and_formats() {
    let r = format_start_time_friendly("Thu Dec 4 18:25:03 2025");
    assert_eq!(r.unwrap(), "2025-12-04 18:25:03");
    let r = format_start_time_friendly("Thu Dec  4 18:25:03 2025");
    assert_eq!(r.unwrap(), "2025-12-04 18:25:03");
    match format_start_time_friendly("not a date") {
        Err(GlobalError::SysErr(m)) => assert_eq!(m, "unsupported time format"),
        other => panic!("an unparseable string must be unsupported, got {:?}", other),
    }
}

#[test]
fn errors_build_and_render() {
    let e = GlobalError::new_biz_error(404, "not found");
    match &e {
        GlobalError::BizErr(b) => {
            assert_eq!(b.code, 404);
            assert_eq!(b.msg, "not found");
            assert_eq!(b.message(), "BizError: [code = 404, msg = \"not found\"]");
        }
        GlobalError::SysErr(_) => panic!("a business error was built"),
    }
    let e = GlobalError::new_sys_error("boom");
    assert_eq!(e, GlobalError::SysErr("boom".to_string()));
    let biz = BizError { code: 1, msg: "m".to_string() };
    assert_eq!(biz.message(), "BizError: [code = 1, msg = \"m\"]");
}

#[test]
fn bus_and_rpc_errors_render() {
    assert_eq!(MessageBusError::Full.message(), "the channel is full");
    assert_eq!(MessageBusError::Timeout.message(), "timed out waiting for a message");
    assert_eq!(MessageBusError::ChannelClosed.message(), "the channel is closed");
    assert_eq!(MessageBusError::TypeMismatch.message(), "the message type does not match");
    assert_eq!(MessageBusError::Lagged.message(), "the receiver lagged behind");
    assert_eq!(MessageBusError::NotFound.message(), "no such channel");
    assert_eq!(MessageBusError::AlreadyExists.message(), "the channel already exists");
    assert_eq!(RpcError::Io("broken pipe".to_string()).message(), "io error: broken pipe");
    assert_eq!(RpcError::Timeout.message(), "timeout");
    assert_eq!(RpcError::Remote("refused".to_string()).message(), "remote error: refused");
    assert_eq!(RpcError::Unknown.message(), "unknown error");
}

#[test]
fn result_extensions_lift_errors() {
    let ok: Result<u8, String> = Ok(7);
    assert_eq!(ok.hand_log().unwrap(), 7);
    let err: Result<u8, String> = Err("io failed".to_string());
    assert_eq!(err.hand_log().unwrap_err(), GlobalError::SysErr("io failed".to_string()));
    let err: Result<u8, String> = Err("io failed".to_string());
    match err.hand_biz_log(1100, "device offline").unwrap_err() {
        GlobalError::BizErr(b) => {
            assert_eq!(b.code, 1100);
            assert_eq!(b.msg, "device offline");
        }
        GlobalError::SysErr(_) => panic!("a business error was asked for"),
    }
}
