use gateway::conf::collect_check_errors;
use gateway::conf::CliBasic;
use gateway::conf::ConfStore;
use gateway::conf::FieldCheckError;
use gateway::dbx::ssl_level;
use gateway::dbx::try_ssl_level;
use gateway::dbx::DbModel;
use gateway::dbx::PoolModel;
use gateway::dbx::SslLevel;

#[test]
fn test_mysql_conf() {
    let conf1 = DbModel::new(
        "127.0.0.1".to_string(),
        3306,
        "gmv".to_string(),
        "root".to_string(),
        "example-pass".to_string(),
        None,
        PoolModel::default(),
    );
    println!("{:?}", conf1);
    assert_eq!(conf1.pool.max_connections, 100);
    assert_eq!(conf1.pool.connection_timeout, 8);
    assert!(conf1.pool.check_health);
}

#[test]
fn test_default_conf1() {
    let mut store = ConfStore::new();
    store.init_cfg(
        "name: demo\nversion: 0.1.0\nfeatures:\n  logging: true\n  metrics: false\n".to_string(),
    );
    let conf = store.get_config();
    println!("{:?}", conf);
}

#[test]
fn test_target_conf2() {
    let mut store = ConfStore::new();
    store.init_cfg("name: demo\nversion: 0.1.0\nfeatures:\n  logging: true\n  metrics: false\n".to_string());
    let conf = store.get_config();
    println!("{:?}", conf);
    assert!(conf.contains("version"));
}

#[test]
fn test_prefix_conf() {
    let mut store = ConfStore::new();
    store.register_function("features".to_string());
    store.init_cfg("features:\n  logging: true\n  metrics: false\n".to_string());
    let conf = store.try_get_config().unwrap();
    println!("{:?}", conf);
    assert!(store.try_get_config().is_some());
}

#[test]
fn ssl_levels_map_exactly() {
    assert_eq!(ssl_level(None), SslLevel::Preferred);
    assert_eq!(ssl_level(Some(0)), SslLevel::Disabled);
    assert_eq!(ssl_level(Some(1)), SslLevel::Preferred);
    assert_eq!(ssl_level(Some(2)), SslLevel::Required);
    assert_eq!(ssl_level(Some(3)), SslLevel::VerifyIdentity);
    assert_eq!(ssl_level(Some(4)), SslLevel::VerifyCa);
    assert_eq!(try_ssl_level(Some(5)), None, "an unknown level names no mode");
}

#[test]
fn check_report_aggregates_failures_in_order() {
    let results = vec![
        ("alpha".to_string(), Ok(())),
        (
            "beta".to_string(),
            Err(FieldCheckError::BizError("bad port".to_string())),
        ),
        (
            "gamma".to_string(),
            Err(FieldCheckError::BizError("no host".to_string())),
        ),
    ];
    let report = collect_check_errors(&results).unwrap();
    assert_eq!(report, "beta: bad port\ngamma: no host\n");
}

#[test]
fn check_report_is_none_when_all_pass() {
    let results: Vec<(String, Result<(), FieldCheckError>)> =
        vec![("alpha".to_string(), Ok(())), ("beta".to_string(), Ok(()))];
    assert!(collect_check_errors(&results).is_none());
    let empty: Vec<(String, Result<(), FieldCheckError>)> = Vec::new();
    assert!(collect_check_errors(&empty).is_none());
}

#[test]
fn field_check_error_carries_its_message() {
    let e = FieldCheckError::BizError("out of range".to_string());
    assert_eq!(e.message(), "out of range");
}

#[test]
fn cli_basic_holds_identity() {
    let cli = CliBasic { name: "gateway", version: "0.1.0", author: "", about: "transport gateway" };
    assert_eq!(cli.name, "gateway");
    assert_eq!(cli.version, "0.1.0");
}

#[test]
fn get_config_is_what_was_stored() {
    let mut store = ConfStore::new();
    assert!(store.try_get_config().is_none());
    store.init_cfg("log:\n  level: info\n".to_string());
    assert_eq!(store.get_config(), "log:\n  level: info\n");
}
