use rotor_server::config::{
    GatewayConfig, IggyConfig, IggyEnv, WriterConfig, DEFAULT_SERVER_ADDRESS, PARTITION_INVALID,
    PARTITION_MISSING, PASSWORD_MISSING, QDB_CONF_MISSING, STREAM_MISSING, TOPIC_MISSING,
};

fn s(v: &str) -> Option<String> {
    Some(v.to_string())
}

fn full_env() -> IggyEnv {
    IggyEnv {
        root_username: s("admin"),
        root_password: s("secret"),
        stream_name: s("uav"),
        topic_name: s("positions"),
        partition_id: s("3"),
    }
}

fn err_of(env: IggyEnv) -> &'static str {
    match IggyConfig::from_env(env) {
        Err(e) => e,
        Ok(_) => panic!("expected an error"),
    }
}

#[test]
fn iggy_config_takes_all_values() {
    let c = IggyConfig::from_env(full_env()).unwrap();
    assert_eq!(c.root_username, "admin");
    assert_eq!(c.root_password, "secret");
    assert_eq!(c.stream_name, "uav");
    assert_eq!(c.topic_name, "positions");
    assert_eq!(c.partition_id, 3);
}

#[test]
fn iggy_config_defaults_username() {
    let env = IggyEnv { root_username: None, ..full_env() };
    let c = IggyConfig::from_env(env).unwrap();
    assert_eq!(c.root_username, "iggy");
}

#[test]
fn iggy_config_requires_password() {
    let env = IggyEnv { root_password: None, stream_name: None, ..full_env() };
    assert_eq!(err_of(env), PASSWORD_MISSING);
    assert_eq!(PASSWORD_MISSING, "IGGY_ROOT_PASSWORD must be set (see .env)");
}

#[test]
fn iggy_config_requires_stream() {
    let env = IggyEnv { stream_name: None, topic_name: None, ..full_env() };
    assert_eq!(err_of(env), STREAM_MISSING);
    assert_eq!(STREAM_MISSING, "IGGY_STREAM_NAME must be set (see .env)");
}

#[test]
fn iggy_config_requires_topic() {
    let env = IggyEnv { topic_name: None, partition_id: None, ..full_env() };
    assert_eq!(err_of(env), TOPIC_MISSING);
    assert_eq!(TOPIC_MISSING, "IGGY_TOPIC_NAME must be set (see .env)");
}

#[test]
fn iggy_config_requires_partition() {
    let env = IggyEnv { partition_id: None, ..full_env() };
    assert_eq!(err_of(env), PARTITION_MISSING);
    assert_eq!(PARTITION_MISSING, "IGGY_PARTITION_ID must be set (see .env)");
}

#[test]
fn iggy_config_rejects_bad_partition() {
    for bad in ["three", "-1", "4294967296", " 1", ""] {
        let env = IggyEnv { partition_id: s(bad), ..full_env() };
        assert_eq!(err_of(env), PARTITION_INVALID);
    }
    assert_eq!(PARTITION_INVALID, "IGGY_PARTITION_ID must be a valid u32");
}

#[test]
fn gateway_config_defaults_address() {
    let c = GatewayConfig::from_env(full_env(), None).unwrap();
    assert_eq!(c.server_address, "127.0.0.1:8090");
    assert_eq!(c.server_address, DEFAULT_SERVER_ADDRESS);
    assert_eq!(c.iggy.partition_id, 3);
    let c = GatewayConfig::from_env(full_env(), s("10.0.0.1:9000")).unwrap();
    assert_eq!(c.server_address, "10.0.0.1:9000");
}

#[test]
fn gateway_config_reports_broker_errors() {
    let env = IggyEnv { topic_name: None, ..full_env() };
    assert!(matches!(GatewayConfig::from_env(env, None), Err(e) if e == TOPIC_MISSING));
}

#[test]
fn writer_config_requires_qdb_conf() {
    let r = WriterConfig::from_env(full_env(), None);
    assert!(matches!(r, Err(e) if e == QDB_CONF_MISSING));
    assert_eq!(QDB_CONF_MISSING, "QDB_CLIENT_CONF must be set (see .env)");
    let c = WriterConfig::from_env(full_env(), s("http::addr=localhost:9000;")).unwrap();
    assert_eq!(c.qdb_client_conf, "http::addr=localhost:9000;");
    assert_eq!(c.iggy.stream_name, "uav");
}

#[test]
fn writer_config_checks_broker_first() {
    let env = IggyEnv { root_password: None, ..full_env() };
    assert!(matches!(WriterConfig::from_env(env, None), Err(e) if e == PASSWORD_MISSING));
}
