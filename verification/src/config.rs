//! Settings of the services, taken from the values of their environment
//! variables. A variable that is unset (or not Unicode) is `None`.
use vstd::prelude::*;
use crate::text::{decimal_text, decimal_u32, lemma_decimal_u32_reads_every_u32, parse_u32};

verus! {

/// Error when `IGGY_ROOT_PASSWORD` is unset.
pub const PASSWORD_MISSING: &'static str = "IGGY_ROOT_PASSWORD must be set (see .env)";

/// Error when `IGGY_STREAM_NAME` is unset.
pub const STREAM_MISSING: &'static str = "IGGY_STREAM_NAME must be set (see .env)";

/// Error when `IGGY_TOPIC_NAME` is unset.
pub const TOPIC_MISSING: &'static str = "IGGY_TOPIC_NAME must be set (see .env)";

/// Error when `IGGY_PARTITION_ID` is unset.
pub const PARTITION_MISSING: &'static str = "IGGY_PARTITION_ID must be set (see .env)";

/// Error when `IGGY_PARTITION_ID` is not a decimal `u32`.
pub const PARTITION_INVALID: &'static str = "IGGY_PARTITION_ID must be a valid u32";

/// Error when `QDB_CLIENT_CONF` is unset.
pub const QDB_CONF_MISSING: &'static str = "QDB_CLIENT_CONF must be set (see .env)";

/// Address of the message broker when `IGGY_SERVER_ADDRESS` is unset.
pub const DEFAULT_SERVER_ADDRESS: &'static str = "127.0.0.1:8090";

/// The broker's built-in root user name.
pub open spec fn default_root_username() -> Seq<char> {
    "iggy"@
}

/// `iggy::prelude::DEFAULT_ROOT_USERNAME`, owned. The crate defines the
/// constant as `"iggy"` (iggy_common, `http/users/defaults.rs`).
#[verifier::external_body]
fn root_username_default() -> (name: String)
    ensures
        name@ == default_root_username(),
{
    iggy::prelude::DEFAULT_ROOT_USERNAME.to_string()
}

/// Values of the broker's environment variables.
pub struct IggyEnv {
    /// `IGGY_ROOT_USERNAME`.
    pub root_username: Option<String>,
    /// `IGGY_ROOT_PASSWORD`.
    pub root_password: Option<String>,
    /// `IGGY_STREAM_NAME`.
    pub stream_name: Option<String>,
    /// `IGGY_TOPIC_NAME`.
    pub topic_name: Option<String>,
    /// `IGGY_PARTITION_ID`.
    pub partition_id: Option<String>,
}

/// How to reach the broker and which partition to use.
pub struct IggyConfig {
    pub root_username: String,
    pub root_password: String,
    pub stream_name: String,
    pub topic_name: String,
    pub partition_id: u32,
}

/// The error that the broker's variables give, checked in this order:
/// password, stream, topic, partition set, partition a decimal `u32`.
/// `None` where they are all fine.
pub open spec fn iggy_env_error(env: IggyEnv) -> Option<&'static str> {
    if env.root_password is None {
        Some(PASSWORD_MISSING)
    } else if env.stream_name is None {
        Some(STREAM_MISSING)
    } else if env.topic_name is None {
        Some(TOPIC_MISSING)
    } else if env.partition_id is None {
        Some(PARTITION_MISSING)
    } else if decimal_u32(env.partition_id->0@) is None {
        Some(PARTITION_INVALID)
    } else {
        None
    }
}

/// `c` is the configuration that error-free variables `env` describe: the
/// user name defaults to the broker's root user, the others are taken as
/// they are, and the partition is read in decimal.
pub open spec fn iggy_config_of(env: IggyEnv, c: IggyConfig) -> bool {
    &&& c.root_username@ == (if env.root_username is Some {
        env.root_username->0@
    } else {
        default_root_username()
    })
    &&& c.root_password@ == env.root_password->0@
    &&& c.stream_name@ == env.stream_name->0@
    &&& c.topic_name@ == env.topic_name->0@
    &&& Some(c.partition_id) == decimal_u32(env.partition_id->0@)
}

/// All of the broker's required variables (password, stream, topic,
/// partition) are set.
pub open spec fn required_set(env: IggyEnv) -> bool {
    &&& env.root_password is Some
    &&& env.stream_name is Some
    &&& env.topic_name is Some
    &&& env.partition_id is Some
}

/// With every required variable set, the settings are refused exactly when
/// the partition is not a decimal `u32`; and every `u32`, zero included,
/// written in decimal, is accepted as a partition.
pub proof fn lemma_partition_rule(env: IggyEnv, n: u32)
    requires
        required_set(env),
    ensures
        decimal_u32(env.partition_id->0@) is None ==> iggy_env_error(env) == Some(
            PARTITION_INVALID,
        ),
        decimal_u32(env.partition_id->0@) is Some ==> iggy_env_error(env) is None,
        env.partition_id->0@ == decimal_text(n as nat) ==> iggy_env_error(env) is None
            && decimal_u32(env.partition_id->0@) == Some(n),
{
    lemma_decimal_u32_reads_every_u32(n);
}

/// A missing variable is reported by its own message, the first missing one
/// in the order password, stream, topic, partition.
pub proof fn lemma_missing_variables(env: IggyEnv)
    ensures
        env.root_password is None ==> iggy_env_error(env) == Some(PASSWORD_MISSING),
        env.root_password is Some && env.stream_name is None ==> iggy_env_error(env) == Some(
            STREAM_MISSING,
        ),
        env.root_password is Some && env.stream_name is Some && env.topic_name is None
            ==> iggy_env_error(env) == Some(TOPIC_MISSING),
        env.root_password is Some && env.stream_name is Some && env.topic_name is Some
            && env.partition_id is None ==> iggy_env_error(env) == Some(PARTITION_MISSING),
{
}

/// The settings of error-free variables take each set value as it is, the
/// partition as its decimal value, and the broker's root user where no user
/// name is set.
pub proof fn lemma_config_fields(env: IggyEnv, c: IggyConfig)
    requires
        iggy_config_of(env, c),
    ensures
        env.root_username is Some ==> c.root_username@ == env.root_username->0@,
        env.root_username is None ==> c.root_username@ == "iggy"@,
        c.root_password@ == env.root_password->0@,
        c.stream_name@ == env.stream_name->0@,
        c.topic_name@ == env.topic_name->0@,
        decimal_u32(env.partition_id->0@) == Some(c.partition_id),
{
}

impl IggyConfig {
    /// The broker settings that the environment `env` gives, or the error
    /// for the first variable that is missing or malformed.
    pub fn from_env(env: IggyEnv) -> (r: Result<IggyConfig, &'static str>)
        ensures
            iggy_env_error(env) matches Some(e) ==> r == Err::<IggyConfig, &'static str>(e),
            iggy_env_error(env) is None ==> (r matches Ok(c) && iggy_config_of(env, c)),
            required_set(env) && decimal_u32(env.partition_id->0@) is Some ==> (r matches Ok(c)
                && Some(c.partition_id) == decimal_u32(env.partition_id->0@)
                && c.root_password@ == env.root_password->0@ && c.stream_name@
                == env.stream_name->0@ && c.topic_name@ == env.topic_name->0@),
            required_set(env) && decimal_u32(env.partition_id->0@) is None ==> r == Err::<
                IggyConfig,
                &'static str,
            >(PARTITION_INVALID),
            r is Ok ==> required_set(env) && decimal_u32(env.partition_id->0@) is Some,
    {
        let ghost env0 = env;
        let IggyEnv { root_username, root_password, stream_name, topic_name, partition_id } = env;
        let root_username = match root_username {
            Some(name) => name,
            None => root_username_default(),
        };
        let root_password = match root_password {
            Some(p) => p,
            None => return Err(PASSWORD_MISSING),
        };
        let stream_name = match stream_name {
            Some(s) => s,
            None => return Err(STREAM_MISSING),
        };
        let topic_name = match topic_name {
            Some(t) => t,
            None => return Err(TOPIC_MISSING),
        };
        let partition_text = match partition_id {
            Some(p) => p,
            None => return Err(PARTITION_MISSING),
        };
        let partition_id = match parse_u32(partition_text.as_str()) {
            Some(n) => n,
            None => return Err(PARTITION_INVALID),
        };
        let c = IggyConfig { root_username, root_password, stream_name, topic_name, partition_id };
        assert(iggy_config_of(env0, c));
        Ok(c)
    }
}

/// Settings of the gateway: the broker, and the broker's address.
pub struct GatewayConfig {
    pub iggy: IggyConfig,
    pub server_address: String,
}

impl GatewayConfig {
    /// The gateway's settings: those of [`IggyConfig::from_env`], with the
    /// same errors, and the value of `IGGY_SERVER_ADDRESS`, which defaults to
    /// [`DEFAULT_SERVER_ADDRESS`].
    pub fn from_env(env: IggyEnv, server_address: Option<String>) -> (r: Result<
        GatewayConfig,
        &'static str,
    >)
        ensures
            iggy_env_error(env) matches Some(e) ==> r == Err::<GatewayConfig, &'static str>(e),
            iggy_env_error(env) is None ==> (r matches Ok(c) && iggy_config_of(env, c.iggy)
                && c.server_address@ == (if server_address is Some {
                server_address->0@
            } else {
                DEFAULT_SERVER_ADDRESS@
            })),
    {
        let iggy = IggyConfig::from_env(env)?;
        let server_address = match server_address {
            Some(a) => a,
            None => DEFAULT_SERVER_ADDRESS.to_owned(),
        };
        Ok(GatewayConfig { iggy, server_address })
    }
}

/// Settings of a service that stores readings in QuestDB.
pub struct WriterConfig {
    pub iggy: IggyConfig,
    pub qdb_client_conf: String,
}

impl WriterConfig {
    /// The writer's settings: those of [`IggyConfig::from_env`], checked
    /// first, then `QDB_CLIENT_CONF`, which must be set.
    pub fn from_env(env: IggyEnv, qdb_client_conf: Option<String>) -> (r: Result<
        WriterConfig,
        &'static str,
    >)
        ensures
            iggy_env_error(env) matches Some(e) ==> r == Err::<WriterConfig, &'static str>(e),
            iggy_env_error(env) is None && qdb_client_conf is None ==> r == Err::<
                WriterConfig,
                &'static str,
            >(QDB_CONF_MISSING),
            iggy_env_error(env) is None && qdb_client_conf is Some ==> (r matches Ok(c)
                && iggy_config_of(env, c.iggy) && c.qdb_client_conf@ == qdb_client_conf->0@),
    {
        let iggy = IggyConfig::from_env(env)?;
        match qdb_client_conf {
            Some(conf) => Ok(WriterConfig { iggy, qdb_client_conf: conf }),
            None => Err(QDB_CONF_MISSING),
        }
    }
}

} // verus!
