//! Application configuration from the values of its environment variables, and
//! the startup checks that the gateway reports on it.

use vstd::prelude::*;
use vstd::string::StringExecFns;

use crate::error::{detail_of, WaveFlowError};
use crate::text::{
    comma_list, decimal, law_decimal_reads_back, parse_comma_list, parse_unsigned, parsed_unsigned,
    str_chars,
};

verus! {

/// The service configuration.
#[derive(Debug)]
pub struct AppConfig {
    pub database_url: String,
    pub github_webhook_secret: String,
    pub soroban_rpc_url: String,
    pub network_passphrase: String,
    pub escrow_contract_id: Option<String>,
    pub gateway_secret_key: Option<String>,
    pub api_admin_keys: Vec<String>,
    pub gateway_port: u16,
    pub api_port: u16,
    /// Escrow balance below which a payout raises a low-balance alert; 0 turns
    /// the alert off.
    pub escrow_low_balance_threshold: i64,
}

/// The values of the configuration's environment variables, each `None` where
/// the variable is unset (or not valid Unicode).
#[derive(Debug)]
pub struct ConfigVars {
    /// `DATABASE_URL`
    pub database_url: Option<String>,
    /// `GITHUB_WEBHOOK_SECRET`
    pub github_webhook_secret: Option<String>,
    /// `SOROBAN_RPC_URL`
    pub soroban_rpc_url: Option<String>,
    /// `NETWORK_PASSPHRASE`
    pub network_passphrase: Option<String>,
    /// `ESCROW_CONTRACT_ID`
    pub escrow_contract_id: Option<String>,
    /// `GATEWAY_SECRET_KEY`
    pub gateway_secret_key: Option<String>,
    /// `API_ADMIN_KEYS`
    pub api_admin_keys: Option<String>,
    /// `GATEWAY_PORT`
    pub gateway_port: Option<String>,
    /// `PORT`
    pub port: Option<String>,
    /// `API_PORT`
    pub api_port: Option<String>,
    /// `ESCROW_LOW_BALANCE_THRESHOLD`
    pub escrow_low_balance_threshold: Option<String>,
}

pub open spec fn default_rpc_url() -> Seq<char> {
    "https://soroban-testnet.stellar.org"@
}

pub open spec fn default_network_passphrase() -> Seq<char> {
    "Test SDF Network ; September 2015"@
}

/// A port setting: the variable's value when it reads as a `u16`, else `default`.
pub open spec fn port_setting(raw: Option<String>, default: u16) -> u16 {
    match raw {
        Some(s) => match parsed_unsigned(s@, 65535) {
            Some(v) => v as u16,
            None => default,
        },
        None => default,
    }
}

/// A port variable is read as any `u16`: its decimal numeral gives that port,
/// whatever the default; and the default is taken only when the variable is
/// absent or does not read as a `u16`.
pub proof fn law_port_setting_reads_any_u16(raw: Option<String>, default: u16, n: u16)
    ensures
        (raw matches Some(s) && s@ == decimal(n as nat)) ==> port_setting(raw, default) == n,
        (raw matches Some(s) && parsed_unsigned(s@, 65535) is Some) ==> port_setting(raw, default)
            == parsed_unsigned(raw.unwrap()@, 65535).unwrap(),
        port_setting(raw, default) != default ==> (raw matches Some(s) && parsed_unsigned(
            s@,
            65535,
        ) is Some),
{
    law_decimal_reads_back(n as nat, 65535);
}

/// The alert threshold: the variable's value when it reads as a non-negative
/// `i64`, else 0 (no alert).
pub open spec fn threshold_setting(raw: Option<String>) -> i64 {
    match raw {
        Some(s) => match parsed_unsigned(s@, i64::MAX as nat) {
            Some(v) => v as i64,
            None => 0,
        },
        None => 0,
    }
}

/// The alert threshold is read as any non-negative `i64`: the decimal numeral
/// of such a value gives that value, and the threshold is 0 only when the
/// variable is absent, does not read as such a value, or reads as 0.
pub proof fn law_threshold_setting_reads_any_i64(raw: Option<String>, n: u64)
    requires
        n <= i64::MAX,
    ensures
        (raw matches Some(s) && s@ == decimal(n as nat)) ==> threshold_setting(raw) == n,
        threshold_setting(raw) != 0 ==> (raw matches Some(s) && parsed_unsigned(
            s@,
            i64::MAX as nat,
        ) is Some),
{
    law_decimal_reads_back(n as nat, i64::MAX as nat);
}

/// The gateway's port variable: `GATEWAY_PORT` when set, else `PORT`.
pub open spec fn gateway_port_var(vars: ConfigVars) -> Option<String> {
    match vars.gateway_port {
        Some(s) => Some(s),
        None => vars.port,
    }
}

fn read_port(raw: &Option<String>, default: u16) -> (r: u16)
    ensures
        r == port_setting(*raw, default),
{
    match raw {
        Some(s) => match parse_unsigned(s.as_str(), 65535) {
            Some(v) => v as u16,
            None => default,
        },
        None => default,
    }
}

fn read_threshold(raw: &Option<String>) -> (r: i64)
    ensures
        r == threshold_setting(*raw),
{
    match raw {
        Some(s) => match parse_unsigned(s.as_str(), i64::MAX as u64) {
            Some(v) => v as i64,
            None => 0,
        },
        None => 0,
    }
}

impl AppConfig {
    /// Builds the configuration from its variables: `DATABASE_URL` and
    /// `GITHUB_WEBHOOK_SECRET` are required, the RPC URL and network passphrase
    /// default to the Soroban testnet, `API_ADMIN_KEYS` is a comma-separated list,
    /// and the ports default to 8080 (gateway) and 8081 (API).
    pub fn from_vars(vars: ConfigVars) -> (r: Result<AppConfig, WaveFlowError>)
        ensures
            vars.database_url is None ==> (r matches Err(e) && e is Config && detail_of(e)
                == "DATABASE_URL is required"@),
            vars.database_url is Some && vars.github_webhook_secret is None ==> (r matches Err(e)
                && e is Config && detail_of(e) == "GITHUB_WEBHOOK_SECRET is required"@),
            vars.database_url is Some && vars.github_webhook_secret is Some ==> (r matches Ok(c) && {
                &&& c.database_url == vars.database_url.unwrap()
                &&& c.github_webhook_secret == vars.github_webhook_secret.unwrap()
                &&& c.soroban_rpc_url@ == match vars.soroban_rpc_url {
                    Some(s) => s@,
                    None => default_rpc_url(),
                }
                &&& c.network_passphrase@ == match vars.network_passphrase {
                    Some(s) => s@,
                    None => default_network_passphrase(),
                }
                &&& c.escrow_contract_id == vars.escrow_contract_id
                &&& c.gateway_secret_key == vars.gateway_secret_key
                &&& c.api_admin_keys@.map_values(|x: String| x@) == match vars.api_admin_keys {
                    Some(s) => comma_list(s@),
                    None => Seq::empty(),
                }
                &&& c.gateway_port == port_setting(gateway_port_var(vars), 8080)
                &&& c.api_port == port_setting(vars.api_port, 8081)
                &&& c.escrow_low_balance_threshold == threshold_setting(
                    vars.escrow_low_balance_threshold,
                )
            }),
    {
        let gateway_port = match &vars.gateway_port {
            Some(_) => read_port(&vars.gateway_port, 8080),
            None => read_port(&vars.port, 8080),
        };
        let api_port = read_port(&vars.api_port, 8081);
        let escrow_low_balance_threshold = read_threshold(&vars.escrow_low_balance_threshold);
        let api_admin_keys = match &vars.api_admin_keys {
            Some(s) => parse_comma_list(s.as_str()),
            None => {
                let v: Vec<String> = Vec::new();
                assert(v@.map_values(|x: String| x@) =~= Seq::<Seq<char>>::empty());
                v
            },
        };
        let database_url = match vars.database_url {
            Some(s) => s,
            None => {
                return Err(WaveFlowError::Config(String::from_str("DATABASE_URL is required")));
            },
        };
        let github_webhook_secret = match vars.github_webhook_secret {
            Some(s) => s,
            None => {
                return Err(
                    WaveFlowError::Config(String::from_str("GITHUB_WEBHOOK_SECRET is required")),
                );
            },
        };
        let soroban_rpc_url = match vars.soroban_rpc_url {
            Some(s) => s,
            None => String::from_str("https://soroban-testnet.stellar.org"),
        };
        let network_passphrase = match vars.network_passphrase {
            Some(s) => s,
            None => String::from_str("Test SDF Network ; September 2015"),
        };
        Ok(
            AppConfig {
                database_url,
                github_webhook_secret,
                soroban_rpc_url,
                network_passphrase,
                escrow_contract_id: vars.escrow_contract_id,
                gateway_secret_key: vars.gateway_secret_key,
                api_admin_keys,
                gateway_port,
                api_port,
                escrow_low_balance_threshold,
            },
        )
    }
}

/// What the gateway reports about its configuration at startup.
#[derive(Clone, Copy, Debug, PartialEq, Eq, Structural)]
pub enum ConfigNotice {
    /// Warning: the webhook secret is empty, so every delivery will be rejected.
    EmptyWebhookSecret,
    /// Warning: a contract id is set without a gateway secret key (dry-run mode).
    ContractIdWithoutSecretKey,
    /// Info: the Soroban RPC endpoint is configured.
    RpcConfigured,
    /// Warning: the Soroban RPC URL is empty; chain attestation is disabled.
    RpcUrlEmpty,
    /// Warning: no escrow contract id; attestations run in dry-run mode.
    ContractIdMissing,
    /// Warning: no gateway secret key; chain submissions run in dry-run mode.
    SecretKeyMissing,
}

impl ConfigNotice {
    /// Whether the notice is a warning rather than information.
    pub fn is_warning(&self) -> (r: bool)
        ensures
            r == !(*self is RpcConfigured),
    {
        match self {
            ConfigNotice::RpcConfigured => false,
            _ => true,
        }
    }
}

/// The notices for a configuration, in the order the gateway reports them.
pub open spec fn gateway_config_notices(c: AppConfig) -> Seq<ConfigNotice> {
    let a = if c.github_webhook_secret@.len() == 0 {
        seq![ConfigNotice::EmptyWebhookSecret]
    } else {
        seq![]
    };
    let b = if c.escrow_contract_id is Some && c.gateway_secret_key is None {
        seq![ConfigNotice::ContractIdWithoutSecretKey]
    } else {
        seq![]
    };
    let d = if c.soroban_rpc_url@.len() != 0 {
        seq![ConfigNotice::RpcConfigured]
    } else {
        seq![ConfigNotice::RpcUrlEmpty]
    };
    let e = if c.escrow_contract_id is None {
        seq![ConfigNotice::ContractIdMissing]
    } else {
        seq![]
    };
    let f = if c.gateway_secret_key is None {
        seq![ConfigNotice::SecretKeyMissing]
    } else {
        seq![]
    };
    a + b + d + e + f
}

/// Startup validation of the gateway configuration: what to warn about. Nothing
/// here stops the gateway from starting.
pub fn validate_gateway_config(config: &AppConfig) -> (r: Vec<ConfigNotice>)
    ensures
        r@ == gateway_config_notices(*config),
{
    let mut r: Vec<ConfigNotice> = Vec::new();
    if config.github_webhook_secret.as_str().unicode_len() == 0 {
        r.push(ConfigNotice::EmptyWebhookSecret);
    }
    if config.escrow_contract_id.is_some() && config.gateway_secret_key.is_none() {
        r.push(ConfigNotice::ContractIdWithoutSecretKey);
    }
    if config.soroban_rpc_url.as_str().unicode_len() != 0 {
        r.push(ConfigNotice::RpcConfigured);
    } else {
        r.push(ConfigNotice::RpcUrlEmpty);
    }
    if config.escrow_contract_id.is_none() {
        r.push(ConfigNotice::ContractIdMissing);
    }
    if config.gateway_secret_key.is_none() {
        r.push(ConfigNotice::SecretKeyMissing);
    }
    assert(r@ =~= gateway_config_notices(*config));
    r
}

/// `s` without its trailing `/` characters, as `trim_end_matches('/')` gives it.
pub open spec fn without_trailing_slashes(s: Seq<char>) -> Seq<char>
    decreases s.len(),
{
    if s.len() > 0 && s.last() == '/' {
        without_trailing_slashes(s.drop_last())
    } else {
        s
    }
}

/// The health endpoint of the Soroban RPC server, or `None` when no RPC URL is
/// configured and the health check is skipped.
pub fn rpc_health_url(rpc_url: &str) -> (r: Option<String>)
    ensures
        rpc_url@.len() == 0 ==> r is None,
        rpc_url@.len() != 0 ==> (r matches Some(u) && u@ == without_trailing_slashes(rpc_url@)
            + "/health"@),
{
    let cs = str_chars(rpc_url);
    if cs.len() == 0 {
        return None;
    }
    let mut b = cs.len();
    assert(cs@.subrange(0, b as int) =~= cs@);
    while b > 0 && cs[b - 1] == '/'
        invariant
            b <= cs@.len(),
            cs@ == rpc_url@,
            without_trailing_slashes(rpc_url@) == without_trailing_slashes(
                cs@.subrange(0, b as int),
            ),
        decreases b,
    {
        assert(cs@.subrange(0, b as int).drop_last() =~= cs@.subrange(0, b - 1));
        b = b - 1;
    }
    let mut url = String::from_str(rpc_url.substring_char(0, b));
    url.append("/health");
    Some(url)
}

} // verus!
