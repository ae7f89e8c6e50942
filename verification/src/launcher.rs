//! Fixed configuration of the session launcher and of authentication
//! recovery.
//!
//! The launcher spawns an external local-proxy process that bridges the
//! tunnel's two services onto local ports; recovery runs an external
//! re-login command. Both are pure I/O and are performed by the unverified
//! shell; what is computed here — and verified — is every argument they are
//! invoked with. The access token travels only through a named environment
//! variable, never through the argument list, so that it cannot leak
//! through process listings.

use vstd::prelude::*;

verus! {

/// The profile the cloud session is configured with, also used by the
/// re-login command.
pub fn login_profile() -> (r: &'static str)
    ensures
        r@ == "iotmgmt_prod"@,
{
    "iotmgmt_prod"
}

/// The region used when the configured session resolves none.
pub fn default_region() -> (r: &'static str)
    ensures
        r@ == "eu-west-1"@,
{
    "eu-west-1"
}

/// Everything the local-proxy process is started with. The token has no
/// place among the arguments: it is injected through the environment
/// variable named here.
#[derive(Debug)]
pub struct ProxyCommand {
    /// The executable to spawn.
    pub program: String,
    /// Its working directory, holding the proxy binary's assets.
    pub working_directory: String,
    /// The region argument.
    pub region: String,
    /// The fixed service-to-port mapping argument.
    pub service_mappings: String,
    /// The fixed bind address argument: all interfaces.
    pub bind_address: String,
    /// The environment variable the source token is delivered through.
    pub token_env_var: String,
    /// The freshly issued source-side access token.
    pub source_token: String,
}

/// Build the invocation of the local proxy for a region and a source
/// token: every argument fixed, the token only in the environment entry.
pub fn proxy_command(region: &str, source_token: String) -> (c: ProxyCommand)
    ensures
        c.program@ == "localproxy"@,
        c.working_directory@ == "assets"@,
        c.region@ == region@,
        c.service_mappings@ == "secure-shell=2222,remote-terminal=5555"@,
        c.bind_address@ == "0.0.0.0"@,
        c.token_env_var@ == "AWSIOT_TUNNEL_ACCESS_TOKEN"@,
        c.source_token == source_token,
{
    ProxyCommand {
        program: "localproxy".to_owned(),
        working_directory: "assets".to_owned(),
        region: region.to_owned(),
        service_mappings: "secure-shell=2222,remote-terminal=5555".to_owned(),
        bind_address: "0.0.0.0".to_owned(),
        token_env_var: "AWSIOT_TUNNEL_ACCESS_TOKEN".to_owned(),
        source_token,
    }
}

/// The external re-login invocation run by authentication recovery: the
/// command and its arguments, profile included. Success of the spawned
/// command is exit code zero.
#[derive(Debug)]
pub struct RecoveryCommand {
    /// The executable to run.
    pub program: String,
    /// Its arguments, in order.
    pub args: Vec<String>,
}

/// Build the re-login invocation: log in through the fixed profile, with
/// no network client arguments.
pub fn recovery_command() -> (c: RecoveryCommand)
    ensures
        c.program@ == "aws"@,
        c.args@.len() == 4,
        c.args@[0]@ == "sso"@,
        c.args@[1]@ == "login"@,
        c.args@[2]@ == "--profile"@,
        c.args@[3]@ == "iotmgmt_prod"@,
{
    let mut args: Vec<String> = Vec::new();
    args.push("sso".to_owned());
    args.push("login".to_owned());
    args.push("--profile".to_owned());
    args.push(login_profile().to_owned());
    RecoveryCommand { program: "aws".to_owned(), args }
}

} // verus!
