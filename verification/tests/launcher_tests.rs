use tunnel_manager::launcher::{default_region, login_profile, proxy_command, recovery_command};
use tunnel_manager::tunnel::DestinationConfig;

#[test]
fn proxy_invocation_is_fully_pinned() {
    let command = proxy_command("eu-west-1", "secret-token".to_string());
    assert_eq!(command.program, "localproxy");
    assert_eq!(command.working_directory, "assets");
    assert_eq!(command.region, "eu-west-1");
    assert_eq!(command.service_mappings, "secure-shell=2222,remote-terminal=5555");
    assert_eq!(command.bind_address, "0.0.0.0");
    assert_eq!(command.token_env_var, "AWSIOT_TUNNEL_ACCESS_TOKEN");
    assert_eq!(command.source_token, "secret-token");
}

#[test]
fn proxy_arguments_never_carry_the_token() {
    let command = proxy_command("eu-west-1", "secret-token".to_string());
    // The token reaches the process only through the environment variable;
    // no argument string contains it.
    assert!(!command.region.contains("secret-token"));
    assert!(!command.service_mappings.contains("secret-token"));
    assert!(!command.bind_address.contains("secret-token"));
}

#[test]
fn recovery_invocation_uses_the_fixed_profile() {
    let command = recovery_command();
    assert_eq!(command.program, "aws");
    assert_eq!(
        command.args,
        vec!["sso", "login", "--profile", "iotmgmt_prod"]
    );
}

#[test]
fn configuration_constants() {
    assert_eq!(default_region(), "eu-west-1");
    assert_eq!(login_profile(), "iotmgmt_prod");
}

#[test]
fn destination_config_carries_the_two_fixed_services() {
    let config = DestinationConfig::new("G111070".to_string());
    assert_eq!(config.device_id, "G111070");
    assert_eq!(config.services, vec!["remote-terminal", "secure-shell"]);
}
