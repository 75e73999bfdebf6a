use node_health::env::get_env_bool;
use node_health::env::get_env_var_unsafe;
use node_health::env::get_network;
use node_health::env::obfuscate_if_secret;
use node_health::env::parse_env_bool;
use node_health::env::parse_network;
use node_health::env::Network;

#[test]
fn test_get_env_bool_not_there() {
    let flag = get_env_bool(None);
    assert_eq!(flag, None);
}

#[test]
fn test_get_env_bool_true() {
    assert_eq!(get_env_bool(Some("true".to_string())), Some(true));
}

#[test]
fn test_get_env_bool_true_upper() {
    assert_eq!(get_env_bool(Some("TRUE".to_string())), Some(true));
}

#[test]
fn test_get_env_bool_false() {
    assert_eq!(get_env_bool(Some("false".to_string())), Some(false));
}

#[test]
fn test_parse_env_bool_spellings() {
    assert_eq!(parse_env_bool("t"), Some(true));
    assert_eq!(parse_env_bool("1"), Some(true));
    assert_eq!(parse_env_bool("f"), Some(false));
    assert_eq!(parse_env_bool("0"), Some(false));
    assert_eq!(parse_env_bool("yes"), None);
    assert_eq!(parse_env_bool(""), None);
}

#[test]
fn test_get_env_var_unsafe() {
    let test_value = "my-env-value";
    assert_eq!(get_env_var_unsafe(Some(test_value.to_string())), test_value);
}

#[test]
fn test_obfuscate_if_secret() {
    let secret_key = "SECRET_KEY";
    let blacklist = vec![secret_key];
    assert_eq!(
        obfuscate_if_secret(&blacklist, secret_key, "my_secret_value"),
        "****alue"
    );

    let normal_key = "NORMAL_KEY";
    assert_eq!(
        obfuscate_if_secret(&blacklist, normal_key, "my_normal_value"),
        "my_normal_value"
    );
}

#[test]
fn test_obfuscate_short_secret() {
    let blacklist = vec!["K"];
    assert_eq!(obfuscate_if_secret(&blacklist, "K", "abc"), "****abc");
}

#[test]
fn test_get_network() {
    assert_eq!(get_network(Some("mainnet".to_string())), Network::Mainnet);
    assert_eq!(get_network(Some("goerli".to_string())), Network::Goerli);
    assert_eq!(get_network(Some("Mainnet".to_string())), Network::Mainnet);
    assert_eq!(get_network(Some("Goerli".to_string())), Network::Goerli);
    assert_eq!(get_network(None), Network::Mainnet);
}

#[test]
fn test_parse_network_names() {
    assert_eq!(parse_network("holesky"), Some(Network::Holesky));
    assert_eq!(parse_network("HOODI"), Some(Network::Hoodi));
    assert_eq!(parse_network("invalid_network"), None);
    assert_eq!(parse_network(""), None);
}

#[test]
fn test_network_as_str() {
    assert_eq!(Network::Mainnet.as_str(), "mainnet");
    assert_eq!(Network::Goerli.as_str(), "goerli");
    assert_eq!(Network::Holesky.as_str(), "holesky");
    assert_eq!(Network::Hoodi.as_str(), "hoodi");
}
