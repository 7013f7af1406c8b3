use near_runner_ws::call::{
    ft_transfer, init_ft_contract, parse_amount, BuildError, SubmissionMode, TOTAL_SUPPLY,
};
use near_runner_ws::config::{SandboxConfig, DEFAULT_RPC_ADDRESS, FT_WASM_FILEPATH};

#[test]
fn amounts_are_decimal_u128() {
    assert_eq!(parse_amount("42"), Some(42));
    assert_eq!(parse_amount("0"), Some(0));
    assert_eq!(parse_amount("007"), Some(7));
    assert_eq!(parse_amount(&u128::MAX.to_string()), Some(u128::MAX));
    assert_eq!(parse_amount("340282366920938463463374607431768211456"), None);
    assert_eq!(parse_amount(""), None);
    assert_eq!(parse_amount("+42"), None);
    assert_eq!(parse_amount("4a"), None);
    assert_eq!(parse_amount("-1"), None);
    assert_eq!(parse_amount("1 000"), None);
}

#[test]
fn transfer_call_carries_its_fields() {
    let d = ft_transfer("ft.test.near", "owner.test.near", "bob.test.near", "42", SubmissionMode::Wait)
        .expect("well-formed transfer");
    assert_eq!(d.target.as_str(), "ft.test.near");
    assert_eq!(d.caller.as_str(), "owner.test.near");
    assert_eq!(d.method, "ft_transfer");
    assert_eq!(
        d.args,
        vec![
            ("receiver_id".to_string(), "bob.test.near".to_string()),
            ("amount".to_string(), "42".to_string())
        ]
    );
    assert_eq!(d.deposit, 1);
    assert_eq!(d.mode, SubmissionMode::Wait);
}

#[test]
fn transfer_args_are_json_text() {
    let d = ft_transfer("ft.test.near", "owner.test.near", "bob.test.near", "42", SubmissionMode::FireAndForget)
        .expect("well-formed transfer");
    assert_eq!(d.mode, SubmissionMode::FireAndForget);
    let json = d.args_json();
    let parsed: serde_json::Value = serde_json::from_str(&json).expect("JSON text");
    assert_eq!(parsed["receiver_id"], "bob.test.near");
    assert_eq!(parsed["amount"], "42");
    assert_eq!(parsed.as_object().map(|m| m.len()), Some(2));
    assert!(json.starts_with('{') && !json.contains(' '));
}

#[test]
fn transfer_reports_first_malformed_field() {
    let m = SubmissionMode::Wait;
    assert_eq!(ft_transfer("FT", "owner.near", "bob.near", "1", m).err(), Some(BuildError::InvalidTarget));
    assert_eq!(ft_transfer("ft.near", "x", "bob.near", "1", m).err(), Some(BuildError::InvalidCaller));
    assert_eq!(ft_transfer("ft.near", "owner.near", "bob..near", "1", m).err(), Some(BuildError::InvalidReceiver));
    assert_eq!(ft_transfer("ft.near", "owner.near", "bob.near", "1.5", m).err(), Some(BuildError::InvalidAmount));
    assert_eq!(ft_transfer("FT", "x", "y", "z", m).err(), Some(BuildError::InvalidTarget));
}

#[test]
fn init_call_mints_total_supply_for_owner() {
    let d = init_ft_contract("ft.test.near", "owner.test.near").expect("well-formed init");
    assert_eq!(d.target.as_str(), "ft.test.near");
    assert_eq!(d.caller.as_str(), "ft.test.near");
    assert_eq!(d.method, "new_default_meta");
    assert_eq!(TOTAL_SUPPLY, "1000000000");
    assert_eq!(
        d.args,
        vec![
            ("owner_id".to_string(), "owner.test.near".to_string()),
            ("total_supply".to_string(), "1000000000".to_string())
        ]
    );
    assert_eq!(d.deposit, 0);
    assert_eq!(d.mode, SubmissionMode::Wait);
    let parsed: serde_json::Value = serde_json::from_str(&d.args_json()).expect("JSON text");
    assert_eq!(parsed["total_supply"], "1000000000");
}

#[test]
fn init_call_rejects_malformed_names() {
    assert_eq!(init_ft_contract("", "owner.near").err(), Some(BuildError::InvalidTarget));
    assert_eq!(init_ft_contract("ft.near", "Owner").err(), Some(BuildError::InvalidOwner));
}

#[test]
fn config_uses_local_defaults() {
    let c = SandboxConfig::with_home_dir("/tmp/near-home".to_string());
    assert_eq!(c.rpc_address, "http://localhost:3030");
    assert_eq!(c.rpc_address, DEFAULT_RPC_ADDRESS);
    assert_eq!(c.home_dir, "/tmp/near-home");
    assert_eq!(c.wasm_path, FT_WASM_FILEPATH);
}
