use kaspa_ng::settings::{daemon_arg_list, daemon_args_error};
use kaspa_ng::text::{has_prefix, join_with, split_at_char};

#[test]
fn daemon_error_keeps_text_before_usage() {
    let help = "error: unexpected argument '--foo' found\n\n  tip: to pass '--foo' as a value, use '-- --foo'\n\nUsage: kaspad [OPTIONS]\n\nFor more information, try '--help'.\n";
    assert_eq!(
        daemon_args_error(help),
        "error: unexpected argument '--foo' found\n\n  tip: to pass '--foo' as a value, use '-- --foo'"
    );
    assert_eq!(daemon_args_error("  plain message  "), "plain message");
    assert_eq!(daemon_args_error("Usage: kaspad"), "");
    assert_eq!(daemon_args_error("bad value\nFor more info see docs"), "bad value");
}

#[test]
fn daemon_argument_words() {
    assert_eq!(daemon_arg_list("  --utxoindex  --testnet "), vec!["kaspad", "--utxoindex", "", "--testnet"]);
    assert_eq!(daemon_arg_list(""), vec!["kaspad"]);
    assert_eq!(daemon_arg_list("--appdir=/tmp"), vec!["kaspad", "--appdir=/tmp"]);
}

#[test]
fn split_join_and_prefix() {
    assert_eq!(split_at_char("a\nb\n", '\n'), vec!["a", "b", ""]);
    assert_eq!(split_at_char("", ' '), vec![""]);
    assert_eq!(join_with(&vec!["x".to_string(), "y".to_string()], '-'), "x-y");
    assert_eq!(join_with(&vec![], '-'), "");
    assert!(has_prefix("Usage: kaspad", "Usage:"));
    assert!(!has_prefix("Use", "Usage:"));
}

use kaspa_ng::network::Network;
use kaspa_ng::settings::{node_settings_step, AppSettings, ConnectionKind, NodeAction, NodeSettings, Response, Settings};

#[test]
fn settings_load_and_network() {
    let mut page = Settings::new();
    assert_eq!(page.settings.node.network, Network::Mainnet);
    assert!(!page.reset_settings);
    let stored = AppSettings { node: NodeSettings { network: Network::Testnet10 } };
    page.load(stored);
    assert_eq!(page.settings, stored);
    page.change_current_network(Network::Mainnet);
    assert_eq!(page.settings.node.network, Network::Mainnet);
}

#[test]
fn node_settings_decisions() {
    assert_eq!(node_settings_step(true, Some(true), Some(Response::Cancel)), NodeAction::RevertNode);
    assert_eq!(node_settings_step(true, Some(true), Some(Response::Apply)), NodeAction::Nothing);
    assert_eq!(node_settings_step(true, None, None), NodeAction::Nothing);
    assert_eq!(node_settings_step(false, Some(true), Some(Response::Apply)), NodeAction::Store { restart: true });
    assert_eq!(node_settings_step(false, Some(false), Some(Response::Apply)), NodeAction::Store { restart: false });
    assert_eq!(node_settings_step(false, Some(false), Some(Response::Cancel)), NodeAction::RevertAll);
    assert_eq!(node_settings_step(false, None, Some(Response::Apply)), NodeAction::Nothing);
    assert_eq!(node_settings_step(false, Some(true), None), NodeAction::Nothing);
}

#[test]
fn settle_puts_stored_settings_back() {
    let stored = AppSettings { node: NodeSettings { network: Network::Mainnet } };
    let mut page = Settings::new();
    page.change_current_network(Network::Testnet10);
    assert_eq!(page.settle_node_settings(stored, false, Some(false), Some(Response::Apply)), NodeAction::Store { restart: false });
    assert_eq!(page.settings.node.network, Network::Testnet10);
    assert_eq!(page.settle_node_settings(stored, false, Some(true), Some(Response::Cancel)), NodeAction::RevertAll);
    assert_eq!(page.settings, stored);
    page.change_current_network(Network::Testnet10);
    assert_eq!(page.settle_node_settings(stored, true, None, Some(Response::Cancel)), NodeAction::RevertNode);
    assert_eq!(page.settings.node.network, Network::Mainnet);
}

#[test]
fn remote_settings_report_bad_urls() {
    assert_eq!(Settings::render_remote_settings(ConnectionKind::Custom, true), Some("Invalid wRPC URL"));
    assert_eq!(Settings::render_remote_settings(ConnectionKind::Custom, false), None);
    assert_eq!(Settings::render_remote_settings(ConnectionKind::PublicServerCustom, true), None);
    assert_eq!(Settings::render_remote_settings(ConnectionKind::PublicServerRandom, true), None);
}
