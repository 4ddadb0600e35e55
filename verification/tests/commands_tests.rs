use ledger_accounts::commands::{ExportGenesisStateCommand, ExportGenesisWasmCommand};
use std::path::PathBuf;

#[test]
fn genesis_commands_hold_their_arguments() {
    let s = ExportGenesisStateCommand {
        output: Some(PathBuf::from("genesis.json")),
        parachain_id: 100,
        chain: None,
    };
    assert_eq!(s.parachain_id, 100);
    assert!(s.output.is_some());
    assert!(s.chain.is_none());

    let w = ExportGenesisWasmCommand { output: None, chain: Some(String::from("dev")) };
    assert_eq!(w.chain.as_deref(), Some("dev"));
}
