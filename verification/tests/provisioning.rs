use regtest_payment::wallet::ProvisionPlan;
use regtest_payment::wallet::provision_plan;

fn names(list: &[&str]) -> Vec<String> {
    list.iter().map(|s| s.to_string()).collect()
}

#[test]
fn fresh_node_creates_and_loads() {
    let plan = provision_plan(&names(&[]), &names(&[]), &"Miner".to_string());
    assert_eq!(plan, ProvisionPlan { create_wallet: true, load_wallet: true });
}

#[test]
fn existing_unloaded_wallet_only_loads() {
    let plan = provision_plan(&names(&["Miner", "Trader"]), &names(&[]), &"Miner".to_string());
    assert_eq!(plan, ProvisionPlan { create_wallet: false, load_wallet: true });
}

#[test]
fn loaded_wallet_needs_nothing() {
    let plan = provision_plan(
        &names(&["Miner", "Trader"]),
        &names(&["Trader", "Miner"]),
        &"Miner".to_string(),
    );
    assert_eq!(plan, ProvisionPlan { create_wallet: false, load_wallet: false });
}

#[test]
fn second_provisioning_issues_no_requests() {
    // First run on an empty node: both requests are issued, after which the
    // node lists the wallet in its directory and in its loaded set.
    let name = "Miner".to_string();
    let first = provision_plan(&names(&[]), &names(&[]), &name);
    assert!(first.create_wallet && first.load_wallet);

    // Second run against the resulting node state: no duplicate requests.
    let second = provision_plan(&names(&["Miner"]), &names(&["Miner"]), &name);
    assert_eq!(second, ProvisionPlan { create_wallet: false, load_wallet: false });
}

#[test]
fn other_wallets_do_not_satisfy_the_name() {
    let plan = provision_plan(&names(&["Trader"]), &names(&["Trader"]), &"Miner".to_string());
    assert_eq!(plan, ProvisionPlan { create_wallet: true, load_wallet: true });
}
