use dfx::canister::{
    select_canisters, start_targets, withdrawal, CanisterDeleteOpts, CanisterNameMissing,
    CanisterStatusOpts, Withdrawal, WITHDRAWAL_COST,
};

fn configured() -> Vec<String> {
    vec!["hello".to_string(), "assets".to_string()]
}

#[test]
fn named_canister_is_chosen_alone() {
    let names = configured();
    assert_eq!(
        select_canisters(&Some("hello".to_string()), false, Some(&names)),
        Some(vec!["hello".to_string()])
    );
    assert_eq!(
        select_canisters(&Some("other".to_string()), true, None),
        Some(vec!["other".to_string()])
    );
}

#[test]
fn all_chooses_the_canisters_of_the_project_in_order() {
    let names = configured();
    assert_eq!(select_canisters(&None, true, Some(&names)), Some(configured()));
    assert_eq!(select_canisters(&None, true, None), Some(vec![]));
    assert_eq!(select_canisters(&None, true, Some(&vec![])), Some(vec![]));
}

#[test]
fn nothing_is_chosen_without_a_name_or_all() {
    let names = configured();
    assert_eq!(select_canisters(&None, false, Some(&names)), None);
    assert_eq!(select_canisters(&None, false, None), None);
}

#[test]
fn start_without_a_name_or_all_misses_the_canister_name() {
    let names = configured();
    assert_eq!(start_targets(&None, false, Some(&names)), Err(CanisterNameMissing));
    assert_eq!(start_targets(&None, true, Some(&names)), Ok(configured()));
    assert_eq!(
        start_targets(&Some("hello".to_string()), false, None),
        Ok(vec!["hello".to_string()])
    );
}

#[test]
fn status_without_a_name_or_all_cannot_find_the_canister_name() {
    let names = configured();
    let none = CanisterStatusOpts { canister_name: None, all: false };
    assert_eq!(none.targets(Some(&names)), Err("Cannot find canister name.".to_string()));
    let all = CanisterStatusOpts { canister_name: None, all: true };
    assert_eq!(all.targets(Some(&names)), Ok(configured()));
    let one = CanisterStatusOpts { canister_name: Some("assets".to_string()), all: false };
    assert_eq!(one.targets(Some(&names)), Ok(vec!["assets".to_string()]));
}

#[test]
fn delete_targets_the_named_canister_or_all() {
    let names = configured();
    let one = CanisterDeleteOpts {
        canister: Some("hello".to_string()),
        all: false,
        withdraw_cycles_to_wallet: None,
    };
    assert_eq!(one.targets(Some(&names)), vec!["hello".to_string()]);
    let all = CanisterDeleteOpts {
        canister: None,
        all: true,
        withdraw_cycles_to_wallet: Some("wallet".to_string()),
    };
    assert_eq!(all.targets(Some(&names)), configured());
    assert_eq!(all.targets(None), Vec::<String>::new());
}

#[test]
fn withdrawal_leaves_the_cost_behind() {
    assert_eq!(WITHDRAWAL_COST, 10_000_000_000);
    assert_eq!(
        withdrawal(true, 10_000_000_001),
        Withdrawal::Withdraw { cycles: 1 }
    );
    assert_eq!(
        withdrawal(false, 25_000_000_000),
        Withdrawal::Withdraw { cycles: 15_000_000_000 }
    );
    assert_eq!(withdrawal(false, 10_000_000_000), Withdrawal::Withdraw { cycles: 0 });
    assert_eq!(
        withdrawal(true, u64::MAX),
        Withdrawal::Withdraw { cycles: u64::MAX - 10_000_000_000 }
    );
}

#[test]
fn stopped_canister_with_too_few_cycles_keeps_them() {
    assert_eq!(
        withdrawal(true, 10_000_000_000),
        Withdrawal::TooFewCycles { cycles: 10_000_000_000 }
    );
    assert_eq!(withdrawal(true, 0), Withdrawal::TooFewCycles { cycles: 0 });
}
