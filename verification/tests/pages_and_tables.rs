use web3_proxy::frontend::http::{index, status, Web3ProxyApp};
use web3_proxy::migration::{Migration, Migrator};
use web3_proxy::referee::{Column, ForeignKeyAction, Relation, Table};

#[test]
fn index_greets() {
    assert_eq!(index(), "Hello, World!");
}

#[test]
fn status_counts_the_active_requests() {
    let app = Web3ProxyApp {
        balanced_rpcs: "[1]".to_string(),
        private_rpcs: "[2]".to_string(),
        active_requests: vec!["a".to_string(), "b".to_string(), "c".to_string()],
    };
    let page = status(&app);
    assert_eq!(page.status_code, 500);
    assert_eq!(page.balanced_rpcs, "[1]");
    assert_eq!(page.private_rpcs, "[2]");
    assert_eq!(page.num_active_requests, 3);
}

#[test]
fn migrations_run_in_the_order_of_their_names() {
    let migrations = Migrator::migrations();
    let names: Vec<&str> = migrations.iter().map(|migration| migration.name()).collect();
    assert_eq!(
        names,
        vec![
            "m20220101_000001_create_table",
            "m20220921_181610_log_reverts",
            "m20220928_015108_concurrency_limits",
            "m20221007_213828_accounting",
            "m20221025_210326_add_chain_id_to_reverts",
        ]
    );
    let mut sorted = names.clone();
    sorted.sort();
    sorted.dedup();
    assert_eq!(names, sorted);
    assert_eq!(migrations[0], Migration::CreateTable);
}

#[test]
fn a_referee_refers_to_its_referrer_and_its_user() {
    let referrer = Relation::Referrer.def();
    assert_eq!(referrer.from, Column::UsedReferralCode);
    assert_eq!(referrer.to, Table::Referrer);
    assert_eq!(referrer.on_update, ForeignKeyAction::NoAction);
    assert_eq!(referrer.on_delete, ForeignKeyAction::NoAction);
    let user = Relation::User.def();
    assert_eq!(user.from, Column::UserId);
    assert_eq!(user.to, Table::User);
}
