use fcastsender::migration_runtime::CRATE_NAME;

#[test]
fn crate_name_set() {
    assert_eq!(CRATE_NAME, "migration-runtime");
}
