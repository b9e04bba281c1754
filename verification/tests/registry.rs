use schema_store::migration::Direction;
use schema_store::migration::Migration;
use schema_store::migration::MigrationRegistry;
use schema_store::runner::unit_of_work;
use schema_store::runner::RowChange;
use schema_store::script::chars_of;
use schema_store::script::durability_statement;
use schema_store::script::is_admissible;
use schema_store::script::removal_statement;

fn step(version: u64) -> Migration {
    Migration::new(version, format!("CREATE TABLE s{} (id INTEGER);", version), format!("DROP TABLE s{};", version))
}

#[test]
fn migration_keeps_what_it_was_made_of() {
    let m = Migration::new(3, "up".to_string(), "down".to_string());
    assert_eq!(m.version, 3);
    assert_eq!(m.up_script, "up");
    assert_eq!(m.down_script, "down");
    assert_eq!(m.script(Direction::Forward), "up");
    assert_eq!(m.script(Direction::Reverse), "down");
}

#[test]
fn registry_takes_ascending_versions() {
    let registry = MigrationRegistry::new(vec![step(1), step(2), step(10)]).unwrap();
    assert_eq!(registry.len(), 3);
    assert_eq!(registry.version_list(), vec![1, 2, 10]);
    assert_eq!(registry.get(0).unwrap().version, 1);
    assert_eq!(registry.get(2).unwrap().version, 10);
    assert_eq!(registry.get(2).unwrap().up_script, "CREATE TABLE s10 (id INTEGER);");
    assert!(registry.get(3).is_none());
}

#[test]
fn registry_may_be_empty_or_hold_one() {
    let empty = MigrationRegistry::new(Vec::new()).unwrap();
    assert_eq!(empty.len(), 0);
    assert!(empty.get(0).is_none());
    assert_eq!(empty.version_list(), Vec::<u64>::new());
    assert!(empty.find(0).is_none());
    let one = MigrationRegistry::new(vec![step(0)]).unwrap();
    assert_eq!(one.len(), 1);
    assert_eq!(one.find(0).unwrap().version, 0);
}

#[test]
fn registry_refuses_a_version_twice() {
    assert!(MigrationRegistry::new(vec![step(1), step(1)]).is_none());
    assert!(MigrationRegistry::new(vec![step(1), step(2), step(2)]).is_none());
}

#[test]
fn registry_refuses_versions_out_of_order() {
    assert!(MigrationRegistry::new(vec![step(2), step(1)]).is_none());
    assert!(MigrationRegistry::new(vec![step(1), step(3), step(2)]).is_none());
    assert!(MigrationRegistry::new(vec![step(1), step(2), step(0)]).is_none());
}

#[test]
fn registry_finds_a_version() {
    let registry = MigrationRegistry::new(vec![step(4), step(8), step(15)]).unwrap();
    assert_eq!(registry.find(4).unwrap().version, 4);
    assert_eq!(registry.find(8).unwrap().up_script, "CREATE TABLE s8 (id INTEGER);");
    assert_eq!(registry.find(15).unwrap().down_script, "DROP TABLE s15;");
    assert!(registry.find(5).is_none());
    assert!(registry.find(0).is_none());
    assert!(registry.find(16).is_none());
}

#[test]
fn scripts_without_the_reserved_name_are_admissible() {
    assert!(is_admissible(""));
    assert!(is_admissible("CREATE TABLE t (id INTEGER PRIMARY KEY NOT NULL);"));
    assert!(is_admissible("diesel_manage_updated_a"));
    assert!(is_admissible("iesel_manage_updated_at"));
    assert!(is_admissible("diesel_manage_updated-at"));
    assert!(is_admissible("diesel_manage updated_at"));
    assert!(is_admissible("diesel_manage_updated_a diesel_manage_updated_t"));
    assert!(is_admissible("CREATE TABLE caf\u{e9} (\u{4e2d}\u{6587} TEXT); -- diesel_manage"));
    assert!(is_admissible(durability_statement()));
    assert!(is_admissible(removal_statement()));
}

#[test]
fn scripts_with_the_reserved_name_are_not_admissible() {
    assert!(!is_admissible("diesel_manage_updated_at"));
    assert!(!is_admissible("SELECT diesel_manage_updated_at('t');"));
    assert!(!is_admissible("SELECT DIESEL_MANAGE_UPDATED_AT('t');"));
    assert!(!is_admissible("select Diesel_Manage_Updated_At('t')"));
    assert!(!is_admissible("CREATE TABLE t (id INTEGER); SELECT dIESEL_mANAGE_uPDATED_aT('t')"));
    assert!(!is_admissible("xdiesel_manage_updated_atx"));
    assert!(!is_admissible("ddiesel_manage_updated_at"));
    assert!(!is_admissible("diesel_manage_updated_diesel_manage_updated_at"));
    assert!(!is_admissible("caf\u{e9} \u{4e2d}\u{6587} diesel_manage_updated_at"));
    assert!(!is_admissible("-- diesel_manage_updated_at"));
}

#[test]
fn fixed_statements_are_what_the_store_expects() {
    assert_eq!(durability_statement(), "PRAGMA synchronous = NORMAL");
    assert_eq!(
        removal_statement(),
        "DELETE FROM __diesel_schema_migrations WHERE version = ?"
    );
}

#[test]
fn chars_of_gives_each_character() {
    assert_eq!(chars_of(""), Vec::<char>::new());
    assert_eq!(chars_of("a_B"), vec!['a', '_', 'B']);
    assert_eq!(chars_of("\u{e9}\u{4e2d}z"), vec!['\u{e9}', '\u{4e2d}', 'z']);
}

#[test]
fn registry_refuses_a_script_with_the_reserved_name() {
    let up = Migration::new(
        2,
        "SELECT diesel_manage_updated_at('nowhere');".to_string(),
        "SELECT 1;".to_string(),
    );
    assert!(MigrationRegistry::new(vec![step(1), up]).is_none());
    let down = Migration::new(
        2,
        "SELECT 1;".to_string(),
        "SELECT Diesel_Manage_Updated_AT('nowhere');".to_string(),
    );
    assert!(MigrationRegistry::new(vec![step(1), down, step(3)]).is_none());
    let near = Migration::new(
        2,
        "SELECT 'diesel_manage_updated';".to_string(),
        "SELECT 'manage_updated_at';".to_string(),
    );
    assert!(MigrationRegistry::new(vec![step(1), near, step(3)]).is_some());
}

#[test]
fn unit_of_work_pairs_script_and_change() {
    let m = Migration::new(1203, "up".to_string(), "down".to_string());
    let forward = unit_of_work(Direction::Forward, &m);
    assert_eq!(forward.script, "up");
    assert_eq!(forward.row, "1203");
    assert_eq!(forward.change, RowChange::Record);
    let reverse = unit_of_work(Direction::Reverse, &m);
    assert_eq!(reverse.script, "down");
    assert_eq!(reverse.row, "1203");
    assert_eq!(reverse.change, RowChange::Remove);
}
