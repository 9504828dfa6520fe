use hiqlite::migration::{MigrationFile, MigrationProblem, Migrations};

fn file(name: &str, content: &str) -> MigrationFile {
    let mut sha = [0u8; 32];
    sha[0] = 0xab;
    sha[31] = 0x01;
    MigrationFile {
        name: name.to_string(),
        content: content.as_bytes().to_vec(),
        sha256: sha,
    }
}

const HASH: &str = "ab00000000000000000000000000000000000000000000000000000000000001";

#[test]
fn migrations_are_built_in_id_order() {
    let files = vec![
        file("2_add_users.sql", "CREATE TABLE users (id INTEGER);"),
        file("1_init.sql", "CREATE TABLE t (id INTEGER);"),
        file("3_index_by_name_v2.sql", ""),
    ];
    assert_eq!(Migrations::check_files(&files), None);
    let m = Migrations::build(&files);
    assert_eq!(m.len(), 3);
    assert_eq!(m[0].id, 1);
    assert_eq!(m[0].name, "init");
    assert_eq!(m[0].content, b"CREATE TABLE t (id INTEGER);".to_vec());
    assert_eq!(m[0].hash, HASH);
    assert_eq!(m[1].id, 2);
    assert_eq!(m[1].name, "add_users");
    assert_eq!(m[2].id, 3);
    assert_eq!(m[2].name, "index_by_name_v2");
}

#[test]
fn no_migrations() {
    let files: Vec<MigrationFile> = vec![];
    assert_eq!(Migrations::check_files(&files), None);
    assert!(Migrations::build(&files).is_empty());
}

#[test]
fn migration_names_need_an_id() {
    let files = vec![file("1_init.sql", ""), file("init.sql", "")];
    assert_eq!(
        Migrations::check_files(&files),
        Some(MigrationProblem::MissingSeparator { index: 1 })
    );
    let files = vec![file("x_init.sql", ""), file("init.sql", "")];
    assert_eq!(
        Migrations::check_files(&files),
        Some(MigrationProblem::InvalidId { index: 0 })
    );
    let files = vec![file("99999999999_big.sql", "")];
    assert_eq!(
        Migrations::check_files(&files),
        Some(MigrationProblem::InvalidId { index: 0 })
    );
    let files = vec![file("+1_plus.sql", "")];
    assert_eq!(Migrations::check_files(&files), None);
    assert_eq!(Migrations::build(&files)[0].id, 1);
}

#[test]
fn migrations_start_at_one_without_gaps() {
    let files = vec![file("2_a.sql", ""), file("3_b.sql", "")];
    assert_eq!(Migrations::check_files(&files), Some(MigrationProblem::FirstNotOne));
    let files = vec![file("0_a.sql", ""), file("1_b.sql", "")];
    assert_eq!(Migrations::check_files(&files), Some(MigrationProblem::FirstNotOne));
    let files = vec![file("1_a.sql", ""), file("3_b.sql", "")];
    assert_eq!(Migrations::check_files(&files), Some(MigrationProblem::NotConsecutive));
    let files = vec![file("1_a.sql", ""), file("1_b.sql", "")];
    assert_eq!(Migrations::check_files(&files), Some(MigrationProblem::NotConsecutive));
}

#[test]
fn migration_scripts_end_in_sql() {
    let files = vec![file("1_a.sql", ""), file("2_b.txt", "")];
    assert_eq!(Migrations::check_files(&files), Some(MigrationProblem::MissingSqlSuffix));
    // The gap after id 1 is reached before the file with id 5.
    let files = vec![file("1_a.sql", ""), file("3_b.sql", ""), file("5_c.txt", "")];
    assert_eq!(Migrations::check_files(&files), Some(MigrationProblem::NotConsecutive));
    // The first file after the gap is looked at before the gap is reported.
    let files = vec![file("1_a.sql", ""), file("3_b.txt", "")];
    assert_eq!(Migrations::check_files(&files), Some(MigrationProblem::MissingSqlSuffix));
    // The second file with a repeated id is looked at, a third is not.
    let files = vec![file("1_a.sql", ""), file("1_b.txt", "")];
    assert_eq!(Migrations::check_files(&files), Some(MigrationProblem::MissingSqlSuffix));
    let files = vec![file("1_a.sql", ""), file("1_b.sql", ""), file("1_c.txt", "")];
    assert_eq!(Migrations::check_files(&files), Some(MigrationProblem::NotConsecutive));
}
