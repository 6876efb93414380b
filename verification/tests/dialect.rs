use ormx_macros::dialect::Dialect;
use ormx_macros::patch::{derive_patch, patch_sql, PatchDescriptor, PatchField};
use ormx_macros::text::concat_all;

#[test]
fn postgres_numbers_its_placeholders() {
    assert_eq!(Dialect::Postgres.placeholder(1), "$1");
    assert_eq!(Dialect::Postgres.placeholder(12), "$12");
    assert_eq!(Dialect::Postgres.placeholder(0), "$0");
    assert_eq!(Dialect::Postgres.placeholder(1907), "$1907");
}

#[test]
fn mysql_and_sqlite_use_question_marks() {
    assert_eq!(Dialect::MySql.placeholder(3), "?");
    assert_eq!(Dialect::Sqlite.placeholder(3), "?");
}

#[test]
fn placeholder_lists() {
    assert_eq!(Dialect::Postgres.placeholders(0), "");
    assert_eq!(Dialect::Postgres.placeholders(1), "$1");
    assert_eq!(Dialect::Postgres.placeholders(3), "$1, $2, $3");
    assert_eq!(Dialect::MySql.placeholders(2), "?, ?");
}

#[test]
fn only_postgres_returns_the_id() {
    assert!(Dialect::Postgres.supports_returning());
    assert!(!Dialect::MySql.supports_returning());
    assert!(!Dialect::Sqlite.supports_returning());
}

#[test]
fn follow_up_queries() {
    assert_eq!(Dialect::Postgres.last_id_query(), "");
    assert_eq!(Dialect::MySql.last_id_query(), "SELECT LAST_INSERT_ID()");
    assert_eq!(Dialect::Sqlite.last_id_query(), "SELECT last_insert_rowid()");
}

#[test]
fn bind_call_shape() {
    assert_eq!(Dialect::Postgres.bind_call("&self.id"), " arguments.add(&self.id); ");
}

#[test]
fn concat_all_keeps_order() {
    let parts = vec!["a".to_string(), "".to_string(), "bc".to_string()];
    assert_eq!(concat_all(&parts), "abc");
    assert_eq!(concat_all(&Vec::new()), "");
}

fn patch() -> PatchDescriptor {
    PatchDescriptor {
        ident: "UpdateName".to_string(),
        table_name: "users".to_string(),
        id_column: "id".to_string(),
        id_type: "u32".to_string(),
        fields: vec![
            PatchField { name: "first_name".to_string(), column_name: "first_name".to_string() },
            PatchField { name: "last_name".to_string(), column_name: "surname".to_string() },
        ],
    }
}

#[test]
fn patch_statement_sets_every_field() {
    assert_eq!(
        patch_sql(&patch(), Dialect::Postgres),
        "UPDATE users SET first_name = $1, surname = $2 WHERE id = $3"
    );
    assert_eq!(
        patch_sql(&patch(), Dialect::MySql),
        "UPDATE users SET first_name = ?, surname = ? WHERE id = ?"
    );
}

#[test]
fn patch_operation() {
    assert_eq!(
        derive_patch(&patch(), Dialect::Postgres),
        "impl UpdateName { pub async fn patch(&self, db: &mut cherry::Connection, id: u32) -> Result<(), cherry::error::Error> { use cherry::sqlx::Arguments as OtherArguments; let mut arguments = cherry::types::Arguments::default(); arguments.add(&self.first_name);  arguments.add(&self.last_name);  arguments.add(id);  db.execute(\"UPDATE users SET first_name = $1, surname = $2 WHERE id = $3\", arguments).await?; Ok(()) } }"
    );
}
