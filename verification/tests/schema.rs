use ormx_macros::dialect::Dialect;
use ormx_macros::model::{AccessorDirective, AccessorKind, FieldDescriptor, Role, TableDescriptor};
use ormx_macros::schema::{arguments, column_names, columns, from_row, impl_schema, name, read_field};

fn field(name: &str, column: &str, role: Role) -> FieldDescriptor {
    FieldDescriptor {
        name: name.to_string(),
        semantic_type: "String".to_string(),
        column_name: column.to_string(),
        role,
        custom_type: false,
        type_override: None,
        accessors: Vec::<AccessorDirective>::new(),
    }
}

fn users() -> TableDescriptor {
    TableDescriptor {
        ident: "User".to_string(),
        table_name: "users".to_string(),
        fields: vec![
            field("user_id", "id", Role::Id),
            field("first_name", "first_name", Role::Regular),
            field("last_login", "last_login", Role::Default),
        ],
        insertable: None,
        deletable: false,
    }
}

fn empty() -> TableDescriptor {
    TableDescriptor {
        ident: "Nothing".to_string(),
        table_name: "nothing".to_string(),
        fields: Vec::new(),
        insertable: None,
        deletable: false,
    }
}

#[test]
fn table_name_function() {
    assert_eq!(name(&users()), "fn table() -> &'static str { \"users\" }");
}

#[test]
fn column_names_follow_declaration_order() {
    let names = column_names(&users());
    assert_eq!(names, vec!["id".to_string(), "first_name".to_string(), "last_login".to_string()]);
    assert_eq!(names.len(), users().fields.len());
}

#[test]
fn column_list_function() {
    assert_eq!(
        columns(&users()),
        "fn columns() -> Vec<&'static str> { vec![ \"id\",  \"first_name\",  \"last_login\"] }"
    );
}

#[test]
fn column_list_of_one_field_has_no_separator() {
    let mut t = users();
    t.fields.truncate(1);
    assert_eq!(columns(&t), "fn columns() -> Vec<&'static str> { vec![ \"id\"] }");
}

#[test]
fn column_list_of_no_field_is_empty() {
    assert_eq!(columns(&empty()), "fn columns() -> Vec<&'static str> { vec![] }");
}

#[test]
fn arguments_bind_fields_in_column_order() {
    assert_eq!(
        arguments(&users(), Dialect::Postgres),
        "fn arguments<'a>(&'a self, arguments: &mut cherry::types::Arguments<'a>) { use cherry::sqlx::Arguments as OtherArguments; arguments.add(&self.user_id);  arguments.add(&self.first_name);  arguments.add(&self.last_login); }"
    );
}

#[test]
fn arguments_of_no_field_bind_nothing() {
    assert_eq!(
        arguments(&empty(), Dialect::MySql),
        "fn arguments<'a>(&'a self, arguments: &mut cherry::types::Arguments<'a>) { use cherry::sqlx::Arguments as OtherArguments;}"
    );
}

#[test]
fn from_row_reads_each_column_by_name() {
    assert_eq!(
        from_row(&users()),
        "fn from_row(row: &cherry::types::Row) -> Result<Self, cherry::error::Error> { use cherry::sqlx::Row as OtherRow; Ok( Self { user_id: row.try_get(\"id\")?,  first_name: row.try_get(\"first_name\")?,  last_login: row.try_get(\"last_login\")? } ) }"
    );
}

#[test]
fn custom_type_is_read_as_its_storage_type() {
    let mut f = field("status", "state", Role::Regular);
    f.custom_type = true;
    f.type_override = Some("StatusCode".to_string());
    assert_eq!(read_field(&f), " status: row.try_get::<StatusCode, _>(\"state\")?");
}

#[test]
fn storage_type_without_custom_marker_is_not_used() {
    let mut f = field("status", "state", Role::Regular);
    f.type_override = Some("StatusCode".to_string());
    assert_eq!(read_field(&f), " status: row.try_get(\"state\")?");
}

#[test]
fn schema_holds_the_four_parts_in_order() {
    let t = users();
    let d = Dialect::Sqlite;
    let expected = format!(
        "impl cherry::Schema for User {{ {} {} {} {} }}",
        name(&t),
        columns(&t),
        arguments(&t, d),
        from_row(&t)
    );
    assert_eq!(impl_schema(&t, d), expected);
}

#[test]
fn schema_is_the_same_each_time() {
    assert_eq!(impl_schema(&users(), Dialect::MySql), impl_schema(&users(), Dialect::MySql));
}

#[test]
fn accessor_kinds_clash_within_their_group() {
    assert!(AccessorKind::GetOne.clashes_with(AccessorKind::GetMany));
    assert!(AccessorKind::SetField.clashes_with(AccessorKind::SetField));
    assert!(!AccessorKind::SetField.clashes_with(AccessorKind::GetOptional));
}
