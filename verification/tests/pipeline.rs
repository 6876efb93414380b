use ormx_macros::accessor::{
    delete_sql, find_field, impl_accessor, impl_accessors, impl_delete, rows_to_result, select_sql,
    update_sql,
};
use ormx_macros::builder::{has_field_named, validate, ModelError, ResolvedModel};
use ormx_macros::compile::{compile, derive_table};
use ormx_macros::dialect::Dialect;
use ormx_macros::insert::{
    impl_insert, insert_fields, insert_name, insert_operation, insert_sql, insert_type,
};
use ormx_macros::model::{AccessorDirective, AccessorKind, FieldDescriptor, Role, TableDescriptor};
use ormx_macros::parse::{
    check_annotation, classify, parse_table, read_table, Key, Place, RawAnnotation, RawField,
    RawRecord,
};

fn ann(key: &str, value: Option<&str>, argument: Option<&str>, location: usize) -> RawAnnotation {
    RawAnnotation {
        key: key.to_string(),
        value: value.map(|v| v.to_string()),
        argument: argument.map(|v| v.to_string()),
        location,
    }
}

fn raw_field(name: &str, ty: &str, annotations: Vec<RawAnnotation>) -> RawField {
    RawField { name: name.to_string(), semantic_type: ty.to_string(), annotations }
}

fn raw_users() -> RawRecord {
    RawRecord {
        ident: "User".to_string(),
        annotations: vec![
            ann("table", Some("users"), None, 0),
            ann("id", Some("user_id"), None, 1),
            ann("insertable", None, None, 2),
        ],
        fields: vec![
            raw_field("user_id", "u32", vec![ann("column", Some("id"), None, 3)]),
            raw_field("first_name", "String", vec![]),
            raw_field("last_name", "String", vec![]),
            raw_field("email", "String", vec![ann("get_optional", None, Some("&str"), 4)]),
            raw_field(
                "last_login",
                "Option<NaiveDateTime>",
                vec![ann("default", None, None, 5), ann("set", None, None, 6)],
            ),
        ],
    }
}

fn users_model() -> ResolvedModel {
    validate(parse_table(&raw_users()).unwrap()).ok().unwrap()
}

fn names(fields: &Vec<&FieldDescriptor>) -> Vec<String> {
    fields.iter().map(|f| f.name.clone()).collect()
}

#[test]
fn users_descriptor_is_parsed_with_defaults() {
    let t = parse_table(&raw_users()).unwrap();
    assert_eq!(t.ident, "User");
    assert_eq!(t.table_name, "users");
    assert_eq!(t.insertable, Some("InsertUser".to_string()));
    assert!(!t.deletable);
    assert_eq!(t.fields.len(), 5);
    assert_eq!(t.fields[0].role, Role::Id);
    assert_eq!(t.fields[0].column_name, "id");
    assert_eq!(t.fields[1].role, Role::Regular);
    assert_eq!(t.fields[1].column_name, "first_name");
    assert_eq!(t.fields[4].role, Role::Default);
    assert_eq!(
        t.fields[3].accessors,
        vec![AccessorDirective {
            kind: AccessorKind::GetOptional,
            field: "email".to_string(),
            generated_name: "get_by_email".to_string(),
            argument_type: "&str".to_string(),
        }]
    );
    assert_eq!(
        t.fields[4].accessors,
        vec![AccessorDirective {
            kind: AccessorKind::SetField,
            field: "last_login".to_string(),
            generated_name: "set_last_login".to_string(),
            argument_type: "&Option<NaiveDateTime>".to_string(),
        }]
    );
}

#[test]
fn users_insert_type_leaves_out_id_and_default_fields() {
    let t = parse_table(&raw_users()).unwrap();
    assert_eq!(names(&insert_fields(&t)), vec!["first_name", "last_name", "email"]);
    assert_eq!(insert_name(&t), "InsertUser");
    assert_eq!(
        insert_type(&t),
        "pub struct InsertUser { pub first_name: String, pub last_name: String, pub email: String }"
    );
}

#[test]
fn users_has_one_optional_getter_and_one_setter() {
    let m = users_model();
    let text = impl_accessors(&m, Dialect::Postgres);
    assert_eq!(text.matches("pub async fn ").count(), 2);
    assert!(text.contains(
        "pub async fn get_by_email(db: &mut cherry::Connection, value: &str) -> Result<Option<Self>, cherry::error::Error> {"
    ));
    assert!(text.contains("pub async fn set_last_login(&mut self, db: &mut cherry::Connection, value: &Option<NaiveDateTime>) -> Result<Self, cherry::error::Error> {"));
    assert!(text.contains("\"UPDATE users SET last_login = $1 WHERE id = $2\""));
    assert!(text.starts_with("impl User {"));
    assert!(text.ends_with(" }"));
}

#[test]
fn insert_statement_per_dialect() {
    let m = users_model();
    assert_eq!(
        insert_sql(&m, Dialect::Postgres),
        "INSERT INTO users (first_name, last_name, email) VALUES ($1, $2, $3) RETURNING id"
    );
    assert_eq!(
        insert_sql(&m, Dialect::MySql),
        "INSERT INTO users (first_name, last_name, email) VALUES (?, ?, ?)"
    );
}

#[test]
fn insert_operation_recovers_the_id() {
    let m = users_model();
    let returning = insert_operation(&m, Dialect::Postgres);
    assert_eq!(
        returning,
        "impl InsertUser { pub async fn insert(self, db: &mut cherry::Connection) -> Result<u32, cherry::error::Error> { use cherry::sqlx::Arguments as OtherArguments; let mut arguments = cherry::types::Arguments::default(); arguments.add(self.first_name);  arguments.add(self.last_name);  arguments.add(self.email);  let row = db.fetch_one(\"INSERT INTO users (first_name, last_name, email) VALUES ($1, $2, $3) RETURNING id\", arguments).await?; cherry::sqlx::Row::try_get(&row, \"id\").map_err(cherry::error::Error::from) } }"
    );
    let follow_up = insert_operation(&m, Dialect::Sqlite);
    assert!(follow_up.contains("db.execute(\"INSERT INTO users (first_name, last_name, email) VALUES (?, ?, ?)\", arguments).await?;"));
    assert!(follow_up.contains("db.fetch_one(\"SELECT last_insert_rowid()\", Default::default())"));
    assert_eq!(
        impl_insert(&m, Dialect::Postgres),
        format!("{} {}", insert_type(&m.table), returning)
    );
}

#[test]
fn record_that_is_not_insertable_has_no_insert_artifact() {
    let mut raw = raw_users();
    raw.annotations.truncate(2);
    let m = validate(parse_table(&raw).unwrap()).ok().unwrap();
    assert_eq!(impl_insert(&m, Dialect::Postgres), "");
    assert_eq!(insert_name(&m.table), "InsertUser");
}

#[test]
fn insertable_takes_a_custom_name() {
    let mut raw = raw_users();
    raw.annotations[2] = ann("insertable", Some("CreateUser"), None, 2);
    let t = parse_table(&raw).unwrap();
    assert_eq!(insert_name(&t), "CreateUser");
}

#[test]
fn get_one_reports_not_found_on_no_row() {
    assert_eq!(
        rows_to_result(AccessorKind::GetOne),
        " match rows.first() { Some(row) => <Self as cherry::Schema>::from_row(row), None => Err(cherry::error::Error::NotFound) } }"
    );
    assert_eq!(
        rows_to_result(AccessorKind::GetOptional),
        " match rows.first() { Some(row) => Ok(Some(<Self as cherry::Schema>::from_row(row)?)), None => Ok(None) } }"
    );
    assert_eq!(
        rows_to_result(AccessorKind::GetMany),
        " rows.iter().map(<Self as cherry::Schema>::from_row).collect() }"
    );
}

#[test]
fn getter_text_is_exact() {
    let m = users_model();
    let d = m.table.fields[3].accessors[0].clone();
    assert_eq!(
        impl_accessor(&m, Dialect::MySql, 3, &d),
        "pub async fn get_by_email(db: &mut cherry::Connection, value: &str) -> Result<Option<Self>, cherry::error::Error> { use cherry::sqlx::Arguments as OtherArguments; let mut arguments = cherry::types::Arguments::default(); arguments.add(value);  let rows = db.fetch_all(\"SELECT id, first_name, last_name, email, last_login FROM users WHERE email = ?\", arguments).await?; match rows.first() { Some(row) => Ok(Some(<Self as cherry::Schema>::from_row(row)?)), None => Ok(None) } }"
    );
}

#[test]
fn statements_keyed_by_column() {
    let m = users_model();
    assert_eq!(
        select_sql(&m.table, Dialect::Postgres, "email"),
        "SELECT id, first_name, last_name, email, last_login FROM users WHERE email = $1"
    );
    assert_eq!(
        update_sql(&m, Dialect::Postgres, "email"),
        "UPDATE users SET email = $1 WHERE id = $2"
    );
    assert_eq!(delete_sql(&m, Dialect::Postgres), "DELETE FROM users WHERE id = $1");
    assert_eq!(m.id_index, 0);
    assert_eq!(m.id_field().name, "user_id");
}

#[test]
fn delete_only_where_deletable() {
    let m = users_model();
    assert_eq!(impl_delete(&m, Dialect::Postgres), "");
    let mut raw = raw_users();
    raw.annotations.push(ann("deletable", None, None, 9));
    let m = validate(parse_table(&raw).unwrap()).ok().unwrap();
    assert_eq!(
        impl_delete(&m, Dialect::Postgres),
        "impl User { pub async fn delete(self, db: &mut cherry::Connection) -> Result<(), cherry::error::Error> { use cherry::sqlx::Arguments as OtherArguments; let mut arguments = cherry::types::Arguments::default(); arguments.add(&self.user_id);  db.execute(\"DELETE FROM users WHERE id = $1\", arguments).await?; Ok(()) } }"
    );
}

#[test]
fn field_lookup_by_name() {
    let t = parse_table(&raw_users()).unwrap();
    assert_eq!(find_field(&t, &"email".to_string()), Some(3));
    assert_eq!(find_field(&t, &"phone".to_string()), None);
    assert!(has_field_named(&t, &"user_id".to_string()));
    assert!(!has_field_named(&t, &"id".to_string()));
}

#[test]
fn table_without_id_fails_validation() {
    let mut t = parse_table(&raw_users()).unwrap();
    t.fields[0].role = Role::Regular;
    assert_eq!(validate(t).err().unwrap(), vec![ModelError::MissingId]);
}

#[test]
fn table_without_fields_has_no_id() {
    let t = TableDescriptor {
        ident: "Nothing".to_string(),
        table_name: "nothing".to_string(),
        fields: Vec::new(),
        insertable: None,
        deletable: false,
    };
    assert_eq!(compile(t, Dialect::Postgres), Err(vec![ModelError::MissingId]));
}

#[test]
fn second_id_fails_validation() {
    let mut t = parse_table(&raw_users()).unwrap();
    t.fields[2].role = Role::Id;
    t.fields[4].role = Role::Id;
    assert_eq!(
        validate(t).err().unwrap(),
        vec![ModelError::DuplicateId { field: 2 }, ModelError::DuplicateId { field: 4 }]
    );
}

#[test]
fn custom_type_needs_a_storage_type() {
    let mut raw = raw_users();
    raw.fields[1].annotations.push(ann("custom_type", None, None, 7));
    let t = parse_table(&raw).unwrap();
    assert!(t.fields[1].custom_type);
    assert_eq!(
        compile(t, Dialect::Postgres),
        Err(vec![ModelError::MissingTypeOverride { field: 1 }])
    );
    raw.fields[1].annotations[0] = ann("custom_type", Some("Name"), None, 7);
    let text = derive_table(&raw, Dialect::Postgres).unwrap();
    assert!(text.contains(" first_name: row.try_get::<Name, _>(\"first_name\")?"));
}

#[test]
fn every_violation_is_reported_at_once() {
    let mut t = parse_table(&raw_users()).unwrap();
    t.fields[0].role = Role::Regular;
    t.fields[1].custom_type = true;
    let getter = AccessorDirective {
        kind: AccessorKind::GetMany,
        field: "phone".to_string(),
        generated_name: "by_phone".to_string(),
        argument_type: "&str".to_string(),
    };
    t.fields[3].accessors.push(getter);
    assert_eq!(
        validate(t).err().unwrap(),
        vec![
            ModelError::MissingTypeOverride { field: 1 },
            ModelError::DanglingAccessorReference { field: 3, accessor: 1 },
            ModelError::MissingId,
        ]
    );
}

#[test]
fn accessors_of_one_field_clash_wherever_they_are_written() {
    let mut t = parse_table(&raw_users()).unwrap();
    let getter = AccessorDirective {
        kind: AccessorKind::GetOne,
        field: "email".to_string(),
        generated_name: "one_by_email".to_string(),
        argument_type: "&str".to_string(),
    };
    let mut setter = getter.clone();
    setter.kind = AccessorKind::SetField;
    t.fields[1].accessors.push(getter.clone());
    t.fields[1].accessors.push(setter);
    t.fields[4].accessors.push(getter);
    assert_eq!(
        validate(t).err().unwrap(),
        vec![
            ModelError::DuplicateAccessorKind { field: 3, accessor: 0 },
            ModelError::DuplicateAccessorKind { field: 4, accessor: 1 },
        ]
    );
}

#[test]
fn getter_and_setter_on_one_field_do_not_clash() {
    let mut raw = raw_users();
    raw.fields[3].annotations.push(ann("set", Some("change_email"), None, 8));
    let t = parse_table(&raw).unwrap();
    assert_eq!(t.fields[3].accessors[1].generated_name, "change_email");
    assert!(validate(t).is_ok());
}

#[test]
fn two_getters_on_one_field_clash() {
    let mut raw = raw_users();
    raw.fields[3].annotations.push(ann("get_one", None, None, 8));
    assert_eq!(
        derive_table(&raw, Dialect::Postgres),
        Err(vec![ModelError::DuplicateAccessorKind { field: 3, accessor: 1 }])
    );
}

#[test]
fn unknown_and_malformed_annotations_are_all_reported() {
    let mut raw = raw_users();
    raw.annotations.push(ann("tabel", Some("x"), None, 10));
    raw.annotations.push(ann("deletable", Some("yes"), None, 11));
    raw.annotations.push(ann("column", Some("x"), None, 12));
    raw.fields[1].annotations.push(ann("column", None, None, 13));
    raw.fields[2].annotations.push(ann("table", Some("t"), None, 14));
    raw.fields[2].annotations.push(ann("set", None, Some("u8"), 15));
    assert_eq!(
        parse_table(&raw).err().unwrap(),
        vec![
            ModelError::UnknownAnnotationKey { location: 10 },
            ModelError::MalformedAnnotationValue { location: 11 },
            ModelError::UnknownAnnotationKey { location: 12 },
            ModelError::MalformedAnnotationValue { location: 13 },
            ModelError::UnknownAnnotationKey { location: 14 },
            ModelError::MalformedAnnotationValue { location: 15 },
        ]
    );
}

#[test]
fn table_name_is_required() {
    let mut raw = raw_users();
    raw.annotations.remove(0);
    assert_eq!(parse_table(&raw).err().unwrap(), vec![ModelError::MissingTableName]);
    raw.annotations.push(ann("table", None, None, 20));
    assert_eq!(
        parse_table(&raw).err().unwrap(),
        vec![ModelError::MalformedAnnotationValue { location: 20 }, ModelError::MissingTableName]
    );
}

#[test]
fn last_annotation_of_a_key_counts() {
    let mut raw = raw_users();
    raw.annotations.push(ann("table", Some("people"), None, 21));
    raw.fields[0].annotations.push(ann("column", Some("uid"), None, 22));
    let t = parse_table(&raw).unwrap();
    assert_eq!(t.table_name, "people");
    assert_eq!(t.fields[0].column_name, "uid");
}

#[test]
fn id_that_names_no_field_is_a_missing_id() {
    let mut raw = raw_users();
    raw.annotations[1] = ann("id", Some("uid"), None, 1);
    assert_eq!(derive_table(&raw, Dialect::Postgres), Err(vec![ModelError::MissingId]));
}

#[test]
fn vocabulary() {
    assert_eq!(classify(&"table".to_string()), Some(Key::Table));
    assert_eq!(classify(&"table_name".to_string()), Some(Key::TableName));
    assert_eq!(classify(&"id".to_string()), Some(Key::Id));
    assert_eq!(classify(&"insertable".to_string()), Some(Key::Insertable));
    assert_eq!(classify(&"deletable".to_string()), Some(Key::Deletable));
    assert_eq!(classify(&"column".to_string()), Some(Key::Column));
    assert_eq!(classify(&"default".to_string()), Some(Key::DefaultValue));
    assert_eq!(classify(&"custom_type".to_string()), Some(Key::CustomType));
    assert_eq!(classify(&"get_one".to_string()), Some(Key::GetOne));
    assert_eq!(classify(&"get_optional".to_string()), Some(Key::GetOptional));
    assert_eq!(classify(&"get_many".to_string()), Some(Key::GetMany));
    assert_eq!(classify(&"set".to_string()), Some(Key::SetField));
    assert_eq!(classify(&"Table".to_string()), None);
    assert_eq!(classify(&"".to_string()), None);
    assert_eq!(check_annotation(Place::Field, &ann("get_many", Some("all"), Some("u8"), 1)), Ok(Key::GetMany));
    assert_eq!(
        check_annotation(Place::Record, &ann("get_many", None, None, 1)),
        Err(ModelError::UnknownAnnotationKey { location: 1 })
    );
    assert_eq!(
        check_annotation(Place::Record, &ann("table_name", Some("t"), None, 2)),
        Err(ModelError::UnknownAnnotationKey { location: 2 })
    );
    assert_eq!(
        check_annotation(Place::PatchRecord, &ann("table_name", Some("t"), None, 2)),
        Ok(Key::TableName)
    );
    assert_eq!(
        check_annotation(Place::PatchField, &ann("default", None, None, 3)),
        Err(ModelError::UnknownAnnotationKey { location: 3 })
    );
}

#[test]
fn compiling_twice_gives_the_same_text() {
    let first = derive_table(&raw_users(), Dialect::Postgres).unwrap();
    let second = derive_table(&raw_users(), Dialect::Postgres).unwrap();
    assert_eq!(first, second);
    assert_eq!(first.as_bytes(), second.as_bytes());
}

#[test]
fn compiled_text_is_the_artifacts_in_order() {
    let m = users_model();
    let d = Dialect::Postgres;
    let expected = format!(
        "{} {} {} {}",
        ormx_macros::schema::impl_schema(&m.table, d),
        impl_insert(&m, d),
        impl_accessors(&m, d),
        impl_delete(&m, d)
    );
    assert_eq!(derive_table(&raw_users(), d).unwrap(), expected);
    assert_eq!(compile(m.table.clone(), d).unwrap(), expected);
}

#[test]
fn annotation_errors_and_violations_are_reported_together() {
    let mut raw = raw_users();
    raw.annotations.remove(1);
    raw.annotations.push(ann("tabel", Some("x"), None, 10));
    raw.fields[1].annotations.push(ann("custom_type", None, None, 11));
    raw.fields[2].annotations.push(ann("colum", Some("x"), None, 12));
    assert_eq!(
        derive_table(&raw, Dialect::Postgres),
        Err(vec![
            ModelError::UnknownAnnotationKey { location: 10 },
            ModelError::UnknownAnnotationKey { location: 12 },
            ModelError::MissingTypeOverride { field: 1 },
            ModelError::MissingId,
        ])
    );
}

#[test]
fn descriptor_is_read_from_the_annotations_that_can_be_taken() {
    let mut raw = raw_users();
    raw.annotations.push(ann("tabel", Some("x"), None, 10));
    let (table, errors) = read_table(&raw);
    assert_eq!(errors, vec![ModelError::UnknownAnnotationKey { location: 10 }]);
    assert_eq!(table, parse_table(&raw_users()).unwrap());
}
