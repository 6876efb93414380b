//! The insert emitter: the companion type of a record and the operation that
//! inserts a row from it.
use crate::builder::ResolvedModel;
use crate::dialect::Dialect;
use crate::model::{FieldDescriptor, FieldView, Role, TableDescriptor, TableView};
use crate::text::{escape, escaped, join, joined, views};
use vstd::prelude::*;

verus! {

/// The test that a field belongs to the insert companion: it is neither the
/// id nor produced by the database.
pub open spec fn insert_field() -> spec_fn(FieldView) -> bool {
    |f: FieldView| f.role != Role::Id && f.role != Role::Default
}

/// The fields of the insert companion, in declaration order.
pub open spec fn insert_fields_of(t: TableView) -> Seq<FieldView> {
    t.fields.filter(insert_field())
}

/// The views of borrowed fields.
pub open spec fn field_views(fields: Seq<&FieldDescriptor>) -> Seq<FieldView> {
    fields.map_values(|f: &FieldDescriptor| f@)
}

/// The name of the insert companion: the one configured, else `Insert`
/// followed by the record's name.
pub open spec fn insert_name_of(t: TableView) -> Seq<char> {
    match t.insertable {
        Some(n) => n,
        None => "Insert"@ + t.ident,
    }
}

/// One member of the companion type.
pub open spec fn member_item(f: FieldView) -> Seq<char> {
    " pub "@ + f.name + ": "@ + f.semantic_type
}

/// The declaration of the companion type.
pub open spec fn insert_type_text(t: TableView) -> Seq<char> {
    "pub struct "@ + insert_name_of(t) + " {"@ + joined(
        insert_fields_of(t).map_values(|f: FieldView| member_item(f)),
        ","@,
    ) + " }"@
}

/// The insert statement: the companion's columns, one placeholder each, and
/// the id handed back where the dialect can do so.
pub open spec fn insert_sql_text(t: TableView, d: Dialect, id: FieldView) -> Seq<char> {
    "INSERT INTO "@ + t.table_name + " ("@ + joined(
        insert_fields_of(t).map_values(|f: FieldView| f.column_name),
        ", "@,
    ) + ") VALUES ("@ + d.placeholders_text(insert_fields_of(t).len()) + ")"@ + (if d.returning() {
        " RETURNING "@ + id.column_name
    } else {
        Seq::<char>::empty()
    })
}

/// The statement that binds one member of the companion.
pub open spec fn member_bind(d: Dialect, f: FieldView) -> Seq<char> {
    d.bind_text("self."@ + f.name)
}

/// What follows the bind statements: the insert is run and the new id is read
/// from the row handed back, or by the dialect's follow-up query.
pub open spec fn insert_tail_text(t: TableView, d: Dialect, id: FieldView) -> Seq<char> {
    if d.returning() {
        " let row = db.fetch_one(\""@ + escaped(insert_sql_text(t, d, id))
            + "\", arguments).await?; cherry::sqlx::Row::try_get(&row, \""@ + escaped(id.column_name)
            + "\").map_err(cherry::error::Error::from) } }"@
    } else {
        " db.execute(\""@ + escaped(insert_sql_text(t, d, id))
            + "\", arguments).await?; let row = db.fetch_one(\""@ + d.last_id_text()
            + "\", Default::default()).await?; cherry::sqlx::Row::try_get(&row, 0).map_err(cherry::error::Error::from) } }"@
    }
}

/// The operation that inserts a row from the companion.
pub open spec fn insert_operation_text(t: TableView, d: Dialect, id: FieldView) -> Seq<char> {
    "impl "@ + insert_name_of(t) + " { pub async fn insert(self, db: &mut cherry::Connection) -> Result<"@
        + id.semantic_type
        + ", cherry::error::Error> { use cherry::sqlx::Arguments as OtherArguments; let mut arguments = cherry::types::Arguments::default();"@
        + joined(insert_fields_of(t).map_values(|f: FieldView| member_bind(d, f)), ""@)
        + insert_tail_text(t, d, id)
}

/// The whole insert artifact: nothing unless the record is insertable, else
/// the companion type and its operation.
pub open spec fn insert_text(t: TableView, d: Dialect, id: FieldView) -> Seq<char> {
    if t.insertable is Some {
        insert_type_text(t) + " "@ + insert_operation_text(t, d, id)
    } else {
        Seq::<char>::empty()
    }
}

/// The fields of the insert companion: every field but the id and those that
/// the database produces, in declaration order.
pub fn insert_fields<'a>(table: &'a TableDescriptor) -> (r: Vec<&'a FieldDescriptor>)
    ensures
        field_views(r@) == insert_fields_of(table@),
{
    let mut out: Vec<&'a FieldDescriptor> = Vec::new();
    let ghost t = table@;
    let mut i: usize = 0;
    proof {
        reveal_with_fuel(Seq::filter, 1);
        assert(field_views(out@) =~= t.fields.take(0).filter(insert_field()));
    }
    while i < table.fields.len()
        invariant
            i <= table.fields.len(),
            t == table@,
            field_views(out@) == t.fields.take(i as int).filter(insert_field()),
        decreases table.fields.len() - i,
    {
        let field = &table.fields[i];
        let ghost before = field_views(out@);
        let keep = match field.role {
            Role::Regular => true,
            _ => false,
        };
        if keep {
            out.push(field);
        }
        proof {
            reveal_with_fuel(Seq::filter, 1);
            let next = t.fields.take(i + 1);
            assert(next.drop_last() =~= t.fields.take(i as int));
            assert(next.last() == field@);
            assert(keep == insert_field()(field@));
            assert(field_views(out@) =~= if keep {
                before.push(field@)
            } else {
                before
            });
        }
        i += 1;
    }
    proof {
        assert(t.fields.take(i as int) =~= t.fields);
    }
    out
}

/// The name of the insert companion.
pub fn insert_name(table: &TableDescriptor) -> (r: String)
    ensures
        r@ == insert_name_of(table@),
{
    match &table.insertable {
        Some(n) => n.clone(),
        None => {
            let mut out = String::from_str("Insert");
            out.append(table.ident.as_str());
            out
        },
    }
}

/// Emits the declaration of the companion type.
pub fn insert_type(table: &TableDescriptor) -> (r: String)
    ensures
        r@ == insert_type_text(table@),
{
    let fields = insert_fields(table);
    let mut items: Vec<String> = Vec::new();
    let mut i: usize = 0;
    while i < fields.len()
        invariant
            i <= fields.len(),
            items@.len() == i,
            forall|k: int| 0 <= k < i ==> (#[trigger] items@[k])@ == member_item(fields@[k]@),
        decreases fields.len() - i,
    {
        let mut item = String::from_str(" pub ");
        item.append(fields[i].name.as_str());
        item.append(": ");
        item.append(fields[i].semantic_type.as_str());
        items.push(item);
        i += 1;
    }
    assert(views(items@) =~= field_views(fields@).map_values(|f: FieldView| member_item(f)));
    let mut out = String::from_str("pub struct ");
    out.append(insert_name(table).as_str());
    out.append(" {");
    out.append(join(&items, ",").as_str());
    out.append(" }");
    out
}

/// Emits the insert statement.
pub fn insert_sql(model: &ResolvedModel, dialect: Dialect) -> (r: String)
    requires
        model.wf(),
    ensures
        r@ == insert_sql_text(model.table@, dialect, model.table@.fields[model.id_index as int]),
{
    let fields = insert_fields(&model.table);
    let mut items: Vec<String> = Vec::new();
    let mut i: usize = 0;
    while i < fields.len()
        invariant
            i <= fields.len(),
            items@.len() == i,
            forall|k: int| 0 <= k < i ==> (#[trigger] items@[k])@ == fields@[k]@.column_name,
        decreases fields.len() - i,
    {
        items.push(fields[i].column_name.clone());
        i += 1;
    }
    assert(views(items@) =~= field_views(fields@).map_values(|f: FieldView| f.column_name));
    let mut out = String::from_str("INSERT INTO ");
    out.append(model.table.table_name.as_str());
    out.append(" (");
    out.append(join(&items, ", ").as_str());
    out.append(") VALUES (");
    out.append(dialect.placeholders(fields.len()).as_str());
    out.append(")");
    if dialect.supports_returning() {
        let mut tail = String::from_str(" RETURNING ");
        tail.append(model.id_field().column_name.as_str());
        out.append(tail.as_str());
    } else {
        assert(out@ + Seq::<char>::empty() =~= out@);
    }
    out
}

/// Emits the operation that inserts a row from the companion.
pub fn insert_operation(model: &ResolvedModel, dialect: Dialect) -> (r: String)
    requires
        model.wf(),
    ensures
        r@ == insert_operation_text(
            model.table@,
            dialect,
            model.table@.fields[model.id_index as int],
        ),
{
    let fields = insert_fields(&model.table);
    let mut items: Vec<String> = Vec::new();
    let mut i: usize = 0;
    while i < fields.len()
        invariant
            i <= fields.len(),
            items@.len() == i,
            forall|k: int| 0 <= k < i ==> (#[trigger] items@[k])@ == member_bind(dialect, fields@[k]@),
        decreases fields.len() - i,
    {
        let mut value = String::from_str("self.");
        value.append(fields[i].name.as_str());
        items.push(dialect.bind_call(value.as_str()));
        i += 1;
    }
    assert(views(items@) =~= field_views(fields@).map_values(
        |f: FieldView| member_bind(dialect, f),
    ));
    let id = model.id_field();
    let sql = insert_sql(model, dialect);
    let mut tail: String;
    if dialect.supports_returning() {
        tail = String::from_str(" let row = db.fetch_one(\"");
        tail.append(escape(sql.as_str()).as_str());
        tail.append("\", arguments).await?; cherry::sqlx::Row::try_get(&row, \"");
        tail.append(escape(id.column_name.as_str()).as_str());
        tail.append("\").map_err(cherry::error::Error::from) } }");
    } else {
        tail = String::from_str(" db.execute(\"");
        tail.append(escape(sql.as_str()).as_str());
        tail.append("\", arguments).await?; let row = db.fetch_one(\"");
        tail.append(dialect.last_id_query().as_str());
        tail.append(
            "\", Default::default()).await?; cherry::sqlx::Row::try_get(&row, 0).map_err(cherry::error::Error::from) } }",
        );
    }
    let mut out = String::from_str("impl ");
    out.append(insert_name(&model.table).as_str());
    out.append(" { pub async fn insert(self, db: &mut cherry::Connection) -> Result<");
    out.append(id.semantic_type.as_str());
    out.append(
        ", cherry::error::Error> { use cherry::sqlx::Arguments as OtherArguments; let mut arguments = cherry::types::Arguments::default();",
    );
    out.append(join(&items, "").as_str());
    out.append(tail.as_str());
    out
}

/// Emits the insert artifact of a record; it is empty unless the record is
/// insertable.
pub fn impl_insert(model: &ResolvedModel, dialect: Dialect) -> (r: String)
    requires
        model.wf(),
    ensures
        r@ == insert_text(model.table@, dialect, model.table@.fields[model.id_index as int]),
{
    if model.table.insertable.is_some() {
        let mut out = insert_type(&model.table);
        out.append(" ");
        out.append(insert_operation(model, dialect).as_str());
        out
    } else {
        String::new()
    }
}

} // verus!
