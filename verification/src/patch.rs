//! The patch emitter: applies every field of a partial record to the row
//! with a given id, in one statement.
use crate::builder::ModelError;
use crate::dialect::Dialect;
use crate::parse::{
    annotation_errors, collect_errors, collect_field_errors, field_annotation_errors, find_last,
    found_value, last_of, value_or, Key, Place, RawRecord, RawRecordView,
};
use crate::text::{escape, escaped, join, joined, views};
use vstd::prelude::*;

verus! {

/// One field of a patch type.
#[derive(Clone, Debug, PartialEq, Eq)]
pub struct PatchField {
    pub name: String,
    pub column_name: String,
}

pub struct PatchFieldView {
    pub name: Seq<char>,
    pub column_name: Seq<char>,
}

impl View for PatchField {
    type V = PatchFieldView;

    open spec fn view(&self) -> PatchFieldView {
        PatchFieldView { name: self.name@, column_name: self.column_name@ }
    }
}

/// A type that holds a subset of a record's fields.
#[derive(Clone, Debug, PartialEq, Eq)]
pub struct PatchDescriptor {
    /// The name of the patch type.
    pub ident: String,
    pub table_name: String,
    /// The column that identifies a row, and the type of its values.
    pub id_column: String,
    pub id_type: String,
    pub fields: Vec<PatchField>,
}

pub struct PatchView {
    pub ident: Seq<char>,
    pub table_name: Seq<char>,
    pub id_column: Seq<char>,
    pub id_type: Seq<char>,
    pub fields: Seq<PatchFieldView>,
}

impl View for PatchDescriptor {
    type V = PatchView;

    open spec fn view(&self) -> PatchView {
        PatchView {
            ident: self.ident@,
            table_name: self.table_name@,
            id_column: self.id_column@,
            id_type: self.id_type@,
            fields: self.fields@.map_values(|f: PatchField| f@),
        }
    }
}

/// Every reason why the annotations of a patch type cannot be taken: those
/// on the type, then those on its fields in declaration order, then what is
/// missing of the table's name, the record type and the id column.
pub open spec fn patch_parse_errors(r: RawRecordView) -> Seq<ModelError> {
    let n = r.annotations.len();
    annotation_errors(Place::PatchRecord, r.annotations, n) + field_annotation_errors(
        Place::PatchField,
        r,
        r.fields.len(),
    ) + (if last_of(Place::PatchRecord, r.annotations, Key::TableName, n) is Some {
        Seq::<ModelError>::empty()
    } else {
        seq![ModelError::MissingTableName]
    }) + (if last_of(Place::PatchRecord, r.annotations, Key::Table, n) is Some {
        Seq::<ModelError>::empty()
    } else {
        seq![ModelError::MissingRecordType]
    }) + (if last_of(Place::PatchRecord, r.annotations, Key::Id, n) is Some {
        Seq::<ModelError>::empty()
    } else {
        seq![ModelError::MissingId]
    })
}

/// The field of a patch type at position `i`: its column is its name unless
/// an annotation overrides it.
pub open spec fn patch_field_of(r: RawRecordView, i: int) -> PatchFieldView {
    let f = r.fields[i];
    PatchFieldView {
        name: f.name,
        column_name: value_or(
            last_of(Place::PatchField, f.annotations, Key::Column, f.annotations.len()),
            f.name,
        ),
    }
}

/// The type of the id of a record type.
pub open spec fn id_type_of(record: Seq<char>) -> Seq<char> {
    "<"@ + record + " as ormx::Table>::Id"@
}

/// The patch that the annotations of a patch type describe. Of several
/// annotations with one key the last counts; the id is of the type that the
/// record type gives it.
pub open spec fn patch_of(r: RawRecordView) -> PatchView {
    let n = r.annotations.len();
    PatchView {
        ident: r.ident,
        table_name: value_or(last_of(Place::PatchRecord, r.annotations, Key::TableName, n), r.ident),
        id_column: value_or(last_of(Place::PatchRecord, r.annotations, Key::Id, n), r.ident),
        id_type: id_type_of(
            value_or(last_of(Place::PatchRecord, r.annotations, Key::Table, n), r.ident),
        ),
        fields: Seq::new(r.fields.len(), |i: int| patch_field_of(r, i)),
    }
}

/// The value of the annotation at a found position, or a fallback.
fn value_or_else(raw: &RawRecord, found: Option<usize>, fallback: &String) -> (r: String)
    requires
        found is Some ==> found->Some_0 < raw.annotations@.len(),
    ensures
        r@ == (match found {
            Some(p) => match raw.annotations@[p as int]@.value {
                Some(v) => v,
                None => fallback@,
            },
            None => fallback@,
        }),
{
    match found_value(&raw.annotations, found) {
        Some(v) => v,
        None => fallback.clone(),
    }
}

/// Builds a patch from the annotations of a patch type and of its fields. The
/// patch comes back exactly when every annotation can be taken and nothing
/// is missing; otherwise every reason, in the order of
/// [`patch_parse_errors`].
pub fn parse_patch(raw: &RawRecord) -> (r: Result<PatchDescriptor, Vec<ModelError>>)
    ensures
        r is Ok <==> patch_parse_errors(raw@).len() == 0,
        r is Ok ==> r->Ok_0@ == patch_of(raw@),
        r is Err ==> r->Err_0@ == patch_parse_errors(raw@),
{
    let ghost rv = raw@;
    let mut errors: Vec<ModelError> = Vec::new();
    collect_errors(Place::PatchRecord, &raw.annotations, &mut errors);
    collect_field_errors(Place::PatchField, raw, &mut errors);
    let name_at = find_last(Place::PatchRecord, &raw.annotations, Key::TableName);
    let record_at = find_last(Place::PatchRecord, &raw.annotations, Key::Table);
    let id_at = find_last(Place::PatchRecord, &raw.annotations, Key::Id);
    if name_at.is_none() {
        errors.push(ModelError::MissingTableName);
    }
    if record_at.is_none() {
        errors.push(ModelError::MissingRecordType);
    }
    if id_at.is_none() {
        errors.push(ModelError::MissingId);
    }
    assert(errors@ =~= patch_parse_errors(rv));
    if errors.len() > 0 {
        return Err(errors);
    }
    let mut fields: Vec<PatchField> = Vec::new();
    let mut k: usize = 0;
    while k < raw.fields.len()
        invariant
            k <= raw.fields.len(),
            rv == raw@,
            fields@.len() == k,
            forall|m: int| 0 <= m < k ==> (#[trigger] fields@[m])@ == patch_field_of(rv, m),
        decreases raw.fields.len() - k,
    {
        let field = &raw.fields[k];
        assert(rv.fields[k as int] == field@);
        let column = find_last(Place::PatchField, &field.annotations, Key::Column);
        let column_name = match found_value(&field.annotations, column) {
            Some(v) => v,
            None => field.name.clone(),
        };
        fields.push(PatchField { name: field.name.clone(), column_name });
        k += 1;
    }
    let mut id_type = String::from_str("<");
    id_type.append(value_or_else(raw, record_at, &raw.ident).as_str());
    id_type.append(" as ormx::Table>::Id");
    let patch = PatchDescriptor {
        ident: raw.ident.clone(),
        table_name: value_or_else(raw, name_at, &raw.ident),
        id_column: value_or_else(raw, id_at, &raw.ident),
        id_type,
        fields,
    };
    assert(patch@.fields =~= patch_of(rv).fields);
    assert(patch@ == patch_of(rv));
    Ok(patch)
}

/// The assignment of the field at position `i`: its column and the
/// placeholder of position `i + 1`.
pub open spec fn assignment_text(p: PatchView, d: Dialect, i: int) -> Seq<char> {
    p.fields[i].column_name + " = "@ + d.placeholder_text((i + 1) as nat)
}

/// The statement that applies every field of the patch to the row with a
/// given id; the id takes the placeholder after those of the fields.
pub open spec fn patch_sql_text(p: PatchView, d: Dialect) -> Seq<char> {
    "UPDATE "@ + p.table_name + " SET "@ + joined(
        Seq::new(p.fields.len(), |i: int| assignment_text(p, d, i)),
        ", "@,
    ) + " WHERE "@ + p.id_column + " = "@ + d.placeholder_text(p.fields.len() + 1)
}

/// The statement that binds one field of the patch.
pub open spec fn patch_bind(d: Dialect, f: PatchFieldView) -> Seq<char> {
    d.bind_text("&self."@ + f.name)
}

/// The patch operation.
pub open spec fn patch_text(p: PatchView, d: Dialect) -> Seq<char> {
    "impl "@ + p.ident + " { pub async fn patch(&self, db: &mut cherry::Connection, id: "@
        + p.id_type
        + ") -> Result<(), cherry::error::Error> { use cherry::sqlx::Arguments as OtherArguments; let mut arguments = cherry::types::Arguments::default();"@
        + joined(p.fields.map_values(|f: PatchFieldView| patch_bind(d, f)), ""@) + d.bind_text(
        "id"@,
    ) + " db.execute(\""@ + escaped(patch_sql_text(p, d)) + "\", arguments).await?; Ok(()) } }"@
}

/// Emits the statement that applies a patch.
pub fn patch_sql(patch: &PatchDescriptor, dialect: Dialect) -> (r: String)
    requires
        patch.fields.len() < usize::MAX,
    ensures
        r@ == patch_sql_text(patch@, dialect),
{
    let ghost p = patch@;
    let mut items: Vec<String> = Vec::new();
    let mut i: usize = 0;
    while i < patch.fields.len()
        invariant
            i <= patch.fields.len(),
            p == patch@,
            items@.len() == i,
            forall|k: int| 0 <= k < i ==> (#[trigger] items@[k])@ == assignment_text(p, dialect, k),
        decreases patch.fields.len() - i,
    {
        assert(p.fields[i as int] == patch.fields@[i as int]@);
        let mut item = patch.fields[i].column_name.clone();
        item.append(" = ");
        item.append(dialect.placeholder(i + 1).as_str());
        items.push(item);
        i += 1;
    }
    assert(views(items@) =~= Seq::new(p.fields.len(), |i: int| assignment_text(p, dialect, i)));
    let mut out = String::from_str("UPDATE ");
    out.append(patch.table_name.as_str());
    out.append(" SET ");
    out.append(join(&items, ", ").as_str());
    out.append(" WHERE ");
    out.append(patch.id_column.as_str());
    out.append(" = ");
    out.append(dialect.placeholder(patch.fields.len() + 1).as_str());
    out
}

/// Emits the patch operation of a patch type.
pub fn derive_patch(patch: &PatchDescriptor, dialect: Dialect) -> (r: String)
    requires
        patch.fields.len() < usize::MAX,
    ensures
        r@ == patch_text(patch@, dialect),
{
    let mut items: Vec<String> = Vec::new();
    let mut i: usize = 0;
    while i < patch.fields.len()
        invariant
            i <= patch.fields.len(),
            items@.len() == i,
            forall|k: int|
                0 <= k < i ==> (#[trigger] items@[k])@ == patch_bind(dialect, patch.fields@[k]@),
        decreases patch.fields.len() - i,
    {
        let mut value = String::from_str("&self.");
        value.append(patch.fields[i].name.as_str());
        items.push(dialect.bind_call(value.as_str()));
        i += 1;
    }
    assert(views(items@) =~= patch@.fields.map_values(|f: PatchFieldView| patch_bind(dialect, f)));
    let mut out = String::from_str("impl ");
    out.append(patch.ident.as_str());
    out.append(" { pub async fn patch(&self, db: &mut cherry::Connection, id: ");
    out.append(patch.id_type.as_str());
    out.append(
        ") -> Result<(), cherry::error::Error> { use cherry::sqlx::Arguments as OtherArguments; let mut arguments = cherry::types::Arguments::default();",
    );
    out.append(join(&items, "").as_str());
    out.append(dialect.bind_call("id").as_str());
    out.append(" db.execute(\"");
    out.append(escape(patch_sql(patch, dialect).as_str()).as_str());
    out.append("\", arguments).await?; Ok(()) } }");
    out
}

} // verus!
