//! The descriptor parser: turns the annotations of a record and of its fields
//! into a descriptor, or reports every annotation that it cannot take.
use crate::builder::ModelError;
use crate::model::{
    AccessorDirective, AccessorKind, AccessorView, FieldDescriptor, FieldView, Role,
    TableDescriptor, TableView,
};
use vstd::prelude::*;

verus! {

/// One annotation as written: `key`, `key = value`, `key(argument)` or
/// `key(argument) = value`, with the position it was written at.
#[derive(Clone, Debug, PartialEq, Eq)]
pub struct RawAnnotation {
    pub key: String,
    pub value: Option<String>,
    pub argument: Option<String>,
    pub location: usize,
}

pub struct AnnotationView {
    pub key: Seq<char>,
    pub value: Option<Seq<char>>,
    pub argument: Option<Seq<char>>,
    pub location: usize,
}

/// The view of an optional string.
pub open spec fn opt(o: Option<String>) -> Option<Seq<char>> {
    match o {
        Some(s) => Some(s@),
        None => None,
    }
}

impl View for RawAnnotation {
    type V = AnnotationView;

    open spec fn view(&self) -> AnnotationView {
        AnnotationView {
            key: self.key@,
            value: opt(self.value),
            argument: opt(self.argument),
            location: self.location,
        }
    }
}

/// The views of a vector of annotations.
pub open spec fn annotation_views(v: Seq<RawAnnotation>) -> Seq<AnnotationView> {
    v.map_values(|a: RawAnnotation| a@)
}

/// One field of a record as written.
#[derive(Clone, Debug, PartialEq, Eq)]
pub struct RawField {
    pub name: String,
    pub semantic_type: String,
    pub annotations: Vec<RawAnnotation>,
}

pub struct RawFieldView {
    pub name: Seq<char>,
    pub semantic_type: Seq<char>,
    pub annotations: Seq<AnnotationView>,
}

impl View for RawField {
    type V = RawFieldView;

    open spec fn view(&self) -> RawFieldView {
        RawFieldView {
            name: self.name@,
            semantic_type: self.semantic_type@,
            annotations: annotation_views(self.annotations@),
        }
    }
}

/// A record as written.
#[derive(Clone, Debug, PartialEq, Eq)]
pub struct RawRecord {
    pub ident: String,
    pub annotations: Vec<RawAnnotation>,
    pub fields: Vec<RawField>,
}

pub struct RawRecordView {
    pub ident: Seq<char>,
    pub annotations: Seq<AnnotationView>,
    pub fields: Seq<RawFieldView>,
}

impl View for RawRecord {
    type V = RawRecordView;

    open spec fn view(&self) -> RawRecordView {
        RawRecordView {
            ident: self.ident@,
            annotations: annotation_views(self.annotations@),
            fields: self.fields@.map_values(|f: RawField| f@),
        }
    }
}

/// Where an annotation is written: on a record or on one of its fields, on a
/// patch type or on one of its fields.
#[derive(Clone, Copy, Debug, PartialEq, Eq, Structural)]
pub enum Place {
    Record,
    Field,
    PatchRecord,
    PatchField,
}

/// The vocabulary of annotation keys.
#[derive(Clone, Copy, Debug, PartialEq, Eq, Structural)]
pub enum Key {
    TableName,
    Table,
    Id,
    Insertable,
    Deletable,
    Column,
    DefaultValue,
    CustomType,
    GetOne,
    GetOptional,
    GetMany,
    SetField,
}

impl Key {
    /// Whether the key belongs to the vocabulary of a place. A patch type
    /// names its table, its record type and the id column; a field of it
    /// only its column.
    pub open spec fn allowed(self, place: Place) -> bool {
        match place {
            Place::Record => self == Key::Table || self == Key::Id || self == Key::Insertable
                || self == Key::Deletable,
            Place::Field => self == Key::Column || self == Key::DefaultValue || self
                == Key::CustomType || self.accessor() is Some,
            Place::PatchRecord => self == Key::TableName || self == Key::Table || self == Key::Id,
            Place::PatchField => self == Key::Column,
        }
    }

    /// The accessor that the key asks for, if it asks for one.
    pub open spec fn accessor(self) -> Option<AccessorKind> {
        match self {
            Key::GetOne => Some(AccessorKind::GetOne),
            Key::GetOptional => Some(AccessorKind::GetOptional),
            Key::GetMany => Some(AccessorKind::GetMany),
            Key::SetField => Some(AccessorKind::SetField),
            _ => None,
        }
    }

    /// Whether an annotation has the shape that the key admits: a name and a
    /// column need a value, a marker takes none, and only a getter takes an
    /// argument.
    pub open spec fn admits(self, a: AnnotationView) -> bool {
        match self {
            Key::TableName | Key::Table | Key::Id | Key::Column => a.value is Some
                && a.argument is None,
            Key::Deletable | Key::DefaultValue => a.value is None && a.argument is None,
            Key::Insertable | Key::CustomType | Key::SetField => a.argument is None,
            Key::GetOne | Key::GetOptional | Key::GetMany => true,
        }
    }
}

/// The key that a word stands for.
pub open spec fn key_of(word: Seq<char>) -> Option<Key> {
    if word == "table_name"@ {
        Some(Key::TableName)
    } else if word == "table"@ {
        Some(Key::Table)
    } else if word == "id"@ {
        Some(Key::Id)
    } else if word == "insertable"@ {
        Some(Key::Insertable)
    } else if word == "deletable"@ {
        Some(Key::Deletable)
    } else if word == "column"@ {
        Some(Key::Column)
    } else if word == "default"@ {
        Some(Key::DefaultValue)
    } else if word == "custom_type"@ {
        Some(Key::CustomType)
    } else if word == "get_one"@ {
        Some(Key::GetOne)
    } else if word == "get_optional"@ {
        Some(Key::GetOptional)
    } else if word == "get_many"@ {
        Some(Key::GetMany)
    } else if word == "set"@ {
        Some(Key::SetField)
    } else {
        None
    }
}

/// The key of an annotation written at a place, or the reason why it cannot be taken: its key is not in the
/// vocabulary of that place, or its shape is not what the key admits.
pub open spec fn checked(place: Place, a: AnnotationView) -> Result<Key, ModelError> {
    match key_of(a.key) {
        None => Err(ModelError::UnknownAnnotationKey { location: a.location }),
        Some(k) => if !k.allowed(place) {
            Err(ModelError::UnknownAnnotationKey { location: a.location })
        } else if !k.admits(a) {
            Err(ModelError::MalformedAnnotationValue { location: a.location })
        } else {
            Ok(k)
        },
    }
}

/// The reasons why annotations among the first `n` cannot be taken, in order.
pub open spec fn annotation_errors(place: Place, anns: Seq<AnnotationView>, n: nat) -> Seq<
    ModelError,
>
    decreases n,
{
    if n == 0 {
        Seq::empty()
    } else {
        annotation_errors(place, anns, (n - 1) as nat) + (match checked(place, anns[n - 1]) {
            Err(e) => seq![e],
            Ok(_) => Seq::<ModelError>::empty(),
        })
    }
}

/// The reasons why annotations of the first `n` fields cannot be taken.
pub open spec fn field_annotation_errors(place: Place, r: RawRecordView, n: nat) -> Seq<
    ModelError,
>
    decreases n,
{
    if n == 0 {
        Seq::empty()
    } else {
        field_annotation_errors(place, r, (n - 1) as nat) + annotation_errors(
            place,
            r.fields[n - 1].annotations,
            r.fields[n - 1].annotations.len(),
        )
    }
}

/// Every reason why a record's annotations cannot be taken: those on the
/// record, then those on its fields in declaration order, then the missing
/// table name, if no annotation that is taken gives one.
pub open spec fn parse_errors(r: RawRecordView) -> Seq<ModelError> {
    annotation_errors(Place::Record, r.annotations, r.annotations.len())
        + field_annotation_errors(Place::Field, r, r.fields.len()) + (if last_of(Place::Record, r.annotations, Key::Table, r.annotations.len()) is Some {
        Seq::<ModelError>::empty()
    } else {
        seq![ModelError::MissingTableName]
    })
}

/// The last of the first `n` annotations that is taken with this key.
pub open spec fn last_of(place: Place, anns: Seq<AnnotationView>, key: Key, n: nat) -> Option<
    AnnotationView,
>
    decreases n,
{
    if n == 0 {
        None
    } else if checked(place, anns[n - 1]) == Ok::<Key, ModelError>(key) {
        Some(anns[n - 1])
    } else {
        last_of(place, anns, key, (n - 1) as nat)
    }
}

/// The value of an annotation, or a fallback where there is no annotation or
/// it has no value.
pub open spec fn value_or(a: Option<AnnotationView>, fallback: Seq<char>) -> Seq<char> {
    match a {
        Some(a) => match a.value {
            Some(v) => v,
            None => fallback,
        },
        None => fallback,
    }
}

/// The value of an annotation, if there is one and it has one.
pub open spec fn value_of(a: Option<AnnotationView>) -> Option<Seq<char>> {
    match a {
        Some(a) => a.value,
        None => None,
    }
}

/// The name that an accessor gets unless the annotation gives one.
pub open spec fn default_accessor_name(kind: AccessorKind, field: Seq<char>) -> Seq<char> {
    if kind.is_getter() {
        "get_by_"@ + field
    } else {
        "set_"@ + field
    }
}

/// The directive that an accessor annotation on a field asks for: named by the
/// annotation's value, else by the derived name; taking the annotation's
/// argument, else a reference to the field's type.
pub open spec fn directive_of(f: RawFieldView, kind: AccessorKind, a: AnnotationView) -> AccessorView {
    AccessorView {
        kind,
        field: f.name,
        generated_name: match a.value {
            Some(v) => v,
            None => default_accessor_name(kind, f.name),
        },
        argument_type: match a.argument {
            Some(t) => t,
            None => "&"@ + f.semantic_type,
        },
    }
}

/// The directives of the first `n` annotations of a field, in order.
pub open spec fn directives(f: RawFieldView, n: nat) -> Seq<AccessorView>
    decreases n,
{
    if n == 0 {
        Seq::empty()
    } else {
        directives(f, (n - 1) as nat) + (match checked(Place::Field, f.annotations[n - 1]) {
            Ok(k) => match k.accessor() {
                Some(kind) => seq![directive_of(f, kind, f.annotations[n - 1])],
                None => Seq::<AccessorView>::empty(),
            },
            Err(_) => Seq::<AccessorView>::empty(),
        })
    }
}

/// The name of the id field that the record's annotations give.
pub open spec fn id_name_of(r: RawRecordView) -> Option<Seq<char>> {
    value_of(last_of(Place::Record, r.annotations, Key::Id, r.annotations.len()))
}

/// The descriptor of the field at position `i`. Its column is its name unless
/// an annotation overrides it; it is the id where the record names it so, else
/// database-produced where marked so.
pub open spec fn field_of(r: RawRecordView, i: int) -> FieldView {
    let f = r.fields[i];
    let n = f.annotations.len();
    let custom = last_of(Place::Field, f.annotations, Key::CustomType, n);
    FieldView {
        name: f.name,
        semantic_type: f.semantic_type,
        column_name: value_or(last_of(Place::Field, f.annotations, Key::Column, n), f.name),
        role: if id_name_of(r) == Some(f.name) {
            Role::Id
        } else if last_of(Place::Field, f.annotations, Key::DefaultValue, n) is Some {
            Role::Default
        } else {
            Role::Regular
        },
        custom_type: custom is Some,
        type_override: value_of(custom),
        accessors: directives(f, n),
    }
}

/// The descriptor that a record's annotations describe. Of several
/// annotations with one key the last counts.
pub open spec fn table_of(r: RawRecordView) -> TableView {
    let n = r.annotations.len();
    let insertable = last_of(Place::Record, r.annotations, Key::Insertable, n);
    TableView {
        ident: r.ident,
        table_name: value_or(last_of(Place::Record, r.annotations, Key::Table, n), r.ident),
        fields: Seq::new(r.fields.len(), |i: int| field_of(r, i)),
        insertable: if insertable is Some {
            Some(value_or(insertable, "Insert"@ + r.ident))
        } else {
            None
        },
        deletable: last_of(Place::Record, r.annotations, Key::Deletable, n) is Some,
    }
}

/// Whether a string consists of the characters of a word.
fn is_word(s: &String, word: &str) -> (r: bool)
    ensures
        r == (s@ == word@),
{
    let w = String::from_str(word);
    *s == w
}

/// Finds the key that a word stands for.
pub fn classify(word: &String) -> (r: Option<Key>)
    ensures
        r == key_of(word@),
{
    if is_word(word, "table_name") {
        Some(Key::TableName)
    } else if is_word(word, "table") {
        Some(Key::Table)
    } else if is_word(word, "id") {
        Some(Key::Id)
    } else if is_word(word, "insertable") {
        Some(Key::Insertable)
    } else if is_word(word, "deletable") {
        Some(Key::Deletable)
    } else if is_word(word, "column") {
        Some(Key::Column)
    } else if is_word(word, "default") {
        Some(Key::DefaultValue)
    } else if is_word(word, "custom_type") {
        Some(Key::CustomType)
    } else if is_word(word, "get_one") {
        Some(Key::GetOne)
    } else if is_word(word, "get_optional") {
        Some(Key::GetOptional)
    } else if is_word(word, "get_many") {
        Some(Key::GetMany)
    } else if is_word(word, "set") {
        Some(Key::SetField)
    } else {
        None
    }
}

/// Checks one annotation written on the record or on a field.
pub fn check_annotation(place: Place, a: &RawAnnotation) -> (r: Result<Key, ModelError>)
    ensures
        r == checked(place, a@),
{
    match classify(&a.key) {
        None => Err(ModelError::UnknownAnnotationKey { location: a.location }),
        Some(k) => {
            let allowed = match place {
                Place::Record => match k {
                    Key::Table | Key::Id | Key::Insertable | Key::Deletable => true,
                    _ => false,
                },
                Place::Field => match k {
                    Key::Column | Key::DefaultValue | Key::CustomType | Key::GetOne
                    | Key::GetOptional | Key::GetMany | Key::SetField => true,
                    _ => false,
                },
                Place::PatchRecord => match k {
                    Key::TableName | Key::Table | Key::Id => true,
                    _ => false,
                },
                Place::PatchField => match k {
                    Key::Column => true,
                    _ => false,
                },
            };
            let admitted = match k {
                Key::TableName | Key::Table | Key::Id | Key::Column => a.value.is_some()
                    && a.argument.is_none(),
                Key::Deletable | Key::DefaultValue => a.value.is_none() && a.argument.is_none(),
                Key::Insertable | Key::CustomType | Key::SetField => a.argument.is_none(),
                Key::GetOne | Key::GetOptional | Key::GetMany => true,
            };
            if !allowed {
                Err(ModelError::UnknownAnnotationKey { location: a.location })
            } else if !admitted {
                Err(ModelError::MalformedAnnotationValue { location: a.location })
            } else {
                Ok(k)
            }
        },
    }
}

/// Appends the reason for every annotation that cannot be taken.
pub(crate) fn collect_errors(place: Place, anns: &Vec<RawAnnotation>, errors: &mut Vec<ModelError>)
    ensures
        final(errors)@ == old(errors)@ + annotation_errors(
            place,
            annotation_views(anns@),
            anns@.len(),
        ),
{
    let ghost before = errors@;
    let ghost views = annotation_views(anns@);
    let mut j: usize = 0;
    while j < anns.len()
        invariant
            j <= anns.len(),
            views == annotation_views(anns@),
            errors@ == before + annotation_errors(place, views, j as nat),
        decreases anns.len() - j,
    {
        assert(views[j as int] == anns@[j as int]@);
        match check_annotation(place, &anns[j]) {
            Err(e) => {
                errors.push(e);
            },
            Ok(_) => {},
        }
        proof {
            assert(errors@ =~= before + annotation_errors(place, views, (j + 1) as nat));
        }
        j += 1;
    }
}

/// Finds the last annotation that is taken with a key.
pub(crate) fn find_last(place: Place, anns: &Vec<RawAnnotation>, key: Key) -> (r: Option<usize>)
    ensures
        match r {
            Some(p) => p < anns@.len() && checked(place, anns@[p as int]@) == Ok::<
                Key,
                ModelError,
            >(key) && last_of(place, annotation_views(anns@), key, anns@.len()) == Some(
                anns@[p as int]@,
            ),
            None => last_of(place, annotation_views(anns@), key, anns@.len()) is None,
        },
{
    let ghost views = annotation_views(anns@);
    let mut found: Option<usize> = None;
    let mut j: usize = 0;
    while j < anns.len()
        invariant
            j <= anns.len(),
            views == annotation_views(anns@),
            match found {
                Some(p) => p < j && checked(place, anns@[p as int]@) == Ok::<Key, ModelError>(
                    key,
                ) && last_of(place, views, key, j as nat) == Some(anns@[p as int]@),
                None => last_of(place, views, key, j as nat) is None,
            },
        decreases anns.len() - j,
    {
        assert(views[j as int] == anns@[j as int]@);
        match check_annotation(place, &anns[j]) {
            Ok(k) => {
                if k == key {
                    found = Some(j);
                }
            },
            Err(_) => {},
        }
        j += 1;
    }
    found
}

/// The value of the annotation at a found position, if it has one.
pub(crate) fn found_value(anns: &Vec<RawAnnotation>, found: Option<usize>) -> (r: Option<String>)
    requires
        found is Some ==> found->Some_0 < anns@.len(),
    ensures
        opt(r) == (match found {
            Some(p) => anns@[p as int]@.value,
            None => None,
        }),
{
    match found {
        Some(p) => match &anns[p].value {
            Some(v) => Some(v.clone()),
            None => None,
        },
        None => None,
    }
}

/// Builds the directives that the annotations of a field ask for.
fn parse_accessors(field: &RawField) -> (r: Vec<AccessorDirective>)
    ensures
        r@.map_values(|a: AccessorDirective| a@) == directives(field@, field@.annotations.len()),
{
    let ghost f = field@;
    let mut out: Vec<AccessorDirective> = Vec::new();
    let mut j: usize = 0;
    assert(out@.map_values(|a: AccessorDirective| a@) =~= directives(f, 0));
    while j < field.annotations.len()
        invariant
            j <= field.annotations.len(),
            f == field@,
            out@.map_values(|a: AccessorDirective| a@) == directives(f, j as nat),
        decreases field.annotations.len() - j,
    {
        let a = &field.annotations[j];
        assert(f.annotations[j as int] == a@);
        let ghost before = out@.map_values(|a: AccessorDirective| a@);
        let kind = match check_annotation(Place::Field, a) {
            Ok(Key::GetOne) => Some(AccessorKind::GetOne),
            Ok(Key::GetOptional) => Some(AccessorKind::GetOptional),
            Ok(Key::GetMany) => Some(AccessorKind::GetMany),
            Ok(Key::SetField) => Some(AccessorKind::SetField),
            _ => None,
        };
        match kind {
            Some(kind) => {
                let generated_name = match &a.value {
                    Some(v) => v.clone(),
                    None => {
                        let mut name = match kind {
                            AccessorKind::SetField => String::from_str("set_"),
                            _ => String::from_str("get_by_"),
                        };
                        name.append(field.name.as_str());
                        name
                    },
                };
                let argument_type = match &a.argument {
                    Some(t) => t.clone(),
                    None => {
                        let mut reference = String::from_str("&");
                        reference.append(field.semantic_type.as_str());
                        reference
                    },
                };
                let directive = AccessorDirective {
                    kind,
                    field: field.name.clone(),
                    generated_name,
                    argument_type,
                };
                assert(directive@ == directive_of(f, kind, a@));
                out.push(directive);
                assert(out@.map_values(|a: AccessorDirective| a@) =~= before.push(
                    directive_of(f, kind, a@),
                ));
            },
            None => {
                assert(out@.map_values(|a: AccessorDirective| a@) =~= before);
            },
        }
        proof {
            assert(out@.map_values(|a: AccessorDirective| a@) =~= directives(f, (j + 1) as nat));
        }
        j += 1;
    }
    out
}

/// Builds the descriptor of the field at position `i`.
fn parse_field(raw: &RawRecord, i: usize, id_name: &Option<String>) -> (r: FieldDescriptor)
    requires
        i < raw.fields.len(),
        opt(*id_name) == id_name_of(raw@),
    ensures
        r@ == field_of(raw@, i as int),
{
    let field = &raw.fields[i];
    assert(raw@.fields[i as int] == field@);
    let column = find_last(Place::Field, &field.annotations, Key::Column);
    let column_name = match found_value(&field.annotations, column) {
        Some(v) => v,
        None => field.name.clone(),
    };
    let is_id = match id_name {
        Some(n) => *n == field.name,
        None => false,
    };
    let role = if is_id {
        Role::Id
    } else if find_last(Place::Field, &field.annotations, Key::DefaultValue).is_some() {
        Role::Default
    } else {
        Role::Regular
    };
    let custom = find_last(Place::Field, &field.annotations, Key::CustomType);
    FieldDescriptor {
        name: field.name.clone(),
        semantic_type: field.semantic_type.clone(),
        column_name,
        role,
        custom_type: custom.is_some(),
        type_override: found_value(&field.annotations, custom),
        accessors: parse_accessors(field),
    }
}

/// Appends the reason for every annotation of a field that cannot be taken
/// at `place`.
pub(crate) fn collect_field_errors(place: Place, raw: &RawRecord, errors: &mut Vec<ModelError>)
    ensures
        final(errors)@ == old(errors)@ + field_annotation_errors(place, raw@, raw@.fields.len()),
{
    let ghost rv = raw@;
    let ghost head = errors@;
    let mut i: usize = 0;
    while i < raw.fields.len()
        invariant
            i <= raw.fields.len(),
            rv == raw@,
            errors@ == head + field_annotation_errors(place, rv, i as nat),
        decreases raw.fields.len() - i,
    {
        assert(rv.fields[i as int] == raw.fields@[i as int]@);
        collect_errors(place, &raw.fields[i].annotations, errors);
        proof {
            assert(errors@ =~= head + field_annotation_errors(place, rv, (i + 1) as nat));
        }
        i += 1;
    }
}

/// Reads a record: the descriptor that its annotations describe, built from
/// those that can be taken, and the reason for each that cannot.
pub fn read_table(raw: &RawRecord) -> (r: (TableDescriptor, Vec<ModelError>))
    ensures
        r.0@ == table_of(raw@),
        r.1@ == parse_errors(raw@),
{
    let ghost rv = raw@;
    let mut errors: Vec<ModelError> = Vec::new();
    collect_errors(Place::Record, &raw.annotations, &mut errors);
    collect_field_errors(Place::Field, raw, &mut errors);
    let table_at = find_last(Place::Record, &raw.annotations, Key::Table);
    if table_at.is_none() {
        errors.push(ModelError::MissingTableName);
    }
    assert(errors@ =~= parse_errors(rv));
    let id_name = found_value(&raw.annotations, find_last(Place::Record, &raw.annotations, Key::Id));
    let mut fields: Vec<FieldDescriptor> = Vec::new();
    let mut k: usize = 0;
    while k < raw.fields.len()
        invariant
            k <= raw.fields.len(),
            rv == raw@,
            opt(id_name) == id_name_of(rv),
            fields@.len() == k,
            forall|m: int| 0 <= m < k ==> (#[trigger] fields@[m])@ == field_of(rv, m),
        decreases raw.fields.len() - k,
    {
        fields.push(parse_field(raw, k, &id_name));
        k += 1;
    }
    let table_name = match found_value(&raw.annotations, table_at) {
        Some(v) => v,
        None => raw.ident.clone(),
    };
    let insertable_at = find_last(Place::Record, &raw.annotations, Key::Insertable);
    let insertable = if insertable_at.is_some() {
        match found_value(&raw.annotations, insertable_at) {
            Some(v) => Some(v),
            None => {
                let mut name = String::from_str("Insert");
                name.append(raw.ident.as_str());
                Some(name)
            },
        }
    } else {
        None
    };
    let deletable = find_last(Place::Record, &raw.annotations, Key::Deletable).is_some();
    let table = TableDescriptor {
        ident: raw.ident.clone(),
        table_name,
        fields,
        insertable,
        deletable,
    };
    assert(table@.fields =~= table_of(rv).fields);
    assert(table@ == table_of(rv));
    (table, errors)
}

/// Builds the descriptor of a record from its annotations and those of its
/// fields. The descriptor comes back exactly when every annotation can be
/// taken; otherwise the reason for each that cannot, in the order of
/// [`parse_errors`].
pub fn parse_table(raw: &RawRecord) -> (r: Result<TableDescriptor, Vec<ModelError>>)
    ensures
        r is Ok <==> parse_errors(raw@).len() == 0,
        r is Ok ==> r->Ok_0@ == table_of(raw@),
        r is Err ==> r->Err_0@ == parse_errors(raw@),
{
    let (table, errors) = read_table(raw);
    if errors.len() > 0 {
        Err(errors)
    } else {
        Ok(table)
    }
}

} // verus!
