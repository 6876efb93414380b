//! The semantic model builder: checks what holds between the fields of a
//! descriptor and reports every violation found.
use crate::model::{FieldDescriptor, FieldView, Role, TableDescriptor, TableView};
use vstd::prelude::*;

verus! {

/// A violation found in a descriptor or in its annotations. Fields and
/// accessors are located by their positions in the descriptor, annotations by
/// the position that came with them.
#[derive(Clone, Copy, Debug, PartialEq, Eq, Structural)]
pub enum ModelError {
    /// No field carries the id role.
    MissingId,
    /// The field at this position carries the id role, and so does an earlier one.
    DuplicateId { field: usize },
    /// The field is of a custom type and records no storage type.
    MissingTypeOverride { field: usize },
    /// No annotation names the table.
    MissingTableName,
    /// No annotation of a patch type names its record type.
    MissingRecordType,
    /// An annotation has a key outside the vocabulary.
    UnknownAnnotationKey { location: usize },
    /// An annotation has a value that its key does not admit.
    MalformedAnnotationValue { location: usize },
    /// The accessor clashes with an earlier accessor that names the same field.
    DuplicateAccessorKind { field: usize, accessor: usize },
    /// The accessor names a field that the table does not have.
    DanglingAccessorReference { field: usize, accessor: usize },
}

/// Whether one of the first `n` fields carries the id role.
pub open spec fn has_id_before(fields: Seq<FieldView>, n: int) -> bool {
    exists|k: int| 0 <= k < n && k < fields.len() && (#[trigger] fields[k]).role == Role::Id
}

/// Whether the table has a field of this name.
pub open spec fn has_field(fields: Seq<FieldView>, name: Seq<char>) -> bool {
    exists|k: int| 0 <= k < fields.len() && (#[trigger] fields[k]).name == name
}

/// Whether accessor `j2` of field `i2` stands before accessor `j` of field
/// `i`, names the same field, and is of a kind that clashes with its kind.
pub open spec fn clashing_pair(t: TableView, i2: int, j2: int, i: int, j: int) -> bool {
    &&& i2 < i || (i2 == i && j2 < j)
    &&& t.fields[i2].accessors[j2].field == t.fields[i].accessors[j].field
    &&& t.fields[i2].accessors[j2].kind.clashes(t.fields[i].accessors[j].kind)
}

/// Whether an earlier accessor of the table clashes with accessor `j` of
/// field `i`.
pub open spec fn clash_before(t: TableView, i: int, j: int) -> bool {
    exists|i2: int, j2: int|
        0 <= i2 <= i && 0 <= j2 < t.fields[i2].accessors.len() && #[trigger] clashing_pair(
            t,
            i2,
            j2,
            i,
            j,
        )
}

/// The violations of accessor `j` of field `i`.
pub open spec fn accessor_errors(t: TableView, i: int, j: int) -> Seq<ModelError> {
    let accessors = t.fields[i].accessors;
    (if has_field(t.fields, accessors[j].field) {
        Seq::<ModelError>::empty()
    } else {
        seq![ModelError::DanglingAccessorReference { field: i as usize, accessor: j as usize }]
    }) + (if clash_before(t, i, j) {
        seq![ModelError::DuplicateAccessorKind { field: i as usize, accessor: j as usize }]
    } else {
        Seq::<ModelError>::empty()
    })
}

/// The violations of the first `n` accessors of field `i`, in order.
pub open spec fn accessors_errors(t: TableView, i: int, n: nat) -> Seq<ModelError>
    decreases n,
{
    if n == 0 {
        Seq::empty()
    } else {
        accessors_errors(t, i, (n - 1) as nat) + accessor_errors(t, i, n - 1)
    }
}

/// The violations of the field at position `i` itself.
pub open spec fn role_errors(t: TableView, i: int) -> Seq<ModelError> {
    (if t.fields[i].role == Role::Id && has_id_before(t.fields, i) {
        seq![ModelError::DuplicateId { field: i as usize }]
    } else {
        Seq::<ModelError>::empty()
    }) + (if t.fields[i].custom_type && t.fields[i].type_override is None {
        seq![ModelError::MissingTypeOverride { field: i as usize }]
    } else {
        Seq::<ModelError>::empty()
    })
}

/// The violations of field `i` and of its accessors.
pub open spec fn field_errors(t: TableView, i: int) -> Seq<ModelError> {
    role_errors(t, i) + accessors_errors(t, i, t.fields[i].accessors.len())
}

/// The violations of the first `n` fields, in declaration order.
pub open spec fn fields_errors(t: TableView, n: nat) -> Seq<ModelError>
    decreases n,
{
    if n == 0 {
        Seq::empty()
    } else {
        fields_errors(t, (n - 1) as nat) + field_errors(t, n - 1)
    }
}

/// Every violation of a descriptor: those of its fields in declaration order,
/// then the missing id, if no field carries that role.
pub open spec fn model_errors(t: TableView) -> Seq<ModelError> {
    fields_errors(t, t.fields.len()) + (if has_id_before(t.fields, t.fields.len() as int) {
        Seq::<ModelError>::empty()
    } else {
        seq![ModelError::MissingId]
    })
}

/// Accessor `j` of field `i` names a field of the table and clashes with no
/// earlier accessor.
pub open spec fn accessor_valid(t: TableView, i: int, j: int) -> bool {
    &&& has_field(t.fields, t.fields[i].accessors[j].field)
    &&& !clash_before(t, i, j)
}

/// Field `i` is not a second id, records a storage type if it is of a custom
/// type, and each of its accessors is valid.
pub open spec fn field_valid(t: TableView, i: int) -> bool {
    &&& !(t.fields[i].role == Role::Id && has_id_before(t.fields, i))
    &&& t.fields[i].custom_type ==> t.fields[i].type_override is Some
    &&& forall|j: int| 0 <= j < t.fields[i].accessors.len() ==> accessor_valid(t, i, j)
}

/// A descriptor is valid when it has an id field and each field is valid.
pub open spec fn valid(t: TableView) -> bool {
    &&& has_id_before(t.fields, t.fields.len() as int)
    &&& forall|i: int| 0 <= i < t.fields.len() ==> field_valid(t, i)
}

/// A descriptor that passed validation, with the position of its id field.
pub struct ResolvedModel {
    pub table: TableDescriptor,
    pub id_index: usize,
}

impl ResolvedModel {
    /// The descriptor has no violation and `id_index` is its id field.
    pub open spec fn wf(&self) -> bool {
        &&& model_errors(self.table@).len() == 0
        &&& self.id_index < self.table@.fields.len()
        &&& self.table@.fields[self.id_index as int].role == Role::Id
    }

    /// The id field.
    pub fn id_field(&self) -> (r: &FieldDescriptor)
        requires
            self.wf(),
        ensures
            r@ == self.table@.fields[self.id_index as int],
            r@.role == Role::Id,
    {
        &self.table.fields[self.id_index]
    }
}

/// Whether the table has a field of this name.
pub fn has_field_named(table: &TableDescriptor, name: &String) -> (r: bool)
    ensures
        r == has_field(table@.fields, name@),
{
    let mut i: usize = 0;
    while i < table.fields.len()
        invariant
            i <= table.fields.len(),
            forall|k: int| 0 <= k < i ==> (#[trigger] table@.fields[k]).name != name@,
        decreases table.fields.len() - i,
    {
        if table.fields[i].name == *name {
            assert(table@.fields[i as int].name == name@);
            return true;
        }
        i += 1;
    }
    false
}

/// Whether an earlier accessor of the table clashes with accessor `j` of
/// field `i`.
pub fn clashes_earlier(table: &TableDescriptor, i: usize, j: usize) -> (r: bool)
    requires
        i < table@.fields.len(),
        j < table@.fields[i as int].accessors.len(),
    ensures
        r == clash_before(table@, i as int, j as int),
{
    let ghost t = table@;
    assert(t.fields[i as int] == table.fields@[i as int]@);
    let target = &table.fields[i].accessors[j];
    assert(t.fields[i as int].accessors[j as int] == target@);
    let mut a: usize = 0;
    while a <= i
        invariant
            a <= i + 1,
            i < table.fields.len(),
            j < table.fields@[i as int].accessors@.len(),
            t == table@,
            t.fields[i as int].accessors[j as int] == target@,
            forall|i2: int, j2: int|
                0 <= i2 < a && 0 <= j2 < t.fields[i2].accessors.len() ==> !#[trigger] clashing_pair(
                    t,
                    i2,
                    j2,
                    i as int,
                    j as int,
                ),
        decreases i + 1 - a,
    {
        let row = &table.fields[a];
        assert(t.fields[a as int] == row@);
        let end = if a == i {
            j
        } else {
            row.accessors.len()
        };
        let mut b: usize = 0;
        while b < end
            invariant
                b <= end,
                end <= row.accessors.len(),
                a <= i,
                a == i ==> end == j,
                a != i ==> end == row.accessors.len(),
                i < table.fields.len(),
                j < table.fields@[i as int].accessors@.len(),
                t == table@,
                t.fields[a as int] == row@,
                t.fields[i as int].accessors[j as int] == target@,
                forall|j2: int|
                    0 <= j2 < b ==> !#[trigger] clashing_pair(t, a as int, j2, i as int, j as int),
            decreases end - b,
        {
            let other = &row.accessors[b];
            assert(row@.accessors[b as int] == other@);
            if other.field == target.field && other.kind.clashes_with(target.kind) {
                assert(clashing_pair(t, a as int, b as int, i as int, j as int));
                return true;
            }
            b += 1;
        }
        a += 1;
    }
    false
}

/// Appends the violations of every accessor of field `i`.
fn check_accessors(table: &TableDescriptor, i: usize, errors: &mut Vec<ModelError>)
    requires
        i < table.fields.len(),
    ensures
        final(errors)@ == old(errors)@ + accessors_errors(
            table@,
            i as int,
            table@.fields[i as int].accessors.len(),
        ),
{
    let field = &table.fields[i];
    let ghost before = errors@;
    let ghost t = table@;
    assert(t.fields[i as int] == field@);
    let mut j: usize = 0;
    while j < field.accessors.len()
        invariant
            j <= field.accessors.len(),
            i < table.fields.len(),
            t == table@,
            t.fields[i as int] == field@,
            errors@ == before + accessors_errors(t, i as int, j as nat),
        decreases field.accessors.len() - j,
    {
        let accessor = &field.accessors[j];
        assert(field@.accessors[j as int] == accessor@);
        if !has_field_named(table, &accessor.field) {
            errors.push(ModelError::DanglingAccessorReference { field: i, accessor: j });
        }
        if clashes_earlier(table, i, j) {
            errors.push(ModelError::DuplicateAccessorKind { field: i, accessor: j });
        }
        proof {
            assert(errors@ =~= before + accessors_errors(t, i as int, (j + 1) as nat));
        }
        j += 1;
    }
}

/// Checks a descriptor. It is accepted, with the position of its id field,
/// exactly when it has no violation; otherwise every violation is reported,
/// in the order of [`model_errors`].
pub fn validate(table: TableDescriptor) -> (r: Result<ResolvedModel, Vec<ModelError>>)
    ensures
        r is Ok <==> model_errors(table@).len() == 0,
        r is Ok ==> r->Ok_0.table == table && r->Ok_0.wf(),
        r is Err ==> r->Err_0@ == model_errors(table@),
{
    let mut errors: Vec<ModelError> = Vec::new();
    let mut id_index: Option<usize> = None;
    let ghost t = table@;
    let mut i: usize = 0;
    while i < table.fields.len()
        invariant
            i <= table.fields.len(),
            t == table@,
            errors@ == fields_errors(t, i as nat),
            id_index is Some <==> has_id_before(t.fields, i as int),
            id_index is Some ==> id_index->Some_0 < i && t.fields[id_index->Some_0 as int].role
                == Role::Id,
        decreases table.fields.len() - i,
    {
        let field = &table.fields[i];
        assert(t.fields[i as int] == field@);
        let ghost before = errors@;
        match field.role {
            Role::Id => {
                if id_index.is_some() {
                    errors.push(ModelError::DuplicateId { field: i });
                } else {
                    id_index = Some(i);
                }
            },
            _ => {},
        }
        if field.custom_type && field.type_override.is_none() {
            errors.push(ModelError::MissingTypeOverride { field: i });
        }
        assert(errors@ =~= before + role_errors(t, i as int));
        check_accessors(&table, i, &mut errors);
        proof {
            assert(errors@ =~= fields_errors(t, (i + 1) as nat));
            assert(has_id_before(t.fields, i + 1) == (has_id_before(t.fields, i as int)
                || t.fields[i as int].role == Role::Id));
        }
        i += 1;
    }
    match id_index {
        None => {
            errors.push(ModelError::MissingId);
            assert(errors@ =~= model_errors(t));
            Err(errors)
        },
        Some(id) => {
            assert(errors@ =~= model_errors(t));
            if errors.len() == 0 {
                Ok(ResolvedModel { table, id_index: id })
            } else {
                Err(errors)
            }
        },
    }
}

} // verus!
