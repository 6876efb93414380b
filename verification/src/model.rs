//! The descriptor of a record: its table, its fields and their roles.
use vstd::prelude::*;

verus! {

/// What part a field plays in its table.
#[derive(Clone, Copy, Debug, PartialEq, Eq, Structural)]
pub enum Role {
    /// The field that identifies a row.
    Id,
    /// A field whose value the database produces.
    Default,
    /// Any other field.
    Regular,
}

/// The shape of a generated accessor.
#[derive(Clone, Copy, Debug, PartialEq, Eq, Structural)]
pub enum AccessorKind {
    GetOne,
    GetOptional,
    GetMany,
    SetField,
}

impl AccessorKind {
    /// Whether the accessor queries by a field (as opposed to updating it).
    pub open spec fn is_getter(self) -> bool {
        self != AccessorKind::SetField
    }

    /// Two kinds clash when one field cannot carry both: two getters, or two setters.
    pub open spec fn clashes(self, other: AccessorKind) -> bool {
        self.is_getter() == other.is_getter()
    }

    /// Executable form of [`AccessorKind::clashes`].
    pub fn clashes_with(self, other: AccessorKind) -> (r: bool)
        ensures
            r == self.clashes(other),
    {
        let a = match self {
            AccessorKind::SetField => false,
            _ => true,
        };
        let b = match other {
            AccessorKind::SetField => false,
            _ => true,
        };
        a == b
    }
}

/// A request to generate a query-by-field or an update-one-field function.
#[derive(Clone, Debug, PartialEq, Eq)]
pub struct AccessorDirective {
    pub kind: AccessorKind,
    /// The name of the field that the accessor queries by or updates.
    pub field: String,
    /// The name of the generated function.
    pub generated_name: String,
    /// The type of the generated function's argument.
    pub argument_type: String,
}

pub struct AccessorView {
    pub kind: AccessorKind,
    pub field: Seq<char>,
    pub generated_name: Seq<char>,
    pub argument_type: Seq<char>,
}

impl View for AccessorDirective {
    type V = AccessorView;

    open spec fn view(&self) -> AccessorView {
        AccessorView {
            kind: self.kind,
            field: self.field@,
            generated_name: self.generated_name@,
            argument_type: self.argument_type@,
        }
    }
}

/// One field of a record.
#[derive(Clone, Debug, PartialEq, Eq)]
pub struct FieldDescriptor {
    pub name: String,
    pub semantic_type: String,
    pub column_name: String,
    pub role: Role,
    /// The in-memory type has no canonical SQL mapping.
    pub custom_type: bool,
    /// The storage type to read the column as; required for a custom type.
    pub type_override: Option<String>,
    pub accessors: Vec<AccessorDirective>,
}

pub struct FieldView {
    pub name: Seq<char>,
    pub semantic_type: Seq<char>,
    pub column_name: Seq<char>,
    pub role: Role,
    pub custom_type: bool,
    pub type_override: Option<Seq<char>>,
    pub accessors: Seq<AccessorView>,
}

impl View for FieldDescriptor {
    type V = FieldView;

    open spec fn view(&self) -> FieldView {
        FieldView {
            name: self.name@,
            semantic_type: self.semantic_type@,
            column_name: self.column_name@,
            role: self.role,
            custom_type: self.custom_type,
            type_override: match self.type_override {
                Some(t) => Some(t@),
                None => None,
            },
            accessors: self.accessors@.map_values(|a: AccessorDirective| a@),
        }
    }
}

/// A record and its table.
#[derive(Clone, Debug, PartialEq, Eq)]
pub struct TableDescriptor {
    /// The name of the record type.
    pub ident: String,
    pub table_name: String,
    /// The fields in declaration order.
    pub fields: Vec<FieldDescriptor>,
    /// The name of the insert companion type, where one is generated.
    pub insertable: Option<String>,
    pub deletable: bool,
}

pub struct TableView {
    pub ident: Seq<char>,
    pub table_name: Seq<char>,
    pub fields: Seq<FieldView>,
    pub insertable: Option<Seq<char>>,
    pub deletable: bool,
}

impl View for TableDescriptor {
    type V = TableView;

    open spec fn view(&self) -> TableView {
        TableView {
            ident: self.ident@,
            table_name: self.table_name@,
            fields: self.fields@.map_values(|f: FieldDescriptor| f@),
            insertable: match self.insertable {
                Some(n) => Some(n@),
                None => None,
            },
            deletable: self.deletable,
        }
    }
}

} // verus!
