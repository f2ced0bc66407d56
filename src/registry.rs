use vstd::prelude::*;

use crate::kinds::{SqlType, TsQuery, TsVector};

verus! {

/// How a value kind is represented on the wire: the type's object
/// identifier, the identifier of its array type, and whether it excludes
/// null.
#[derive(Clone, Copy, Debug, PartialEq, Eq, Structural)]
pub struct WireTypeDescriptor {
    pub primary_id: u32,
    pub array_id: u32,
    pub not_null: bool,
}

/// The value kinds of full-text search.
#[derive(Clone, Copy, Debug, PartialEq, Eq, Structural)]
pub enum ValueKind {
    /// `tsvector`
    DocumentVector,
    /// `tsquery`
    SearchQuery,
}

impl ValueKind {
    /// The SQL type of values of this kind.
    pub open spec fn spec_sql_type(self) -> SqlType {
        match self {
            ValueKind::DocumentVector => SqlType::TsVector,
            ValueKind::SearchQuery => SqlType::TsQuery,
        }
    }

    /// Returns the SQL type of values of this kind.
    pub fn sql_type(self) -> (r: SqlType)
        ensures
            r == self.spec_sql_type(),
    {
        match self {
            ValueKind::DocumentVector => SqlType::TsVector,
            ValueKind::SearchQuery => SqlType::TsQuery,
        }
    }
}

/// The wire representation PostgreSQL gives each value kind.
pub open spec fn postgres_wire_type(kind: ValueKind) -> WireTypeDescriptor {
    match kind {
        ValueKind::DocumentVector => WireTypeDescriptor {
            primary_id: 3614,
            array_id: 3643,
            not_null: true,
        },
        ValueKind::SearchQuery => WireTypeDescriptor {
            primary_id: 3615,
            array_id: 3645,
            not_null: true,
        },
    }
}

/// Returns the wire representation PostgreSQL gives `kind`.
pub fn wire_type(kind: ValueKind) -> (r: WireTypeDescriptor)
    ensures
        r == postgres_wire_type(kind),
{
    match kind {
        ValueKind::DocumentVector => WireTypeDescriptor {
            primary_id: 3614,
            array_id: 3643,
            not_null: true,
        },
        ValueKind::SearchQuery => WireTypeDescriptor {
            primary_id: 3615,
            array_id: 3645,
            not_null: true,
        },
    }
}

impl TsQuery {
    /// The wire representation of `tsquery`.
    pub fn metadata() -> (r: WireTypeDescriptor)
        ensures
            r == postgres_wire_type(ValueKind::SearchQuery),
    {
        wire_type(ValueKind::SearchQuery)
    }
}

impl TsVector {
    /// The wire representation of `tsvector`.
    pub fn metadata() -> (r: WireTypeDescriptor)
        ensures
            r == postgres_wire_type(ValueKind::DocumentVector),
    {
        wire_type(ValueKind::DocumentVector)
    }
}

/// Why a lookup in the registry failed.
#[derive(Clone, Copy, Debug, PartialEq, Eq, Structural)]
pub enum RegistryError {
    /// The kind was looked up before it was registered.
    Unregistered(ValueKind),
}

/// The wire representation of each registered value kind.
pub struct TypeRegistry {
    document_vector: Option<WireTypeDescriptor>,
    search_query: Option<WireTypeDescriptor>,
}

impl TypeRegistry {
    spec fn slot(self, kind: ValueKind) -> Option<WireTypeDescriptor> {
        match kind {
            ValueKind::DocumentVector => self.document_vector,
            ValueKind::SearchQuery => self.search_query,
        }
    }
}

impl View for TypeRegistry {
    type V = Map<ValueKind, WireTypeDescriptor>;

    closed spec fn view(&self) -> Map<ValueKind, WireTypeDescriptor> {
        Map::new(|k: ValueKind| self.slot(k) is Some, |k: ValueKind| self.slot(k)->0)
    }
}

impl TypeRegistry {
    /// A registry with no kind registered.
    pub fn new() -> (r: TypeRegistry)
        ensures
            r@ == Map::<ValueKind, WireTypeDescriptor>::empty(),
    {
        let r = TypeRegistry { document_vector: None, search_query: None };
        assert(r@ =~= Map::<ValueKind, WireTypeDescriptor>::empty());
        r
    }

    /// A registry holding PostgreSQL's representation of both value kinds.
    pub fn postgres() -> (r: TypeRegistry)
        ensures
            forall|k: ValueKind| #[trigger] r@.contains_key(k),
            forall|k: ValueKind| #[trigger] r@[k] == postgres_wire_type(k),
    {
        let mut r = TypeRegistry::new();
        r.register(ValueKind::DocumentVector, wire_type(ValueKind::DocumentVector));
        r.register(ValueKind::SearchQuery, wire_type(ValueKind::SearchQuery));
        assert forall|k: ValueKind| r@.contains_key(k) && r@[k] == postgres_wire_type(k) by {
            match k {
                ValueKind::DocumentVector => {},
                ValueKind::SearchQuery => {},
            }
        }
        r
    }

    /// Registers the wire representation of `kind`, once.
    pub fn register(&mut self, kind: ValueKind, descriptor: WireTypeDescriptor)
        requires
            !old(self)@.contains_key(kind),
        ensures
            final(self)@ == old(self)@.insert(kind, descriptor),
    {
        match kind {
            ValueKind::DocumentVector => {
                self.document_vector = Some(descriptor);
            },
            ValueKind::SearchQuery => {
                self.search_query = Some(descriptor);
            },
        }
        assert(self@ =~= old(self)@.insert(kind, descriptor));
    }

    /// Returns the wire representation registered for `kind`.
    pub fn lookup(&self, kind: ValueKind) -> (r: Result<WireTypeDescriptor, RegistryError>)
        ensures
            self@.contains_key(kind) ==> r == Ok::<WireTypeDescriptor, RegistryError>(self@[kind]),
            !self@.contains_key(kind) ==> r == Err::<WireTypeDescriptor, RegistryError>(
                RegistryError::Unregistered(kind),
            ),
    {
        let slot = match kind {
            ValueKind::DocumentVector => self.document_vector,
            ValueKind::SearchQuery => self.search_query,
        };
        match slot {
            Some(d) => Ok(d),
            None => Err(RegistryError::Unregistered(kind)),
        }
    }
}

} // verus!
