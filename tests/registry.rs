use full_text_search::{
    wire_type, RegistryError, TsQuery, TsVector, TypeRegistry, ValueKind, WireTypeDescriptor,
};

#[test]
fn register_then_lookup_gives_descriptor() {
    let d = WireTypeDescriptor { primary_id: 3614, array_id: 3643, not_null: true };
    let mut reg = TypeRegistry::new();
    reg.register(ValueKind::DocumentVector, d);
    assert_eq!(reg.lookup(ValueKind::DocumentVector), Ok(d));
    let q = WireTypeDescriptor { primary_id: 3615, array_id: 3645, not_null: true };
    reg.register(ValueKind::SearchQuery, q);
    assert_eq!(reg.lookup(ValueKind::SearchQuery), Ok(q));
    assert_eq!(reg.lookup(ValueKind::DocumentVector), Ok(d));
}

#[test]
fn lookup_before_register_fails() {
    let reg = TypeRegistry::new();
    assert_eq!(
        reg.lookup(ValueKind::SearchQuery),
        Err(RegistryError::Unregistered(ValueKind::SearchQuery))
    );
}

#[test]
fn postgres_registry_holds_both_kinds() {
    let reg = TypeRegistry::postgres();
    assert_eq!(
        reg.lookup(ValueKind::DocumentVector),
        Ok(WireTypeDescriptor { primary_id: 3614, array_id: 3643, not_null: true })
    );
    assert_eq!(
        reg.lookup(ValueKind::SearchQuery),
        Ok(WireTypeDescriptor { primary_id: 3615, array_id: 3645, not_null: true })
    );
}

#[test]
fn marker_metadata() {
    let v = TsVector::metadata();
    assert_eq!((v.primary_id, v.array_id, v.not_null), (3614, 3643, true));
    let q = TsQuery::metadata();
    assert_eq!((q.primary_id, q.array_id, q.not_null), (3615, 3645, true));
    assert_eq!(wire_type(ValueKind::SearchQuery), q);
}
