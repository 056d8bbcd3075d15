use procedure_registry::datatype::never;
use procedure_registry::export::ProceduresDef;
use procedure_registry::procedure::{ProcedureDef, ProcedureTodo};
use procedure_registry::store::{ProcedureKind, ProcedureStore};
use specta::internal::construct;
use specta::reference::Reference;
use specta::{DataType, ImplLocation, NamedDataType, NamedType, PrimitiveType, SpectaID, Type, TypeMap};

fn string_type() -> DataType {
    DataType::Primitive(PrimitiveType::String)
}

fn derive<TArg: Type, TResult: Type, TError: Type>(key: &str, types: &mut TypeMap) -> ProcedureDef {
    let arg = TArg::reference(types, &[]).inner;
    let result = TResult::reference(types, &[]).inner;
    let error = TError::reference(types, &[]).inner;
    ProcedureDef::from_tys(key.to_string(), Ok(arg), Ok(result), Ok(error)).unwrap()
}

fn entry(key: &str, types: &mut TypeMap) -> ProcedureTodo<u32> {
    ProcedureTodo { executor: 0, ty: derive::<(), String, String>(key, types) }
}

fn same(a: &ProcedureDef, b: &ProcedureDef) -> bool {
    a.key == b.key && a.input == b.input && a.result == b.result && a.error == b.error
}

fn same_all(a: &[ProcedureDef], b: &[ProcedureDef]) -> bool {
    a.len() == b.len() && a.iter().zip(b.iter()).all(|(x, y)| same(x, y))
}

/// A user-defined type with a name of its own.
struct Nested;

impl Type for Nested {
    fn inline(_: &mut TypeMap, _: &[DataType]) -> DataType {
        DataType::Tuple(construct::tuple(vec![string_type(), string_type()]))
    }

    fn reference(types: &mut TypeMap, _: &[DataType]) -> Reference {
        specta::reference::reference::<Self>(
            types,
            construct::data_type_reference("Nested".into(), <Self as NamedType>::SID, vec![]),
        )
    }
}

impl NamedType for Nested {
    const SID: SpectaID = construct::sid("Nested", "::export:1:1");
    const IMPL_LOCATION: ImplLocation = construct::impl_location("export:1:1");

    fn named_data_type(types: &mut TypeMap, generics: &[DataType]) -> NamedDataType {
        construct::named_data_type(
            "Nested".into(),
            "".into(),
            None,
            Self::SID,
            Self::IMPL_LOCATION,
            <Self as Type>::inline(types, generics),
        )
    }

    fn definition_named_data_type(types: &mut TypeMap) -> NamedDataType {
        construct::named_data_type(
            "Nested".into(),
            "".into(),
            None,
            Self::SID,
            Self::IMPL_LOCATION,
            <Self as Type>::definition(types),
        )
    }
}

#[test]
fn an_empty_set_has_three_empty_fields() {
    let none: Vec<ProcedureTodo<u32>> = Vec::new();
    let set = ProceduresDef::new(&none, &none, &none);
    assert!(set.queries().is_empty());
    assert!(set.mutations().is_empty());
    assert!(set.subscriptions().is_empty());
    let named = set.to_named();
    assert_eq!(named.name, "Procedures");
    assert_eq!(named.fields.len(), 3);
    assert_eq!(named.fields[0].name, "queries");
    assert_eq!(named.fields[1].name, "mutations");
    assert_eq!(named.fields[2].name, "subscriptions");
    for field in &named.fields {
        assert!(field.contracts.is_empty());
    }
}

#[test]
fn one_query_named_ping() {
    let mut types = TypeMap::default();
    let mut store: ProcedureStore<u32> = ProcedureStore::new();
    let ping = derive::<(), String, String>("ping", &mut types);
    assert_eq!(store.register(ProcedureKind::Query, 1, ping), Ok(()));
    let named = store.export().to_named();
    assert_eq!(named.name, "Procedures");
    assert_eq!(named.fields.len(), 3);
    assert_eq!(named.fields[0].name, "queries");
    assert_eq!(named.fields[0].contracts.len(), 1);
    let contract = &named.fields[0].contracts[0];
    assert_eq!(contract.key, "ping");
    assert_eq!(contract.input, never());
    assert_eq!(contract.result, string_type());
    assert_eq!(contract.error, string_type());
    assert_eq!(named.fields[1].name, "mutations");
    assert!(named.fields[1].contracts.is_empty());
    assert_eq!(named.fields[2].name, "subscriptions");
    assert!(named.fields[2].contracts.is_empty());
}

#[test]
fn new_keeps_each_bucket_in_order() {
    let mut types = TypeMap::default();
    let queries = vec![entry("q2", &mut types), entry("q1", &mut types), entry("q3", &mut types)];
    let mutations = vec![entry("m1", &mut types)];
    let subscriptions = vec![entry("s2", &mut types), entry("s1", &mut types)];
    let set = ProceduresDef::new(&queries, &mutations, &subscriptions);
    let keys = |defs: &Vec<ProcedureDef>| defs.iter().map(|d| d.key.clone()).collect::<Vec<_>>();
    assert_eq!(keys(set.queries()), vec!["q2", "q1", "q3"]);
    assert_eq!(keys(set.mutations()), vec!["m1"]);
    assert_eq!(keys(set.subscriptions()), vec!["s2", "s1"]);
    for (def, source) in set.queries().iter().zip(queries.iter()) {
        assert!(same(def, &source.ty));
    }
    let named = set.to_named();
    assert_eq!(keys(&named.fields[0].contracts), vec!["q2", "q1", "q3"]);
    assert_eq!(keys(&named.fields[1].contracts), vec!["m1"]);
    assert_eq!(keys(&named.fields[2].contracts), vec!["s2", "s1"]);
}

#[test]
fn new_leaves_the_entries_in_place() {
    let mut types = TypeMap::default();
    let queries = vec![
        ProcedureTodo { executor: 41u32, ty: derive::<(u8, u8), String, ()>("q", &mut types) },
    ];
    let none: Vec<ProcedureTodo<u32>> = Vec::new();
    let set = ProceduresDef::new(&queries, &none, &none);
    assert_eq!(queries[0].executor, 41);
    assert!(same(&queries[0].ty, &set.queries()[0]));
    assert_eq!(set.queries()[0].input, <(u8, u8) as Type>::inline(&mut types, &[]));
}

#[test]
fn exporting_twice_gives_the_same() {
    let mut types = TypeMap::default();
    let mut store: ProcedureStore<u32> = ProcedureStore::new();
    assert_eq!(store.register(ProcedureKind::Query, 1, derive::<(), String, String>("a", &mut types)), Ok(()));
    assert_eq!(store.register(ProcedureKind::Query, 2, derive::<u8, (), String>("b", &mut types)), Ok(()));
    assert_eq!(store.register(ProcedureKind::Mutation, 3, derive::<String, u8, ()>("a", &mut types)), Ok(()));
    assert_eq!(store.register(ProcedureKind::Subscription, 4, derive::<(), Nested, Nested>("s", &mut types)), Ok(()));
    let first = store.export();
    let second = store.export();
    assert!(same_all(first.queries(), second.queries()));
    assert!(same_all(first.mutations(), second.mutations()));
    assert!(same_all(first.subscriptions(), second.subscriptions()));
    assert_eq!(format!("{:?}", first), format!("{:?}", second));
    let first = first.to_named();
    let second = second.to_named();
    assert_eq!(format!("{:?}", first), format!("{:?}", second));
    assert_eq!(store.bucket(ProcedureKind::Query).len(), 2);
    assert_eq!(store.bucket(ProcedureKind::Mutation).len(), 1);
    assert_eq!(store.bucket(ProcedureKind::Subscription).len(), 1);
}

#[test]
fn a_refused_registration_does_not_show_in_the_export() {
    let mut types = TypeMap::default();
    let mut store: ProcedureStore<u32> = ProcedureStore::new();
    assert_eq!(store.register(ProcedureKind::Query, 1, entry("a", &mut types).ty), Ok(()));
    assert!(store.register(ProcedureKind::Query, 2, entry("a", &mut types).ty).is_err());
    assert!(store.register(ProcedureKind::Query, 3, entry("rspc.a", &mut types).ty).is_err());
    let set = store.export();
    assert_eq!(set.queries().len(), 1);
    assert_eq!(set.queries()[0].key, "a");
}

#[test]
fn a_shared_nested_type_is_registered_once() {
    let mut types = TypeMap::default();
    let first = derive::<(), Nested, String>("first", &mut types);
    let second = derive::<Nested, (), Nested>("second", &mut types);
    assert_eq!(types.len(), 1);
    let named = types.get(<Nested as NamedType>::SID).unwrap();
    assert_eq!(named.name().as_ref(), "Nested");
    for described in [&first.result, &second.input, &second.error] {
        match described {
            DataType::Reference(reference) => {
                assert_eq!(reference.name().as_ref(), "Nested");
                assert_eq!(reference.sid(), <Nested as NamedType>::SID);
            }
            other => panic!("unexpected description {:?}", other),
        }
    }
    assert_eq!(first.result, second.input);
    let mut store: ProcedureStore<u32> = ProcedureStore::new();
    assert_eq!(store.register(ProcedureKind::Query, 1, first), Ok(()));
    assert_eq!(store.register(ProcedureKind::Mutation, 2, second), Ok(()));
    let set = store.export();
    assert_eq!(set.queries()[0].result, set.mutations()[0].input);
    assert_eq!(types.len(), 1);
}
