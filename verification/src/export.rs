//! The contracts of a server, gathered for export.

use crate::procedure::{ProcedureDef, ProcedureTodo};
use crate::store::{ProcedureKind, ProcedureStore};
use vstd::prelude::*;
use vstd::string::*;

verus! {

/// The contracts of all operations of a server: one sequence for each kind,
/// each in registration order.
#[derive(Debug)]
pub struct ProceduresDef {
    queries: Vec<ProcedureDef>,
    mutations: Vec<ProcedureDef>,
    subscriptions: Vec<ProcedureDef>,
}

/// A set of contracts as a mathematical value.
pub struct ProceduresDefView {
    pub queries: Seq<ProcedureDef>,
    pub mutations: Seq<ProcedureDef>,
    pub subscriptions: Seq<ProcedureDef>,
}

impl View for ProceduresDef {
    type V = ProceduresDefView;

    closed spec fn view(&self) -> ProceduresDefView {
        ProceduresDefView {
            queries: self.queries@,
            mutations: self.mutations@,
            subscriptions: self.subscriptions@,
        }
    }
}

/// One field of the exported declaration: its name and the contracts it
/// lists.
#[derive(Debug)]
pub struct FieldDef {
    pub name: String,
    pub contracts: Vec<ProcedureDef>,
}

/// The exported declaration: a named composite of fields.
#[derive(Debug)]
pub struct CompositeDef {
    pub name: String,
    pub fields: Vec<FieldDef>,
}

/// The contracts of a sequence of entries, in the same order.
pub open spec fn contracts_of<TExec>(entries: Seq<ProcedureTodo<TExec>>) -> Seq<ProcedureDef> {
    entries.map_values(|entry: ProcedureTodo<TExec>| entry.ty)
}

/// The set of contracts of three buckets.
pub open spec fn set_of<TExec>(
    queries: Seq<ProcedureTodo<TExec>>,
    mutations: Seq<ProcedureTodo<TExec>>,
    subscriptions: Seq<ProcedureTodo<TExec>>,
) -> ProceduresDefView {
    ProceduresDefView {
        queries: contracts_of(queries),
        mutations: contracts_of(mutations),
        subscriptions: contracts_of(subscriptions),
    }
}

/// Whether `field` is called `name` and lists exactly `contracts`.
pub open spec fn is_field(field: FieldDef, name: Seq<char>, contracts: Seq<ProcedureDef>) -> bool {
    field.name@ == name && field.contracts@ == contracts
}

/// Whether `composite` is the declaration of `set`: it is called
/// `Procedures` and has the fields `queries`, `mutations` and
/// `subscriptions`, in this order, each with the contracts of its kind.
pub open spec fn is_declaration_of(composite: CompositeDef, set: ProceduresDefView) -> bool {
    &&& composite.name@ == "Procedures"@
    &&& composite.fields@.len() == 3
    &&& is_field(composite.fields@[0], "queries"@, set.queries)
    &&& is_field(composite.fields@[1], "mutations"@, set.mutations)
    &&& is_field(composite.fields@[2], "subscriptions"@, set.subscriptions)
}

/// Two stores that hold the same entries have the same set of contracts:
/// what is exported depends on nothing but what was registered.
pub proof fn lemma_export_deterministic<TExec>(a: ProcedureStore<TExec>, b: ProcedureStore<TExec>)
    requires
        forall|kind: ProcedureKind| #[trigger] a.entries(kind) == b.entries(kind),
    ensures
        a.contracts() == b.contracts(),
{
    assert(a.entries(ProcedureKind::Query) == b.entries(ProcedureKind::Query));
    assert(a.entries(ProcedureKind::Mutation) == b.entries(ProcedureKind::Mutation));
    assert(a.entries(ProcedureKind::Subscription) == b.entries(ProcedureKind::Subscription));
}

/// Two declarations of one set agree in their name, in the names of their
/// fields and in the contracts that each field lists.
pub proof fn lemma_declaration_deterministic(a: CompositeDef, b: CompositeDef, set: ProceduresDefView)
    requires
        is_declaration_of(a, set),
        is_declaration_of(b, set),
    ensures
        a.name@ == b.name@,
        a.fields@.len() == b.fields@.len(),
        forall|i: int|
            0 <= i < a.fields@.len() ==> (#[trigger] a.fields@[i]).name@ == b.fields@[i].name@
                && a.fields@[i].contracts@ == b.fields@[i].contracts@,
{
}

/// The set of contracts lists the entries of each bucket one for one, in
/// registration order.
pub proof fn lemma_contracts_in_order<TExec>(entries: Seq<ProcedureTodo<TExec>>, i: int)
    requires
        0 <= i < entries.len(),
    ensures
        contracts_of(entries).len() == entries.len(),
        contracts_of(entries)[i] == entries[i].ty,
{
}

/// No contract of a store has the tuple of zero elements as its input.
pub proof fn lemma_exported_inputs<TExec>(store: ProcedureStore<TExec>, i: int)
    requires
        store.wf(),
    ensures
        0 <= i < store.contracts().queries.len() ==> store.contracts().queries[i].wf(),
        0 <= i < store.contracts().mutations.len() ==> store.contracts().mutations[i].wf(),
        0 <= i < store.contracts().subscriptions.len() ==> store.contracts().subscriptions[i].wf(),
{
    if 0 <= i < store.entries(ProcedureKind::Query).len() {
        assert(store.entries(ProcedureKind::Query)[i].ty.wf());
    }
    if 0 <= i < store.entries(ProcedureKind::Mutation).len() {
        assert(store.entries(ProcedureKind::Mutation)[i].ty.wf());
    }
    if 0 <= i < store.entries(ProcedureKind::Subscription).len() {
        assert(store.entries(ProcedureKind::Subscription)[i].ty.wf());
    }
}

/// Copies the contracts out of a bucket.
fn collect<TExec>(entries: &[ProcedureTodo<TExec>]) -> (r: Vec<ProcedureDef>)
    ensures
        r@ == contracts_of(entries@),
{
    let mut contracts: Vec<ProcedureDef> = Vec::new();
    let mut i: usize = 0;
    while i < entries.len()
        invariant
            i <= entries.len(),
            contracts@ == contracts_of(entries@.take(i as int)),
        decreases entries.len() - i,
    {
        contracts.push(entries[i].ty.clone());
        assert(entries@.take(i + 1) == entries@.take(i as int).push(entries@[i as int]));
        i += 1;
    }
    assert(entries@.take(i as int) == entries@);
    contracts
}

impl ProceduresDef {
    /// Gathers the contracts of the three buckets, leaving what runs the
    /// operations behind.
    pub fn new<TExec>(
        queries: &[ProcedureTodo<TExec>],
        mutations: &[ProcedureTodo<TExec>],
        subscriptions: &[ProcedureTodo<TExec>],
    ) -> (r: Self)
        ensures
            r@ == set_of(queries@, mutations@, subscriptions@),
    {
        ProceduresDef {
            queries: collect(queries),
            mutations: collect(mutations),
            subscriptions: collect(subscriptions),
        }
    }

    /// The contracts of the queries.
    pub fn queries(&self) -> (r: &Vec<ProcedureDef>)
        ensures
            r@ == self@.queries,
    {
        &self.queries
    }

    /// The contracts of the mutations.
    pub fn mutations(&self) -> (r: &Vec<ProcedureDef>)
        ensures
            r@ == self@.mutations,
    {
        &self.mutations
    }

    /// The contracts of the subscriptions.
    pub fn subscriptions(&self) -> (r: &Vec<ProcedureDef>)
        ensures
            r@ == self@.subscriptions,
    {
        &self.subscriptions
    }

    /// Turns the set into the declaration that is exported.
    pub fn to_named(self) -> (r: CompositeDef)
        ensures
            is_declaration_of(r, self@),
    {
        let mut fields: Vec<FieldDef> = Vec::new();
        fields.push(FieldDef { name: String::from_str("queries"), contracts: self.queries });
        fields.push(FieldDef { name: String::from_str("mutations"), contracts: self.mutations });
        fields.push(
            FieldDef { name: String::from_str("subscriptions"), contracts: self.subscriptions },
        );
        CompositeDef { name: String::from_str("Procedures"), fields }
    }
}

impl<TExec> ProcedureStore<TExec> {
    /// The set of contracts of a store.
    pub open spec fn contracts(&self) -> ProceduresDefView {
        set_of(
            self.entries(ProcedureKind::Query),
            self.entries(ProcedureKind::Mutation),
            self.entries(ProcedureKind::Subscription),
        )
    }

    /// Gathers the contracts of all registered operations. The store is only
    /// read.
    pub fn export(&self) -> (r: ProceduresDef)
        ensures
            r@ == self.contracts(),
    {
        ProceduresDef::new(
            self.bucket(ProcedureKind::Query).as_slice(),
            self.bucket(ProcedureKind::Mutation).as_slice(),
            self.bucket(ProcedureKind::Subscription).as_slice(),
        )
    }
}

} // verus!
