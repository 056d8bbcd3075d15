//! The registry: three buckets of operations, one for each kind, filled in
//! registration order.

use crate::names::{is_reserved, is_reserved_name};
use crate::procedure::{derive_of, ProcedureDef, ProcedureTodo, TypeExportError};
use specta::DataType;
use vstd::prelude::*;

verus! {

/// The kind of an operation.
#[derive(Debug, Clone, Copy, PartialEq, Eq, Structural)]
pub enum ProcedureKind {
    Query,
    Mutation,
    Subscription,
}

/// Why an operation was not registered.
#[derive(Debug, Clone, Copy, PartialEq, Eq, Structural)]
pub enum RegisterError {
    /// The name is empty, the control channel's, or under a framework prefix.
    ReservedName,
    /// The name is already taken.
    DuplicateOperation,
}

/// Why an operation was not built.
#[derive(Debug)]
pub enum BuildError {
    /// One of its types could not be described.
    TypeExport(TypeExportError),
    /// Its name was refused.
    Register(RegisterError),
}

/// Whether some entry of `bucket` is called `key`.
pub open spec fn has_key<TExec>(bucket: Seq<ProcedureTodo<TExec>>, key: Seq<char>) -> bool {
    exists|i: int| 0 <= i < bucket.len() && (#[trigger] bucket[i]).ty.key@ == key
}

/// No entry of `bucket` has a reserved name or the tuple of zero elements as
/// its input, and no two share a name.
pub open spec fn bucket_wf<TExec>(bucket: Seq<ProcedureTodo<TExec>>) -> bool {
    &&& forall|i: int| 0 <= i < bucket.len() ==> !is_reserved((#[trigger] bucket[i]).ty.key@)
    &&& forall|i: int| 0 <= i < bucket.len() ==> (#[trigger] bucket[i]).ty.wf()
    &&& forall|i: int, j: int|
        0 <= i < j < bucket.len() ==> (#[trigger] bucket[i]).ty.key@ != (
        #[trigger] bucket[j]).ty.key@
}

/// No name occurs in both buckets.
pub open spec fn disjoint<TExec>(
    a: Seq<ProcedureTodo<TExec>>,
    b: Seq<ProcedureTodo<TExec>>,
) -> bool {
    forall|i: int, j: int|
        0 <= i < a.len() && 0 <= j < b.len() ==> (#[trigger] a[i]).ty.key@ != (#[trigger] b[j]).ty.key@
}

/// The operations of a server. A name is unique within its kind; a store
/// made with `with_global_names` keeps names unique across all kinds.
pub struct ProcedureStore<TExec> {
    queries: Vec<ProcedureTodo<TExec>>,
    mutations: Vec<ProcedureTodo<TExec>>,
    subscriptions: Vec<ProcedureTodo<TExec>>,
    global_names: bool,
}

impl<TExec> ProcedureStore<TExec> {
    /// The entries of one kind, oldest first.
    pub closed spec fn entries(&self, kind: ProcedureKind) -> Seq<ProcedureTodo<TExec>> {
        match kind {
            ProcedureKind::Query => self.queries@,
            ProcedureKind::Mutation => self.mutations@,
            ProcedureKind::Subscription => self.subscriptions@,
        }
    }

    /// Whether names are unique across kinds.
    pub closed spec fn global_names(&self) -> bool {
        self.global_names
    }

    /// The invariant of the store: no name in it is reserved, no contract in
    /// it has the tuple of zero elements as its input, no two entries of a
    /// kind share a name, and none of different kinds do where names are
    /// unique across kinds.
    pub open spec fn wf(&self) -> bool {
        &&& bucket_wf(self.entries(ProcedureKind::Query))
        &&& bucket_wf(self.entries(ProcedureKind::Mutation))
        &&& bucket_wf(self.entries(ProcedureKind::Subscription))
        &&& self.global_names() ==> {
            &&& disjoint(self.entries(ProcedureKind::Query), self.entries(ProcedureKind::Mutation))
            &&& disjoint(
                self.entries(ProcedureKind::Query),
                self.entries(ProcedureKind::Subscription),
            )
            &&& disjoint(
                self.entries(ProcedureKind::Mutation),
                self.entries(ProcedureKind::Subscription),
            )
        }
    }

    /// Whether an operation of kind `kind` can no longer be called `key`.
    pub open spec fn is_taken(&self, kind: ProcedureKind, key: Seq<char>) -> bool {
        if self.global_names() {
            ||| has_key(self.entries(ProcedureKind::Query), key)
            ||| has_key(self.entries(ProcedureKind::Mutation), key)
            ||| has_key(self.entries(ProcedureKind::Subscription), key)
        } else {
            has_key(self.entries(kind), key)
        }
    }

    /// What registering an operation called `key` gives.
    pub open spec fn outcome(&self, kind: ProcedureKind, key: Seq<char>) -> Result<
        (),
        RegisterError,
    > {
        if is_reserved(key) {
            Err(RegisterError::ReservedName)
        } else if self.is_taken(kind, key) {
            Err(RegisterError::DuplicateOperation)
        } else {
            Ok(())
        }
    }

    /// Whether this store is `before` with `entry` added at the end of the
    /// bucket of `kind`, and nothing else changed.
    pub open spec fn extends(
        &self,
        before: Self,
        kind: ProcedureKind,
        entry: ProcedureTodo<TExec>,
    ) -> bool {
        &&& self.global_names() == before.global_names()
        &&& self.entries(kind) == before.entries(kind).push(entry)
        &&& forall|other: ProcedureKind|
            other != kind ==> #[trigger] self.entries(other) == before.entries(other)
    }

    /// A reserved name is refused as such, whatever the kind of the
    /// operation and whatever the store holds.
    pub proof fn lemma_reserved_name_refused(self, kind: ProcedureKind, key: Seq<char>)
        requires
            is_reserved(key),
        ensures
            self.outcome(kind, key) == Err::<(), RegisterError>(RegisterError::ReservedName),
    {
    }

    /// After an operation has been registered, a second one of the same name
    /// and kind is refused as a duplicate. One of the same name and another
    /// kind is refused as a duplicate too where names are unique across
    /// kinds. Where they are not, it is treated as it was before the first
    /// registration: it is accepted unless its own bucket holds the name.
    pub proof fn lemma_second_registration(
        self,
        before: Self,
        kind: ProcedureKind,
        entry: ProcedureTodo<TExec>,
        other: ProcedureKind,
    )
        requires
            before.outcome(kind, entry.ty.key@) is Ok,
            self.extends(before, kind, entry),
        ensures
            self.outcome(kind, entry.ty.key@) == Err::<(), RegisterError>(
                RegisterError::DuplicateOperation,
            ),
            other != kind && self.global_names() ==> self.outcome(other, entry.ty.key@) == Err::<
                (),
                RegisterError,
            >(RegisterError::DuplicateOperation),
            other != kind && !self.global_names() ==> self.outcome(other, entry.ty.key@)
                == before.outcome(other, entry.ty.key@),
            other != kind && !self.global_names() && !has_key(
                before.entries(other),
                entry.ty.key@,
            ) ==> self.outcome(other, entry.ty.key@) is Ok,
    {
        let bucket = self.entries(kind);
        assert(bucket[bucket.len() - 1] == entry);
        assert(has_key(bucket, entry.ty.key@));
        if other != kind {
            assert(self.entries(other) == before.entries(other));
        }
    }

    /// Registering keeps every entry that was there, at its place.
    pub proof fn lemma_registration_keeps_entries(
        self,
        before: Self,
        kind: ProcedureKind,
        entry: ProcedureTodo<TExec>,
        other: ProcedureKind,
        i: int,
    )
        requires
            self.extends(before, kind, entry),
            0 <= i < before.entries(other).len(),
        ensures
            i < self.entries(other).len(),
            self.entries(other)[i] == before.entries(other)[i],
    {
        if other != kind {
            assert(self.entries(other) == before.entries(other));
        }
    }

    /// An empty store in which a query and a mutation may share a name.
    pub fn new() -> (r: Self)
        ensures
            r.wf(),
            !r.global_names(),
            forall|kind: ProcedureKind| (#[trigger] r.entries(kind)).len() == 0,
    {
        ProcedureStore {
            queries: Vec::new(),
            mutations: Vec::new(),
            subscriptions: Vec::new(),
            global_names: false,
        }
    }

    /// An empty store in which a name is taken for all kinds at once.
    pub fn with_global_names() -> (r: Self)
        ensures
            r.wf(),
            r.global_names(),
            forall|kind: ProcedureKind| (#[trigger] r.entries(kind)).len() == 0,
    {
        ProcedureStore {
            queries: Vec::new(),
            mutations: Vec::new(),
            subscriptions: Vec::new(),
            global_names: true,
        }
    }

    /// The entries of one kind, oldest first.
    pub fn bucket(&self, kind: ProcedureKind) -> (r: &Vec<ProcedureTodo<TExec>>)
        ensures
            r@ == self.entries(kind),
    {
        match kind {
            ProcedureKind::Query => &self.queries,
            ProcedureKind::Mutation => &self.mutations,
            ProcedureKind::Subscription => &self.subscriptions,
        }
    }

    /// Decides whether an operation of kind `kind` can no longer be called
    /// `key`.
    pub fn contains_key(&self, kind: ProcedureKind, key: &String) -> (r: bool)
        ensures
            r == self.is_taken(kind, key@),
    {
        if self.global_names {
            find_key(&self.queries, key) || find_key(&self.mutations, key) || find_key(
                &self.subscriptions,
                key,
            )
        } else {
            find_key(self.bucket(kind), key)
        }
    }

    /// Registers an operation under the name of its contract, at the end of
    /// the bucket of its kind. A reserved name is refused first, then a name
    /// that is taken; a refused registration leaves the store as it was. The
    /// contract is one that `ProcedureDef::from_tys` made, or obeys the same
    /// rule on its input.
    pub fn register(&mut self, kind: ProcedureKind, executor: TExec, ty: ProcedureDef) -> (r:
        Result<(), RegisterError>)
        requires
            old(self).wf(),
            ty.wf(),
        ensures
            final(self).wf(),
            final(self).global_names() == old(self).global_names(),
            r == old(self).outcome(kind, ty.key@),
            r is Ok ==> final(self).extends(*old(self), kind, ProcedureTodo { executor, ty }),
            r is Err ==> forall|other: ProcedureKind| #[trigger]
                final(self).entries(other) == old(self).entries(other),
    {
        if is_reserved_name(ty.key.as_str()) {
            return Err(RegisterError::ReservedName);
        }
        if self.contains_key(kind, &ty.key) {
            return Err(RegisterError::DuplicateOperation);
        }
        let entry = ProcedureTodo { executor, ty };
        match kind {
            ProcedureKind::Query => self.queries.push(entry),
            ProcedureKind::Mutation => self.mutations.push(entry),
            ProcedureKind::Subscription => self.subscriptions.push(entry),
        }
        Ok(())
    }

    /// Derives the contract of the operation `key` from the outcomes of
    /// describing its types, and registers the operation. A type that could
    /// not be described is reported first, then a reserved name, then a name
    /// that is taken; an operation that is not built leaves the store as it
    /// was.
    pub fn build(
        &mut self,
        key: String,
        kind: ProcedureKind,
        executor: TExec,
        arg: Result<DataType, TypeExportError>,
        result: Result<DataType, TypeExportError>,
        error: Result<DataType, TypeExportError>,
    ) -> (r: Result<(), BuildError>)
        requires
            old(self).wf(),
        ensures
            final(self).wf(),
            final(self).global_names() == old(self).global_names(),
            derive_of(key@, arg, result, error) matches Err(message) ==> (r matches Err(
                BuildError::TypeExport(e),
            ) && e@ == message),
            derive_of(key@, arg, result, error) is Ok ==> (old(self).outcome(kind, key@) matches Err(
                e,
            ) ==> r == Err::<(), BuildError>(BuildError::Register(e))),
            derive_of(key@, arg, result, error) matches Ok(contract) ==> (old(self).outcome(
                kind,
                key@,
            ) is Ok ==> {
                let entry = final(self).entries(kind).last();
                &&& r is Ok
                &&& final(self).extends(*old(self), kind, entry)
                &&& entry.executor == executor
                &&& entry.ty@ == contract
                &&& entry.ty.wf()
            }),
            r is Err ==> forall|other: ProcedureKind| #[trigger]
                final(self).entries(other) == old(self).entries(other),
    {
        let ty = match ProcedureDef::from_tys(key, arg, result, error) {
            Ok(ty) => ty,
            Err(e) => {
                return Err(BuildError::TypeExport(e));
            },
        };
        match self.register(kind, executor, ty) {
            Ok(()) => Ok(()),
            Err(e) => Err(BuildError::Register(e)),
        }
    }
}

/// Searches a bucket for a name.
fn find_key<TExec>(bucket: &Vec<ProcedureTodo<TExec>>, key: &String) -> (r: bool)
    ensures
        r == has_key(bucket@, key@),
{
    let mut i: usize = 0;
    while i < bucket.len()
        invariant
            i <= bucket.len(),
            forall|j: int| 0 <= j < i ==> (#[trigger] bucket@[j]).ty.key@ != key@,
        decreases bucket.len() - i,
    {
        if bucket[i].ty.key == *key {
            return true;
        }
        i += 1;
    }
    false
}

} // verus!
