//! The contract of one operation, and the entry that pairs it with what runs
//! the operation.

use crate::datatype::{
    check_empty_tuple, clone_type, is_empty_tuple, is_record, is_uninhabited, never, never_type,
    tuple_arity,
};
use specta::DataType;
use vstd::prelude::*;

verus! {

/// A type of an operation could not be described.
#[derive(Debug)]
pub struct TypeExportError {
    /// What the reflection reported.
    pub message: String,
}

impl View for TypeExportError {
    type V = Seq<char>;

    open spec fn view(&self) -> Seq<char> {
        self.message@
    }
}

/// The contract of one operation: its name and the descriptions of its
/// argument, its successful result and its error.
#[derive(Debug)]
pub struct ProcedureDef {
    pub key: String,
    pub input: DataType,
    pub result: DataType,
    pub error: DataType,
}

/// A contract as a mathematical value.
pub struct ProcedureDefView {
    pub key: Seq<char>,
    pub input: DataType,
    pub result: DataType,
    pub error: DataType,
}

impl View for ProcedureDef {
    type V = ProcedureDefView;

    open spec fn view(&self) -> ProcedureDefView {
        ProcedureDefView {
            key: self.key@,
            input: self.input,
            result: self.result,
            error: self.error,
        }
    }
}

/// The description a contract carries as its input when the argument type
/// was described as `arg`: the uninhabited-type marker in place of the tuple
/// of zero elements, and `arg` itself otherwise.
pub open spec fn input_of(arg: DataType) -> DataType {
    if is_empty_tuple(arg) {
        never_type()
    } else {
        arg
    }
}

/// The contract made of a name and three descriptions.
pub open spec fn contract_of(
    key: Seq<char>,
    arg: DataType,
    result: DataType,
    error: DataType,
) -> ProcedureDefView {
    ProcedureDefView { key, input: input_of(arg), result, error }
}

/// What deriving a contract gives for each outcome of describing the three
/// types: the first failure in the order argument, result, error, and the
/// contract when there is none.
pub open spec fn derive_of(
    key: Seq<char>,
    arg: Result<DataType, TypeExportError>,
    result: Result<DataType, TypeExportError>,
    error: Result<DataType, TypeExportError>,
) -> Result<ProcedureDefView, Seq<char>> {
    match (arg, result, error) {
        (Err(e), _, _) => Err(e@),
        (Ok(_), Err(e), _) => Err(e@),
        (Ok(_), Ok(_), Err(e)) => Err(e@),
        (Ok(a), Ok(r), Ok(e)) => Ok(contract_of(key, a, r, e)),
    }
}

/// The outcome of a derivation as a mathematical value.
pub open spec fn derived_view(r: Result<ProcedureDef, TypeExportError>) -> Result<
    ProcedureDefView,
    Seq<char>,
> {
    match r {
        Ok(def) => Ok(def@),
        Err(e) => Err(e@),
    }
}

/// Rewrites the description of an argument type into the input of a
/// contract. In place of the tuple of zero elements stands the marker, which
/// is no tuple and no record; every other description is handed back.
pub fn input_from(arg: DataType) -> (r: DataType)
    ensures
        r == input_of(arg),
        !is_empty_tuple(r),
        is_empty_tuple(arg) ==> is_uninhabited(r) && tuple_arity(r) is None && !is_record(r),
{
    if check_empty_tuple(&arg) {
        never()
    } else {
        arg
    }
}

impl ProcedureDef {
    /// A contract never has the tuple of zero elements as its input.
    pub open spec fn wf(&self) -> bool {
        !is_empty_tuple(self.input)
    }

    /// Derives the contract of the operation `key` from the outcomes of
    /// describing its argument, result and error types.
    pub fn from_tys(
        key: String,
        arg: Result<DataType, TypeExportError>,
        result: Result<DataType, TypeExportError>,
        error: Result<DataType, TypeExportError>,
    ) -> (r: Result<ProcedureDef, TypeExportError>)
        ensures
            derived_view(r) == derive_of(key@, arg, result, error),
            r matches Ok(def) ==> def.wf(),
            r matches Ok(def) ==> (arg matches Ok(a) && is_empty_tuple(a) ==> is_uninhabited(
                def.input,
            ) && tuple_arity(def.input) is None && !is_record(def.input)),
    {
        let arg = match arg {
            Ok(ty) => ty,
            Err(e) => {
                return Err(e);
            },
        };
        let result = match result {
            Ok(ty) => ty,
            Err(e) => {
                return Err(e);
            },
        };
        let error = match error {
            Ok(ty) => ty,
            Err(e) => {
                return Err(e);
            },
        };
        Ok(ProcedureDef { key, input: input_from(arg), result, error })
    }
}

impl Clone for ProcedureDef {
    fn clone(&self) -> (r: Self)
        ensures
            r == *self,
    {
        ProcedureDef {
            key: self.key.clone(),
            input: clone_type(&self.input),
            result: clone_type(&self.result),
            error: clone_type(&self.error),
        }
    }
}

/// One registered operation: what runs it, and its contract. The registry
/// stores and moves `executor` and never looks into it.
pub struct ProcedureTodo<TExec> {
    pub executor: TExec,
    pub ty: ProcedureDef,
}

impl<TExec> ProcedureTodo<TExec> {
    /// The contract of the operation.
    pub fn ty(&self) -> (r: &ProcedureDef)
        ensures
            *r == self.ty,
    {
        &self.ty
    }
}

} // verus!
