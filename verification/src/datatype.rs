//! The type descriptions that contracts are made of.
//!
//! A description is a `specta::DataType`. Verus sees nothing inside such a
//! value, so the few things this crate needs from one are named here and
//! obtained through small trusted functions.

use specta::DataType;
use specta::Type;
use specta::TypeMap;
use std::convert::Infallible;
use vstd::prelude::*;

verus! {

/// `specta::DataType`, carried through this crate as an opaque value.
#[verifier::external_type_specification]
#[verifier::external_body]
pub struct ExDataType(specta::DataType);

/// What this crate tells apart in a description.
#[derive(Debug, Clone, Copy, PartialEq, Eq, Structural)]
pub enum Shape {
    /// An ordered tuple, with the number of its elements.
    Tuple(usize),
    /// A record, with or without fields.
    Struct,
    /// A union, with the number of its variants.
    Enum(usize),
    /// Anything else.
    Other,
}

/// The shape of a description: which of `DataType::Tuple`,
/// `DataType::Struct` and `DataType::Enum` it is, if any, with the number of
/// elements of a tuple and of variants of an enum.
pub uninterp spec fn shape_of(ty: DataType) -> Shape;

/// What `specta` describes `std::convert::Infallible` as, given the
/// descriptions that stand for generic parameters.
pub uninterp spec fn infallible_type(generics: Seq<DataType>) -> DataType;

/// Reads the shape of a description.
///
/// Trusted: tells `DataType::Tuple`, `DataType::Struct` and `DataType::Enum`
/// from each other and from the other variants, and takes the length of
/// `TupleType::elements` and of `EnumType::variants`.
#[verifier::external_body]
fn read_shape(ty: &DataType) -> (r: Shape)
    ensures
        r == shape_of(*ty),
{
    match ty {
        DataType::Tuple(tuple) => Shape::Tuple(tuple.elements().len()),
        DataType::Struct(_) => Shape::Struct,
        DataType::Enum(union) => Shape::Enum(union.variants().len()),
        _ => Shape::Other,
    }
}

/// Asks `specta` for its description of `std::convert::Infallible`.
///
/// Trusted: calls `<Infallible as specta::Type>::inline` on a fresh
/// `TypeMap`. The description is an enum without variants.
#[verifier::external_body]
fn inline_infallible(generics: &Vec<DataType>) -> (r: DataType)
    ensures
        r == infallible_type(generics@),
        shape_of(r) == Shape::Enum(0),
{
    <Infallible as Type>::inline(&mut TypeMap::default(), generics.as_slice())
}

/// Copies a description.
///
/// Trusted: calls `<DataType as Clone>::clone`, which `specta` derives, so
/// the copy is the same description.
#[verifier::external_body]
pub(crate) fn clone_type(ty: &DataType) -> (r: DataType)
    ensures
        r == *ty,
{
    ty.clone()
}

/// The number of elements of a description that is an ordered tuple, and
/// `None` for every other description.
pub open spec fn tuple_arity(ty: DataType) -> Option<usize> {
    match shape_of(ty) {
        Shape::Tuple(n) => Some(n),
        _ => None,
    }
}

/// Whether a description is structurally the tuple of zero elements.
pub open spec fn is_empty_tuple(ty: DataType) -> bool {
    shape_of(ty) == Shape::Tuple(0)
}

/// Whether a description is a record.
pub open spec fn is_record(ty: DataType) -> bool {
    shape_of(ty) == Shape::Struct
}

/// The description that stands for "no value can be here": the marker an
/// operation carries as its input when it takes no argument.
pub open spec fn never_type() -> DataType {
    infallible_type(Seq::empty())
}

/// Whether a description has the shape of the marker: a union without
/// variants, which no value has. Such a description is no tuple and no
/// record.
pub open spec fn is_uninhabited(ty: DataType) -> bool {
    shape_of(ty) == Shape::Enum(0)
}

/// Builds the uninhabited-type marker. It is the same description on every
/// call, and differs from every tuple and from every record.
pub fn never() -> (r: DataType)
    ensures
        r == never_type(),
        is_uninhabited(r),
        tuple_arity(r) is None,
        !is_empty_tuple(r),
        !is_record(r),
        forall|other: DataType|
            (#[trigger] shape_of(other)) is Tuple || is_record(other) ==> other != r,
{
    let generics: Vec<DataType> = Vec::new();
    inline_infallible(&generics)
}

/// Decides whether `ty` describes the tuple of zero elements.
pub fn check_empty_tuple(ty: &DataType) -> (r: bool)
    ensures
        r == is_empty_tuple(*ty),
{
    match read_shape(ty) {
        Shape::Tuple(n) => n == 0,
        _ => false,
    }
}

/// Decides whether `ty` describes a record, with or without fields.
pub fn check_record(ty: &DataType) -> (r: bool)
    ensures
        r == is_record(*ty),
{
    match read_shape(ty) {
        Shape::Struct => true,
        _ => false,
    }
}

/// Decides whether `ty` has the shape of the marker: a union without
/// variants.
pub fn check_uninhabited(ty: &DataType) -> (r: bool)
    ensures
        r == is_uninhabited(*ty),
{
    match read_shape(ty) {
        Shape::Enum(n) => n == 0,
        _ => false,
    }
}

} // verus!
