//! The host's types of values, and the names that it prints for them.
//!
//! A `nu_protocol::Type` is what the host says a value is. The library makes
//! the few types that it speaks of, and reads a type only by its printed name.
//! What is said here of the host's code is taken on trust from its source;
//! nothing in this module is proved.

use nu_protocol::Type;
use vstd::prelude::*;

verus! {

/// `nu_protocol::Type`, the host's description of a value's type. Its inside
/// is not read here.
#[verifier::external_type_specification]
#[verifier::external_body]
pub struct ExType(nu_protocol::Type);

/// The text that the `Display` of `nu_protocol::Type` writes for a type, which
/// is what `to_string` returns for it.
pub uninterp spec fn printed(ty: Type) -> Seq<char>;

/// Calls `to_string` on a `nu_protocol::Type`. Trusted: the result is the
/// type's printed name.
#[verifier::external_body]
pub(crate) fn type_to_string(ty: &Type) -> (name: String)
    ensures
        name@ == printed(*ty),
{
    ty.to_string()
}

/// Makes `Type::Custom` of the given name. Trusted: `Display` writes a custom
/// type as its name and nothing else.
#[verifier::external_body]
pub(crate) fn custom_type(name: &str) -> (ty: Type)
    ensures
        printed(ty) == name@,
{
    Type::Custom(name.into())
}

/// Makes `Type::List` of the given type. Trusted: `Display` writes a list as
/// `list<`, then its item type, then `>`.
#[verifier::external_body]
pub(crate) fn list_type(item: Type) -> (ty: Type)
    ensures
        printed(ty) == "list<"@ + printed(item) + ">"@,
{
    Type::List(Box::new(item))
}

/// Makes `Type::Number`. Trusted: `Display` writes it as `number`.
#[verifier::external_body]
pub(crate) fn number_type() -> (ty: Type)
    ensures
        printed(ty) == "number"@,
{
    Type::Number
}

/// Makes `Type::Float`. Trusted: `Display` writes it as `float`.
#[verifier::external_body]
pub(crate) fn float_type() -> (ty: Type)
    ensures
        printed(ty) == "float"@,
{
    Type::Float
}

/// Makes `Type::Range`. Trusted: `Display` writes it as `range`.
#[verifier::external_body]
pub(crate) fn range_type() -> (ty: Type)
    ensures
        printed(ty) == "range"@,
{
    Type::Range
}

} // verus!
