//! Types of the `toml` crate that pass through the library unopened.
//! Nothing is known of a value of these types but what the functions that
//! handle it say.

use vstd::prelude::*;

verus! {

/// `toml::Value`, a value of a document. It occurs only as what a table
/// holds.
#[verifier::external_type_specification]
#[verifier::external_body]
pub struct ExValue(toml::Value);

/// `toml::map::Map`, the table of a document.
#[verifier::external_type_specification]
#[verifier::external_body]
#[verifier::reject_recursive_types(K)]
#[verifier::reject_recursive_types(V)]
pub struct ExTable<K, V>(toml::map::Map<K, V>);

/// `toml::de::Error`, the reason why a text is no document.
#[verifier::external_type_specification]
#[verifier::external_body]
pub struct ExParseError(toml::de::Error);

} // verus!
