//! The type parameters that a script invocation carries.

use move_core_types::language_storage::TypeTag;
use vstd::prelude::*;

verus! {

/// `move_core_types::language_storage::TypeTag`, the tag of a Move type. The library hands
/// values of it on and never looks inside, so nothing is claimed of its contents.
#[verifier::external_type_specification]
#[verifier::external_body]
pub struct ExTypeTag(move_core_types::language_storage::TypeTag);

/// `TypeTag::clone`, which the crate derives: the clone is the same tag.
pub assume_specification[ <TypeTag as Clone>::clone ](tag: &TypeTag) -> (copy: TypeTag)
    ensures
        copy == *tag,
;

} // verus!
