//! The entity derive, from the struct's source to the checked entity.

use vstd::prelude::*;
use crate::derive_input::{entity_with_common, EntityStruct, EntityStructInput};
use crate::source::{entity_checked, entity_input_read, from_derive_input, parse_struct, parsed_struct, reading_errors, SourceError};

verus! {

/// The checked entity for the struct whose source is `source`: syn parses
/// it, the derive's options are read, the common fields are put before the
/// struct's own, and the struct is checked.
pub fn create(source: &str) -> (res: Result<EntityStruct, SourceError>)
    ensures
        match parsed_struct(source@) {
            None => res matches Err(SourceError::Syntax),
            Some(p) => if reading_errors(p, false).len() != 0 {
                res matches Err(SourceError::Derive(e)) && e@ == reading_errors(p, false)
            } else {
                exists|own: EntityStructInput, full: EntityStructInput|
                    entity_input_read(own, p) && entity_with_common(full, own) && entity_checked(res, full)
            },
        },
{
    let p = match parse_struct(source) {
        Some(p) => p,
        None => {
            return Err(SourceError::Syntax);
        },
    };
    let full = match from_derive_input(p) {
        Ok(full) => full,
        Err(e) => {
            return Err(SourceError::Derive(e));
        },
    };
    let ghost full0 = full;
    let res = match EntityStruct::from_input(full) {
        Ok(s) => Ok(s),
        Err(e) => Err(SourceError::Derive(e)),
    };
    assert(entity_checked(res, full0));
    res
}

} // verus!
