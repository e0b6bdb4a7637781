//! The state document attribute, from the struct's source and the
//! attribute's arguments to the checked document.

use vstd::prelude::*;
use crate::args::{parsed_args, Args};
use crate::derive_input::{DocumentStruct, DocumentStructInput};
use crate::source::{document_checked, document_input_read, parse_struct, parsed_struct, read_document, reading_errors, SourceError};

verus! {

/// The checked document and the arguments for a state document: the
/// attribute's arguments `args` are parsed, then syn parses `source`, the
/// derive's options are read and the struct is checked.
pub fn create(source: &str, args: &str) -> (res: Result<(DocumentStruct, Args), SourceError>)
    ensures
        match parsed_args(args@) {
            None => res matches Err(SourceError::Args(_)),
            Some(b) => match parsed_struct(source@) {
                None => res matches Err(SourceError::Syntax),
                Some(p) => if reading_errors(p, true).len() != 0 {
                    res matches Err(SourceError::Derive(e)) && e@ == reading_errors(p, true)
                } else {
                    exists|own: DocumentStructInput|
                        document_input_read(own, p) && document_checked(
                            match res {
                                Ok((s, _)) => Ok(s),
                                Err(e) => Err(e),
                            },
                            own,
                        ) && (res matches Ok((_, a)) ==> a.impl_eq == b)
                },
            },
        },
{
    let a = match Args::parse(args) {
        Ok(a) => a,
        Err(e) => {
            return Err(SourceError::Args(e));
        },
    };
    let p = match parse_struct(source) {
        Some(p) => p,
        None => {
            return Err(SourceError::Syntax);
        },
    };
    let own = match read_document(p) {
        Ok(own) => own,
        Err(e) => {
            return Err(SourceError::Derive(e));
        },
    };
    let ghost own0 = own;
    let checked = match DocumentStruct::from_input(own) {
        Ok(s) => Ok(s),
        Err(e) => Err(SourceError::Derive(e)),
    };
    assert(document_input_read(own0, p) && document_checked(checked, own0));
    match checked {
        Ok(s) => Ok((s, a)),
        Err(e) => Err(e),
    }
}

} // verus!
