//! Small data-modeling library behind two console demonstration programs:
//! one for value and composite types (bindings, positional triples, arrays
//! walked by index), one for record types (a named-field student record and
//! an unlabeled integer triple).

pub mod records;
pub mod values;
