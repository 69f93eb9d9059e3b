//! The members of a flat JSON object, in the order they are written.

use vstd::prelude::*;
use vstd::string::*;

verus! {

/// One member of a JSON object: a key and the string it holds.
#[derive(Debug, Clone)]
pub struct Field {
    pub name: String,
    pub value: String,
}

/// The members as pairs of key and text.
pub open spec fn members(fields: Seq<Field>) -> Seq<(Seq<char>, Seq<char>)> {
    Seq::new(fields.len(), |i: int| (fields[i].name@, fields[i].value@))
}

/// Whether one of the members has the key `name`.
pub open spec fn has_key(object: Seq<(Seq<char>, Seq<char>)>, name: Seq<char>) -> bool {
    exists|i: int| 0 <= i < object.len() && (#[trigger] object[i]).0 == name
}

/// A member with the given key and a copy of the given text.
pub fn field(name: &str, value: &str) -> (f: Field)
    ensures
        f.name@ == name@,
        f.value@ == value@,
{
    Field { name: String::from_str(name), value: String::from_str(value) }
}

} // verus!
