//! Messages on the wire: a message travels as an object whose members are
//! strings.

use vstd::prelude::*;

verus! {

/// Whether two strings are the same text.
pub fn same_text(a: &str, b: &str) -> (same: bool)
    ensures
        same == (a@ == b@),
{
    a.to_owned() == b.to_owned()
}

/// One member of the object that carries a message on the wire: a name and
/// a string.
#[derive(Debug, PartialEq, Eq)]
pub struct Field {
    pub name: String,
    pub value: String,
}

impl View for Field {
    type V = (Seq<char>, Seq<char>);

    open spec fn view(&self) -> (Seq<char>, Seq<char>) {
        (self.name@, self.value@)
    }
}

impl Field {
    /// The member with the given name and value.
    pub fn new(name: &str, value: &str) -> (field: Field)
        ensures
            field@ == (name@, value@),
    {
        Field { name: name.to_owned(), value: value.to_owned() }
    }
}

/// The members that a list of fields stands for, in its order.
pub open spec fn members(fields: Seq<Field>) -> Seq<(Seq<char>, Seq<char>)> {
    fields.map_values(|field: Field| field@)
}

/// The value of the first member with the given name, if there is one.
pub open spec fn member(fields: Seq<(Seq<char>, Seq<char>)>, name: Seq<char>) -> Option<Seq<char>>
    decreases fields.len(),
{
    if fields.len() == 0 {
        None
    } else if fields[0].0 == name {
        Some(fields[0].1)
    } else {
        member(fields.drop_first(), name)
    }
}

/// Looks up the value of the first member with the given name.
pub fn find<'a>(fields: &'a Vec<Field>, name: &str) -> (value: Option<&'a str>)
    ensures
        match member(members(fields@), name@) {
            Some(text) => value is Some && value->0@ == text,
            None => value is None,
        },
{
    let ghost all = members(fields@);
    let mut i: usize = 0;
    assert(all.skip(0) =~= all);
    while i < fields.len()
        invariant
            i <= fields.len(),
            all == members(fields@),
            member(all, name@) == member(all.skip(i as int), name@),
        decreases fields.len() - i,
    {
        proof {
            assert(all.skip(i as int)[0] == fields@[i as int]@);
            assert(all.skip(i as int).drop_first() =~= all.skip(i + 1));
        }
        if same_text(fields[i].name.as_str(), name) {
            return Some(fields[i].value.as_str());
        }
        i += 1;
    }
    assert(all.skip(i as int).len() == 0);
    None
}

} // verus!
