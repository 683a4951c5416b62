use vstd::prelude::*;

verus! {

/// The value of an optional string.
pub open spec fn text_opt(o: Option<String>) -> Option<Seq<char>> {
    match o {
        Some(s) => Some(s@),
        None => None,
    }
}

/// The value of an optional byte string.
pub open spec fn bytes_opt(o: Option<Vec<u8>>) -> Option<Seq<u8>> {
    match o {
        Some(b) => Some(b@),
        None => None,
    }
}

/// The identities that occur in a list.
pub open spec fn identity_set(list: Seq<Seq<char>>) -> Set<Seq<char>> {
    Set::new(|a: Seq<char>| list.contains(a))
}

/// An independent copy of an optional string.
pub fn duplicate_text_opt(o: &Option<String>) -> (res: Option<String>)
    ensures
        text_opt(res) == text_opt(*o),
{
    match o {
        Some(s) => Some(s.clone()),
        None => None,
    }
}

} // verus!
