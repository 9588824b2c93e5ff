use vstd::prelude::*;

verus! {

/// The texts of a list of names.
pub open spec fn names_view(names: Seq<String>) -> Seq<Seq<char>> {
    names.map_values(|n: String| n@)
}

/// Some entry of `names` is `name`.
pub open spec fn names_contain(names: Seq<String>, name: Seq<char>) -> bool {
    names_view(names).contains(name)
}

/// Every entry of `required` is found in `available`.
pub open spec fn names_contain_all(available: Seq<String>, required: Seq<String>) -> bool {
    forall|i: int| 0 <= i < required.len() ==> names_contain(available, (#[trigger] required[i])@)
}

/// `names` with `name` added at the end, unless it is already there.
pub open spec fn add_name(names: Seq<Seq<char>>, name: Seq<char>) -> Seq<Seq<char>> {
    if names.contains(name) {
        names
    } else {
        names.push(name)
    }
}

pub fn contains_name(names: &Vec<String>, name: &String) -> (r: bool)
    ensures
        r == names_contain(names@, name@),
{
    let mut j: usize = 0;
    while j < names.len()
        invariant
            0 <= j <= names@.len(),
            forall|k: int| 0 <= k < j ==> (#[trigger] names@[k])@ != name@,
        decreases names@.len() - j,
    {
        if names[j] == *name {
            assert(names_view(names@)[j as int] == name@);
            return true;
        }
        j = j + 1;
    }
    assert forall|k: int| 0 <= k < names_view(names@).len() implies names_view(names@)[k] != name@ by {
        assert(names@[k]@ != name@);
    }
    false
}

/// Appends `name` unless it is already there, so that a list without
/// repeats stays without repeats.
pub fn push_unique(names: &mut Vec<String>, name: String)
    ensures
        names_view(final(names)@) == add_name(names_view(old(names)@), name@),
{
    if !contains_name(names, &name) {
        let ghost text = name@;
        names.push(name);
        assert(names_view(names@) =~= names_view(old(names)@).push(text));
    }
}

} // verus!
