use vstd::prelude::*;

verus! {

/// The names that survive decoding: `Some` entries in enumeration order,
/// `None` entries dropped silently.
pub open spec fn decoded_names(entries: Seq<Option<String>>) -> Seq<Seq<char>>
    decreases entries.len(),
{
    if entries.len() == 0 {
        Seq::empty()
    } else {
        let rest = decoded_names(entries.drop_last());
        match entries.last() {
            Some(name) => rest.push(name@),
            None => rest,
        }
    }
}

/// The views of a vector of names.
pub open spec fn names_view(names: Seq<String>) -> Seq<Seq<char>> {
    names.map_values(|s: String| s@)
}

/// Keeps the names that decoded, in enumeration order; a directory entry
/// whose name did not decode arrives as `None` and is dropped silently.
pub fn collect_entries(entries: Vec<Option<String>>) -> (r: Vec<String>)
    ensures
        names_view(r@) == decoded_names(entries@),
{
    let mut r: Vec<String> = Vec::new();
    let mut i: usize = 0;
    while i < entries.len()
        invariant
            i <= entries.len(),
            names_view(r@) == decoded_names(entries@.take(i as int)),
        decreases entries@.len() - i,
    {
        match &entries[i] {
            Some(name) => {
                r.push(name.clone());
            },
            None => {},
        }
        proof {
            assert(entries@.take(i + 1).drop_last() =~= entries@.take(i as int));
            assert(entries@.take(i + 1).last() == entries@[i as int]);
            assert(names_view(r@) =~= decoded_names(entries@.take(i + 1)));
        }
        i = i + 1;
    }
    proof {
        assert(entries@.take(entries@.len() as int) =~= entries@);
    }
    r
}

/// Law: when every entry decodes, the listing is exactly those names, in
/// order, and nothing else.
pub proof fn lemma_all_names_kept(entries: Seq<Option<String>>)
    requires
        forall|j: int| 0 <= j < entries.len() ==> entries[j] is Some,
    ensures
        decoded_names(entries).len() == entries.len(),
        forall|j: int|
            0 <= j < entries.len() ==> decoded_names(entries)[j] == entries[j]->Some_0@,
    decreases entries.len(),
{
    if entries.len() > 0 {
        lemma_all_names_kept(entries.drop_last());
    }
}

} // verus!
