use crate::catalog::{lookup_in, standard_entries, standard_keys, Catalog};
use crate::form::{payload_of, FormState};
use vstd::prelude::*;

verus! {

proof fn lemma_standard_keys_differ()
    ensures
        standard_keys()[0] != standard_keys()[1],
        standard_keys()[0] != standard_keys()[2],
        standard_keys()[1] != standard_keys()[2],
        standard_entries().len() == 3,
        forall|i: int| 0 <= i < 3 ==> #[trigger] standard_entries()[i].0 == standard_keys()[i],
{
    reveal_strlit("Ocean Grind");
    reveal_strlit("Seven Seeds");
    reveal_strlit("Inglewood");
    let k = standard_keys();
    assert(k[0][0] != k[1][0] && k[0][0] != k[2][0] && k[1][0] != k[2][0]);
}

/// Selecting any coffee that the standard catalog offers and submitting yields a payload
/// whose coffee is exactly that key's catalog entry, with every other field taken from
/// the form.
pub proof fn lemma_offered_coffee_resolves(c: Catalog, f: FormState, i: int)
    requires
        c.entries_view() == standard_entries(),
        0 <= i < standard_keys().len(),
        f.coffee@ == standard_keys()[i],
    ensures
        c.lookup(f.coffee@) == Some(standard_entries()[i].1),
        payload_of(f, standard_entries()[i].1).coffee == standard_entries()[i].1,
{
    lemma_standard_keys_differ();
    reveal_with_fuel(lookup_in, 4);
    let e = standard_entries();
    assert(e.drop_first()[0] == e[1]);
    assert(e.drop_first().drop_first()[0] == e[2]);
}

/// A coffee key that the standard catalog does not offer resolves to nothing, so a
/// submission with it selected is refused rather than sent.
pub proof fn lemma_unknown_coffee_rejected(c: Catalog, key: Seq<char>)
    requires
        c.entries_view() == standard_entries(),
        !standard_keys().contains(key),
    ensures
        c.lookup(key).is_none(),
{
    lemma_standard_keys_differ();
    reveal_with_fuel(lookup_in, 4);
    let e = standard_entries();
    assert(standard_keys()[0] != key);
    assert(standard_keys()[1] != key);
    assert(standard_keys()[2] != key);
    assert(e.drop_first()[0] == e[1]);
    assert(e.drop_first().drop_first()[0] == e[2]);
    assert(e.drop_first().drop_first().drop_first().len() == 0);
}

} // verus!
