//! Mappings from a name, kept as lists of pairs.
//!
//! A list stands for a mapping where no name occurs twice in it. Setting a
//! name keeps that, and keeps the order in which the names were first set.

use vstd::prelude::*;

verus! {

/// Whether no two entries of the list have the same name.
pub open spec fn distinct_keys<V>(entries: Seq<(Seq<char>, V)>) -> bool {
    forall|i: int, j: int| 0 <= i < j < entries.len() ==> entries[i].0 != entries[j].0
}

/// Whether some entry of the list has the name `key`.
pub open spec fn has_key<V>(entries: Seq<(Seq<char>, V)>, key: Seq<char>) -> bool {
    exists|i: int| 0 <= i < entries.len() && entries[i].0 == key
}

/// The list `entries` with `key` set to `value`: in the place of the first
/// entry of that name, or at the end where there is none.
pub open spec fn with_entry<V>(entries: Seq<(Seq<char>, V)>, key: Seq<char>, value: V) -> Seq<
    (Seq<char>, V),
>
    decreases entries.len(),
{
    if entries.len() == 0 {
        seq![(key, value)]
    } else if entries[0].0 == key {
        seq![(key, value)] + entries.drop_first()
    } else {
        seq![entries[0]] + with_entry(entries.drop_first(), key, value)
    }
}

/// Where `key` first occurs at `at`, setting it replaces that entry and
/// leaves every other entry in its place.
pub proof fn lemma_with_entry_found<V>(
    entries: Seq<(Seq<char>, V)>,
    key: Seq<char>,
    value: V,
    at: int,
)
    requires
        0 <= at < entries.len(),
        entries[at].0 == key,
        forall|k: int| 0 <= k < at ==> entries[k].0 != key,
    ensures
        with_entry(entries, key, value) == entries.update(at, (key, value)),
        distinct_keys(entries) ==> distinct_keys(with_entry(entries, key, value)),
    decreases entries.len(),
{
    let after = entries.update(at, (key, value));
    assert forall|i: int| 0 <= i < after.len() implies #[trigger] after[i].0 == entries[i].0 by {}
    if at == 0 {
        assert(seq![(key, value)] + entries.drop_first() =~= entries.update(0, (key, value)));
    } else {
        lemma_with_entry_found(entries.drop_first(), key, value, at - 1);
        assert(seq![entries[0]] + entries.drop_first().update(at - 1, (key, value))
            =~= entries.update(at, (key, value)));
    }
}

/// Where `key` does not occur, setting it appends an entry.
pub proof fn lemma_with_entry_missing<V>(entries: Seq<(Seq<char>, V)>, key: Seq<char>, value: V)
    requires
        !has_key(entries, key),
    ensures
        with_entry(entries, key, value) == entries.push((key, value)),
        distinct_keys(entries) ==> distinct_keys(with_entry(entries, key, value)),
    decreases entries.len(),
{
    let after = entries.push((key, value));
    assert forall|i: int| 0 <= i < entries.len() implies #[trigger] after[i].0 != key by {
        assert(after[i] == entries[i]);
    }
    if entries.len() == 0 {
        assert(seq![(key, value)] =~= entries.push((key, value)));
    } else {
        assert(entries[0].0 != key);
        assert forall|k: int| 0 <= k < entries.drop_first().len() implies entries.drop_first()[k].0
            != key by {
            assert(entries.drop_first()[k] == entries[k + 1]);
        }
        lemma_with_entry_missing(entries.drop_first(), key, value);
        assert(seq![entries[0]] + entries.drop_first().push((key, value)) =~= entries.push(
            (key, value),
        ));
    }
}

/// Setting a name in a list without repeated names gives a list without
/// repeated names, in which the name has the value that was set.
pub proof fn lemma_with_entry_is_a_mapping<V>(
    entries: Seq<(Seq<char>, V)>,
    key: Seq<char>,
    value: V,
)
    requires
        distinct_keys(entries),
    ensures
        distinct_keys(with_entry(entries, key, value)),
        has_key(with_entry(entries, key, value), key),
        forall|i: int|
            0 <= i < with_entry(entries, key, value).len() && with_entry(entries, key, value)[i].0
                == key ==> with_entry(entries, key, value)[i].1 == value,
{
    let after = with_entry(entries, key, value);
    if has_key(entries, key) {
        let at = choose|i: int|
            0 <= i < entries.len() && entries[i].0 == key && forall|k: int|
                0 <= k < i ==> entries[k].0 != key;
        lemma_with_entry_found(entries, key, value, at);
        assert(after[at].0 == key);
    } else {
        lemma_with_entry_missing(entries, key, value);
        assert(after[entries.len() as int].0 == key);
    }
}

} // verus!
