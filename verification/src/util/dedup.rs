use vstd::prelude::*;

verus! {

pub const SEED1: u64 = 4200296977;

pub const SEED2: u64 = 1109209391370908281;

/// Number of slots in the table of recently seen values.
pub const TABLE_SIZE: usize = 128;

/// What `fxhash::hash` returns for the pair `(seed, value)`.
pub uninterp spec fn fx_pair_hash(seed: u64, value: usize) -> usize;

/// Calls `fxhash::hash` on the pair `(seed, value)`: FxHasher is a fixed,
/// unseeded function of the bytes written to it, so the result depends on
/// the two arguments alone and is named `fx_pair_hash`.
#[verifier::external_body]
fn fx_hash_pair(seed: u64, value: usize) -> (h: usize)
    ensures
        h == fx_pair_hash(seed, value),
{
    fxhash::hash(&(seed, value))
}

/// The first of the two table slots for `value`.
pub open spec fn slot1(value: usize) -> int {
    fx_pair_hash(SEED1, value) as int % TABLE_SIZE as int
}

/// The second of the two table slots for `value`.
pub open spec fn slot2(value: usize) -> int {
    fx_pair_hash(SEED2, value) as int % TABLE_SIZE as int
}

fn hash1(value: usize) -> (h: usize)
    ensures
        h == fx_pair_hash(SEED1, value),
{
    fx_hash_pair(SEED1, value)
}

fn hash2(value: usize) -> (h: usize)
    ensures
        h == fx_pair_hash(SEED2, value),
{
    fx_hash_pair(SEED2, value)
}

/// No two neighbouring elements of `s` are equal.
pub open spec fn no_adjacent_duplicates(s: Seq<usize>) -> bool {
    forall|k: int| 0 <= k < s.len() - 1 ==> s[k] != #[trigger] s[k + 1]
}

/// A table of recently seen positions with every slot empty.
pub open spec fn empty_table() -> Seq<Option<usize>> {
    Seq::new(TABLE_SIZE as nat, |t: int| None::<usize>)
}

/// Whether one of the table slots `a` and `b` names a position of `data`
/// that holds `value`.
pub open spec fn seen_at(table: Seq<Option<usize>>, data: Seq<usize>, value: usize, a: int, b: int) -> bool {
    ||| (table[a] matches Some(j) && j < data.len() && data[j as int] == value)
    ||| (table[b] matches Some(j) && j < data.len() && data[j as int] == value)
}

/// The table once position `i`, whose slots are `a` and `b`, is recorded:
/// in `a` if it is free, else in `b` if that is free, else in `a` on even
/// positions and in `b` on odd ones.
pub open spec fn record_at(table: Seq<Option<usize>>, a: int, b: int, i: int) -> Seq<Option<usize>> {
    if table[a] is None {
        table.update(a, Some(i as usize))
    } else if table[b] is None {
        table.update(b, Some(i as usize))
    } else if i % 2 == 0 {
        table.update(a, Some(i as usize))
    } else {
        table.update(b, Some(i as usize))
    }
}

/// `s` with its element at `i` replaced by its last one, which is dropped.
pub open spec fn swap_out<A>(s: Seq<A>, i: int) -> Seq<A> {
    s.update(i, s.last()).drop_last()
}

/// What the deduplication leaves of `data`, whose elements have the table
/// slots `s1` and `s2`, when it resumes at position `i` with `table`: an
/// element already seen is replaced by the last one, which is examined
/// next; an element not seen is kept and recorded.
pub open spec fn dedup_slots_from(
    data: Seq<usize>,
    s1: Seq<usize>,
    s2: Seq<usize>,
    i: int,
    table: Seq<Option<usize>>,
) -> Seq<usize>
    decreases data.len() - i,
{
    if i < 0 || i >= data.len() {
        data
    } else if seen_at(table, data, data[i], s1[i] as int, s2[i] as int) {
        dedup_slots_from(swap_out(data, i), swap_out(s1, i), swap_out(s2, i), i, table)
    } else {
        dedup_slots_from(data, s1, s2, i + 1, record_at(table, s1[i] as int, s2[i] as int, i))
    }
}

/// The first table slot of each element of `data`.
pub open spec fn hash_slots1(data: Seq<usize>) -> Seq<usize> {
    Seq::new(data.len(), |k: int| slot1(data[k]) as usize)
}

/// The second table slot of each element of `data`.
pub open spec fn hash_slots2(data: Seq<usize>) -> Seq<usize> {
    Seq::new(data.len(), |k: int| slot2(data[k]) as usize)
}

/// What the deduplication leaves of `data` when it resumes at position
/// `i` with `table`, each element having the slots its hashes give.
pub open spec fn dedup_from(data: Seq<usize>, i: int, table: Seq<Option<usize>>) -> Seq<usize> {
    dedup_slots_from(data, hash_slots1(data), hash_slots2(data), i, table)
}

/// Equal elements have equal slots.
pub open spec fn slots_follow_values(data: Seq<usize>, s1: Seq<usize>, s2: Seq<usize>) -> bool {
    &&& s1.len() == data.len()
    &&& s2.len() == data.len()
    &&& forall|k: int| 0 <= k < data.len() ==> #[trigger] s1[k] < TABLE_SIZE && s2[k] < TABLE_SIZE
    &&& forall|j: int, k: int|
        0 <= j < data.len() && 0 <= k < data.len() && data[j] == data[k] ==> s1[j] == s1[k] && s2[j]
            == s2[k]
}

/// Whether slot `slot` of the table points at an earlier element equal to
/// `value`.
fn slot_matches(table: &Vec<Option<usize>>, slot: usize, data: &Vec<usize>, value: usize) -> (b:
    bool)
    requires
        slot < table@.len(),
        forall|t: int| 0 <= t < table@.len() ==> (#[trigger] table@[t] matches Some(j) ==> j
            < data@.len()),
    ensures
        b == (table@[slot as int] matches Some(j) && data@[j as int] == value),
{
    match table[slot] {
        Some(j) => data[j] == value,
        None => false,
    }
}

/// Removes duplicates within `data` on a best-effort basis, given the two
/// table slots of each element (equal elements having equal slots): every
/// value stays present, no value is introduced, and no element follows an
/// equal one.
pub fn dedup_with_slots(data: &mut Vec<usize>, slots1: Vec<usize>, slots2: Vec<usize>)
    requires
        slots_follow_values(old(data)@, slots1@, slots2@),
    ensures
        final(data)@.to_set() == old(data)@.to_set(),
        final(data)@.len() <= old(data)@.len(),
        no_adjacent_duplicates(final(data)@),
        final(data)@ == dedup_slots_from(old(data)@, slots1@, slots2@, 0, empty_table()),
{
    let ghost orig = data@;
    let mut s1 = slots1;
    let mut s2 = slots2;
    let mut table: Vec<Option<usize>> = Vec::new();
    while table.len() < TABLE_SIZE
        invariant
            table@.len() <= TABLE_SIZE,
            forall|t: int| 0 <= t < table@.len() ==> #[trigger] table@[t] is None,
        decreases TABLE_SIZE - table@.len(),
    {
        table.push(None);
    }
    assert(table@ =~= empty_table());
    let mut i: usize = 0;
    while i < data.len()
        invariant
            i <= data@.len() <= orig.len(),
            table@.len() == TABLE_SIZE,
            slots_follow_values(data@, s1@, s2@),
            forall|t: int| 0 <= t < table@.len() ==> (#[trigger] table@[t] matches Some(j) ==> j
                < i),
            i > 0 ==> table@[s1@[i - 1] as int] == Some((i - 1) as usize) || table@[s2@[i
                - 1] as int] == Some((i - 1) as usize),
            no_adjacent_duplicates(data@.subrange(0, i as int)),
            data@.to_set() == orig.to_set(),
            dedup_slots_from(data@, s1@, s2@, i as int, table@) == dedup_slots_from(
                orig,
                slots1@,
                slots2@,
                0,
                empty_table(),
            ),
        decreases data@.len() - i,
    {
        let value = data[i];
        let h1 = s1[i];
        let h2 = s2[i];
        let found = slot_matches(&table, h1, data, value) || slot_matches(&table, h2, data, value);
        if found {
            let ghost before = data@;
            let ghost b1 = s1@;
            let ghost b2 = s2@;
            let ghost j: usize = match table@[h1 as int] {
                Some(j1) => if before[j1 as int] == value {
                    j1
                } else {
                    table@[h2 as int]->Some_0
                },
                None => table@[h2 as int]->Some_0,
            };
            proof {
                assert(j < i && before[j as int] == value);
                assert(seen_at(table@, before, before[i as int], b1[i as int] as int, b2[i as int] as int));
            }
            data.swap_remove(i);
            s1.swap_remove(i);
            s2.swap_remove(i);
            proof {
                assert(data@ == swap_out(before, i as int));
                assert(s1@ == swap_out(b1, i as int));
                assert(s2@ == swap_out(b2, i as int));
                assert forall|p: int, q: int|
                    0 <= p < data@.len() && 0 <= q < data@.len() && data@[p] == data@[q] implies s1@[p]
                    == s1@[q] && s2@[p] == s2@[q] by {
                    let pp = if p == i { before.len() - 1 } else { p };
                    let qq = if q == i { before.len() - 1 } else { q };
                    assert(data@[p] == before[pp] && s1@[p] == b1[pp] && s2@[p] == b2[pp]);
                    assert(data@[q] == before[qq] && s1@[q] == b1[qq] && s2@[q] == b2[qq]);
                }
                assert forall|k: int| 0 <= k < data@.len() implies #[trigger] s1@[k] < TABLE_SIZE
                    && s2@[k] < TABLE_SIZE by {
                    let kk = if k == i { before.len() - 1 } else { k };
                    assert(s1@[k] == b1[kk] && s2@[k] == b2[kk]);
                }
                assert(data@.subrange(0, i as int) =~= before.subrange(0, i as int));
                assert forall|x: usize| before.to_set().contains(x) implies data@.to_set().contains(
                    x,
                ) by {
                    let p = choose|p: int| 0 <= p < before.len() && before[p] == x;
                    if p == i {
                        assert(data@[j as int] == x);
                    } else if p == before.len() - 1 {
                        assert(data@[i as int] == x);
                    } else {
                        assert(data@[p] == x);
                    }
                }
                assert forall|x: usize| data@.to_set().contains(x) implies before.to_set().contains(
                    x,
                ) by {
                    let p = choose|p: int| 0 <= p < data@.len() && data@[p] == x;
                    if p == i {
                        assert(before[before.len() - 1] == x);
                    } else {
                        assert(before[p] == x);
                    }
                }
                assert(data@.to_set() =~= before.to_set());
            }
        } else {
            let ghost prev = data@.subrange(0, i as int);
            let ghost table_before = table@;
            proof {
                assert(!seen_at(table@, data@, data@[i as int], s1@[i as int] as int, s2@[i as int] as int));
            }
            if table[h1].is_none() {
                table.set(h1, Some(i));
            } else if table[h2].is_none() {
                table.set(h2, Some(i));
            } else if i % 2 == 0 {
                table.set(h1, Some(i));
            } else {
                table.set(h2, Some(i));
            }
            proof {
                assert(table@ == record_at(table_before, h1 as int, h2 as int, i as int));
                if i > 0 {
                    if data@[i - 1] == value {
                        assert(s1@[i - 1] == s1@[i as int] && s2@[i - 1] == s2@[i as int]);
                    }
                    assert(data@[i - 1] != value);
                }
                assert forall|k: int| 0 <= k < i implies data@.subrange(0, i + 1)[k] == prev[k] by {}
                assert(no_adjacent_duplicates(data@.subrange(0, i + 1))) by {
                    assert forall|k: int| 0 <= k < i + 1 - 1 implies data@.subrange(0, i + 1)[k]
                        != #[trigger] data@.subrange(0, i + 1)[k + 1] by {
                        if k + 1 < i {
                            assert(prev[k] != prev[k + 1]);
                        }
                    }
                }
            }
            i = i + 1;
        }
    }
    proof {
        assert(data@.subrange(0, data@.len() as int) =~= data@);
    }
}

/// Probabilistically remove duplicates within a vector.
///
/// All consecutive equal values are removed except for the first one (it
/// subsumes `Vec::dedup`), and every value of the input is still present
/// at the end: duplicates are removed on a best-effort basis, but no value
/// is introduced and none is entirely eliminated. The two table slots of
/// each value come from its two hashes.
pub fn dedup_partial(data: &mut Vec<usize>)
    ensures
        final(data)@.to_set() == old(data)@.to_set(),
        final(data)@.len() <= old(data)@.len(),
        no_adjacent_duplicates(final(data)@),
        final(data)@ == dedup_from(old(data)@, 0, empty_table()),
{
    let mut s1: Vec<usize> = Vec::new();
    let mut s2: Vec<usize> = Vec::new();
    let mut k: usize = 0;
    while k < data.len()
        invariant
            k <= data@.len(),
            s1@ == hash_slots1(data@).take(k as int),
            s2@ == hash_slots2(data@).take(k as int),
        decreases data@.len() - k,
    {
        let value = data[k];
        s1.push(hash1(value) % TABLE_SIZE);
        s2.push(hash2(value) % TABLE_SIZE);
        proof {
            assert(s1@ =~= hash_slots1(data@).take(k + 1));
            assert(s2@ =~= hash_slots2(data@).take(k + 1));
        }
        k = k + 1;
    }
    proof {
        assert(s1@ =~= hash_slots1(data@));
        assert(s2@ =~= hash_slots2(data@));
    }
    dedup_with_slots(data, s1, s2);
}

} // verus!
