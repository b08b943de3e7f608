//! The scene's texture table: material name to diffuse-texture file, kept in
//! an insertion-ordered map with one entry per name.
use vstd::prelude::*;

use crate::model::{Material, Model};

verus! {

#[verifier::external_type_specification]
#[verifier::external_body]
#[verifier::reject_recursive_types(K)]
#[verifier::reject_recursive_types(V)]
#[verifier::reject_recursive_types(S)]
pub struct ExIndexMap<K, V, S>(indexmap::IndexMap<K, V, S>);

/// The entries of a texture table, in the map's order.
pub uninterp spec fn texture_entries(m: indexmap::IndexMap<String, String>) -> Seq<
    (Seq<char>, Seq<char>),
>;

/// Result of inserting `(k, v)` into entries `e`: a present key keeps its
/// place and takes the new value; a new key goes last.
pub open spec fn insert_entry(e: Seq<(Seq<char>, Seq<char>)>, k: Seq<char>, v: Seq<char>) -> Seq<
    (Seq<char>, Seq<char>),
> {
    if exists|i: int| 0 <= i < e.len() && (#[trigger] e[i]).0 == k {
        let i = choose|i: int| 0 <= i < e.len() && (#[trigger] e[i]).0 == k;
        e.update(i, (k, v))
    } else {
        e.push((k, v))
    }
}

/// Relies on `IndexMap::new`: the new map is empty.
#[verifier::external_body]
fn empty_table() -> (r: indexmap::IndexMap<String, String>)
    ensures
        texture_entries(r) == Seq::<(Seq<char>, Seq<char>)>::empty(),
{
    indexmap::IndexMap::new()
}

/// Relies on `IndexMap::insert`: an equivalent key already present keeps its
/// place in the order and takes the new value; otherwise the pair is
/// inserted last.
#[verifier::external_body]
fn insert_into(m: &mut indexmap::IndexMap<String, String>, k: String, v: String)
    ensures
        texture_entries(*final(m)) == insert_entry(texture_entries(*old(m)), k@, v@),
{
    m.insert(k, v);
}

/// Relies on `IndexMap::len`: the number of entries.
#[verifier::external_body]
fn table_len(m: &indexmap::IndexMap<String, String>) -> (r: usize)
    ensures
        r == texture_entries(*m).len(),
{
    m.len()
}

/// Relies on `IndexMap::get_index`: the entry at position `i` in the map's
/// order, if `i` is below the length.
#[verifier::external_body]
fn table_entry(m: &indexmap::IndexMap<String, String>, i: usize) -> (r: Option<(String, String)>)
    ensures
        i < texture_entries(*m).len() <==> r is Some,
        r is Some ==> ((r->0).0@, (r->0).1@) == texture_entries(*m)[i as int],
{
    m.get_index(i).map(|(k, v)| (k.clone(), v.clone()))
}

/// Relies on `IndexMap::get_index_of`: the position of the entry whose key
/// equals `name`, if there is one.
#[verifier::external_body]
fn table_position(m: &indexmap::IndexMap<String, String>, name: &str) -> (r: Option<usize>)
    ensures
        r is Some ==> r->0 < texture_entries(*m).len() && texture_entries(*m)[r->0 as int].0
            == name@,
        r is None ==> forall|i: int|
            0 <= i < texture_entries(*m).len() ==> (#[trigger] texture_entries(*m)[i]).0 != name@,
{
    m.get_index_of(name)
}

/// The (material name, texture file) pairs of the materials that have a
/// diffuse texture, in order.
pub open spec fn material_pairs(ms: Seq<Material>) -> Seq<(Seq<char>, Seq<char>)>
    decreases ms.len(),
{
    if ms.len() == 0 {
        seq![]
    } else {
        let rest = material_pairs(ms.drop_last());
        match ms.last().diffuse_texture {
            Some(f) => rest.push((ms.last().name@, f@)),
            None => rest,
        }
    }
}

/// The texture pairs of all models' materials, model by model.
pub open spec fn model_pairs(models: Seq<Model>) -> Seq<(Seq<char>, Seq<char>)>
    decreases models.len(),
{
    if models.len() == 0 {
        seq![]
    } else {
        model_pairs(models.drop_last()) + material_pairs(models.last().materials@)
    }
}

/// Entries after inserting `pairs` in order into `e`.
pub open spec fn insert_all(e: Seq<(Seq<char>, Seq<char>)>, pairs: Seq<(Seq<char>, Seq<char>)>) -> Seq<
    (Seq<char>, Seq<char>),
>
    decreases pairs.len(),
{
    if pairs.len() == 0 {
        e
    } else {
        insert_entry(insert_all(e, pairs.drop_last()), pairs.last().0, pairs.last().1)
    }
}

/// The keys of entries, in order.
pub open spec fn keys_of(e: Seq<(Seq<char>, Seq<char>)>) -> Seq<Seq<char>> {
    e.map_values(|p: (Seq<char>, Seq<char>)| p.0)
}

/// Each key once, in the order of its first occurrence.
pub open spec fn first_occurrences(ks: Seq<Seq<char>>) -> Seq<Seq<char>>
    decreases ks.len(),
{
    if ks.len() == 0 {
        seq![]
    } else {
        let d = first_occurrences(ks.drop_last());
        if d.contains(ks.last()) {
            d
        } else {
            d.push(ks.last())
        }
    }
}

/// A texture table with an entry for every distinct material name that has
/// a diffuse texture, each name mapped to its texture file.
pub struct TextureTable {
    pub map: indexmap::IndexMap<String, String>,
}

impl TextureTable {
    /// The entries, in the table's order.
    pub open spec fn entries(&self) -> Seq<(Seq<char>, Seq<char>)> {
        texture_entries(self.map)
    }

    /// Builds the table by inserting, model by model and material by
    /// material, each material's name with its diffuse-texture file.
    pub fn from_models(models: &Vec<Model>) -> (r: TextureTable)
        ensures
            r.entries() == insert_all(seq![], model_pairs(models@)),
    {
        let mut map = empty_table();
        let mut k: usize = 0;
        while k < models.len()
            invariant
                k <= models@.len(),
                texture_entries(map) == insert_all(seq![], model_pairs(models@.subrange(0, k as int))),
            decreases models@.len() - k,
        {
            let ghost before = model_pairs(models@.subrange(0, k as int));
            let mats = &models[k].materials;
            let mut j: usize = 0;
            while j < mats.len()
                invariant
                    j <= mats@.len(),
                    mats@ == models@[k as int].materials@,
                    texture_entries(map) == insert_all(
                        seq![],
                        before + material_pairs(mats@.subrange(0, j as int)),
                    ),
                decreases mats@.len() - j,
            {
                let ghost prev = before + material_pairs(mats@.subrange(0, j as int));
                assert(mats@.subrange(0, j + 1).drop_last() =~= mats@.subrange(0, j as int));
                match &mats[j].diffuse_texture {
                    Some(file) => {
                        insert_into(&mut map, mats[j].name.clone(), file.clone());
                        let ghost next = before + material_pairs(mats@.subrange(0, j + 1));
                        assert(next.drop_last() =~= prev);
                    },
                    None => {},
                }
                j = j + 1;
            }
            assert(mats@.subrange(0, mats@.len() as int) =~= mats@);
            assert(models@.subrange(0, k + 1).drop_last() =~= models@.subrange(0, k as int));
            k = k + 1;
        }
        assert(models@.subrange(0, models@.len() as int) =~= models@);
        TextureTable { map }
    }

    /// The texture-array slot of the material `name`: the position of its
    /// entry, which is the index of its texture in the frame's texture array.
    pub fn slot_of(&self, name: &str) -> (r: Option<usize>)
        ensures
            r is Some ==> r->0 < self.entries().len() && self.entries()[r->0 as int].0 == name@,
            r is None <==> forall|i: int|
                0 <= i < self.entries().len() ==> (#[trigger] self.entries()[i]).0 != name@,
    {
        let r = table_position(&self.map, name);
        if let Some(i) = r {
            assert(self.entries()[i as int].0 == name@);
        }
        r
    }

    /// Number of entries.
    pub fn len(&self) -> (r: usize)
        ensures
            r == self.entries().len(),
    {
        table_len(&self.map)
    }

    /// The (material name, texture file) entry at position `i`.
    pub fn entry(&self, i: usize) -> (r: Option<(String, String)>)
        ensures
            i < self.entries().len() <==> r is Some,
            r is Some ==> ((r->0).0@, (r->0).1@) == self.entries()[i as int],
    {
        table_entry(&self.map, i)
    }
}

proof fn lemma_insert_keys(e: Seq<(Seq<char>, Seq<char>)>, k: Seq<char>, v: Seq<char>)
    ensures
        keys_of(insert_entry(e, k, v)) == if keys_of(e).contains(k) {
            keys_of(e)
        } else {
            keys_of(e).push(k)
        },
{
    if exists|i: int| 0 <= i < e.len() && (#[trigger] e[i]).0 == k {
        let i = choose|i: int| 0 <= i < e.len() && (#[trigger] e[i]).0 == k;
        assert(keys_of(e)[i] == k);
        assert(keys_of(insert_entry(e, k, v)) =~= keys_of(e));
    } else {
        assert forall|i: int| 0 <= i < keys_of(e).len() implies keys_of(e)[i] != k by {
            assert(e[i].0 != k);
        }
        assert(keys_of(insert_entry(e, k, v)) =~= keys_of(e).push(k));
    }
}

proof fn lemma_first_occurrences_unique(ks: Seq<Seq<char>>)
    ensures
        first_occurrences(ks).no_duplicates(),
        forall|x: Seq<char>| first_occurrences(ks).contains(x) <==> ks.contains(x),
    decreases ks.len(),
{
    if ks.len() > 0 {
        let rest = ks.drop_last();
        lemma_first_occurrences_unique(rest);
        assert forall|x: Seq<char>| ks.contains(x) <==> (rest.contains(x) || x == ks.last()) by {
            if ks.contains(x) {
                let i = choose|i: int| 0 <= i < ks.len() && ks[i] == x;
                if i < ks.len() - 1 {
                    assert(rest[i] == x);
                }
            }
            if rest.contains(x) {
                let i = choose|i: int| 0 <= i < rest.len() && rest[i] == x;
                assert(ks[i] == x);
            }
            if x == ks.last() {
                assert(ks[ks.len() - 1] == x);
            }
        }
        let d = first_occurrences(rest);
        if !d.contains(ks.last()) {
            assert forall|x: Seq<char>| d.push(ks.last()).contains(x) <==> (d.contains(x) || x
                == ks.last()) by {
                if d.push(ks.last()).contains(x) {
                    let i = choose|i: int| 0 <= i < d.len() + 1 && d.push(ks.last())[i] == x;
                    if i < d.len() {
                        assert(d[i] == x);
                    }
                }
                if d.contains(x) {
                    let i = choose|i: int| 0 <= i < d.len() && d[i] == x;
                    assert(d.push(ks.last())[i] == x);
                }
                if x == ks.last() {
                    assert(d.push(ks.last())[d.len() as int] == x);
                }
            }
        }
    }
}

/// Inserting material textures one by one leaves each material name in the
/// table exactly once, the names ordered by their first insertion.
pub proof fn lemma_table_order(pairs: Seq<(Seq<char>, Seq<char>)>)
    ensures
        keys_of(insert_all(seq![], pairs)) == first_occurrences(keys_of(pairs)),
        keys_of(insert_all(seq![], pairs)).no_duplicates(),
    decreases pairs.len(),
{
    if pairs.len() == 0 {
        assert(keys_of(insert_all(seq![], pairs)) =~= first_occurrences(keys_of(pairs)));
    } else {
        let rest = pairs.drop_last();
        lemma_table_order(rest);
        lemma_insert_keys(insert_all(seq![], rest), pairs.last().0, pairs.last().1);
        assert(keys_of(pairs).drop_last() =~= keys_of(rest));
        assert(keys_of(pairs).last() == pairs.last().0);
    }
    lemma_first_occurrences_unique(keys_of(pairs));
}

} // verus!
