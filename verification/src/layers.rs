use crate::text::same_text;
use vstd::prelude::*;

verus! {

/// One setting of one configuration source: a dotted key and its raw text.
#[derive(Debug)]
pub struct Entry {
    pub key: String,
    pub value: String,
}

/// One configuration source, flattened: a base file, the file of one
/// environment, or the overrides found in environment variables.
#[derive(Debug)]
pub struct Layer {
    pub entries: Vec<Entry>,
}

/// The map a list of entries stands for: a later entry replaces an earlier
/// one with the same key.
pub open spec fn entries_map(entries: Seq<Entry>) -> Map<Seq<char>, Seq<char>>
    decreases entries.len(),
{
    if entries.len() == 0 {
        Map::empty()
    } else {
        entries_map(entries.drop_last()).insert(entries.last().key@, entries.last().value@)
    }
}

impl View for Layer {
    type V = Map<Seq<char>, Seq<char>>;

    open spec fn view(&self) -> Map<Seq<char>, Seq<char>> {
        entries_map(self.entries@)
    }
}

/// The maps of a list of layers, in the same order.
pub open spec fn layer_maps(layers: Seq<Layer>) -> Seq<Map<Seq<char>, Seq<char>>> {
    Seq::new(layers.len(), |i: int| layers[i]@)
}

/// Folds an ordered list of sources into one map: for each key the last
/// source that has it decides.
pub open spec fn merged(layers: Seq<Map<Seq<char>, Seq<char>>>) -> Map<Seq<char>, Seq<char>>
    decreases layers.len(),
{
    if layers.len() == 0 {
        Map::empty()
    } else {
        merged(layers.drop_last()).union_prefer_right(layers.last())
    }
}

/// The entry that decides a key is the last one that names it.
pub proof fn lemma_entries_map(entries: Seq<Entry>, key: Seq<char>)
    ensures
        entries_map(entries).contains_key(key) <==> exists|i: int|
            0 <= i < entries.len() && (#[trigger] entries[i]).key@ == key,
        forall|i: int|
            0 <= i < entries.len() && (#[trigger] entries[i]).key@ == key && (forall|j: int|
                i < j < entries.len() ==> (#[trigger] entries[j]).key@ != key) ==> entries_map(
                entries,
            )[key] == entries[i].value@,
    decreases entries.len(),
{
    if entries.len() > 0 {
        let front = entries.drop_last();
        lemma_entries_map(front, key);
        if entries.last().key@ == key {
            assert(entries[entries.len() - 1].key@ == key);
        } else {
            if entries_map(entries).contains_key(key) {
                let i = choose|i: int| 0 <= i < front.len() && (#[trigger] front[i]).key@ == key;
                assert(entries[i].key@ == key);
            }
            if exists|i: int| 0 <= i < entries.len() && (#[trigger] entries[i]).key@ == key {
                let i = choose|i: int| 0 <= i < entries.len() && (#[trigger] entries[i]).key@ == key;
                assert(front[i].key@ == key);
            }
        }
        assert forall|i: int|
            0 <= i < entries.len() && (#[trigger] entries[i]).key@ == key && (forall|j: int|
                i < j < entries.len() ==> (#[trigger] entries[j]).key@ != key) implies entries_map(
            entries,
        )[key] == entries[i].value@ by {
            if i < front.len() {
                assert(entries[entries.len() - 1].key@ != key);
                assert(front[i] == entries[i]);
                assert forall|j: int| i < j < front.len() implies (#[trigger] front[j]).key@
                    != key by {
                    assert(front[j] == entries[j]);
                }
            }
        }
    }
}

/// The deepest override wins: where a source has a key and no later source
/// has it, the merged map gives that source's value.
pub proof fn lemma_deepest_layer_wins(
    layers: Seq<Map<Seq<char>, Seq<char>>>,
    i: int,
    key: Seq<char>,
)
    requires
        0 <= i < layers.len(),
        layers[i].contains_key(key),
        forall|j: int| i < j < layers.len() ==> !(#[trigger] layers[j]).contains_key(key),
    ensures
        merged(layers).contains_key(key),
        merged(layers)[key] == layers[i][key],
    decreases layers.len(),
{
    let front = layers.drop_last();
    if i == layers.len() - 1 {
    } else {
        assert(!layers[layers.len() - 1].contains_key(key));
        assert(front[i] == layers[i]);
        assert forall|j: int| i < j < front.len() implies !(#[trigger] front[j]).contains_key(
            key,
        ) by {
            assert(front[j] == layers[j]);
        }
        lemma_deepest_layer_wins(front, i, key);
    }
}

/// A key that no source has is absent from the merged map, and the other
/// way round.
pub proof fn lemma_merged_domain(layers: Seq<Map<Seq<char>, Seq<char>>>, key: Seq<char>)
    ensures
        merged(layers).contains_key(key) <==> exists|i: int|
            0 <= i < layers.len() && (#[trigger] layers[i]).contains_key(key),
    decreases layers.len(),
{
    if layers.len() > 0 {
        let front = layers.drop_last();
        lemma_merged_domain(front, key);
        if layers.last().contains_key(key) {
            assert(layers[layers.len() - 1].contains_key(key));
        } else {
            if merged(layers).contains_key(key) {
                let i = choose|i: int| 0 <= i < front.len() && (#[trigger] front[i]).contains_key(key);
                assert(layers[i].contains_key(key));
            }
            if exists|i: int| 0 <= i < layers.len() && (#[trigger] layers[i]).contains_key(key) {
                let i = choose|i: int|
                    0 <= i < layers.len() && (#[trigger] layers[i]).contains_key(key);
                assert(front[i].contains_key(key));
            }
        }
    }
}

impl Layer {
    /// A source without settings.
    pub fn new() -> (layer: Layer)
        ensures
            layer@ == Map::<Seq<char>, Seq<char>>::empty(),
    {
        Layer { entries: Vec::new() }
    }

    /// Sets `key` to `value`, replacing what the source had for it.
    pub fn set(&mut self, key: String, value: String)
        ensures
            final(self)@ == old(self)@.insert(key@, value@),
    {
        let ghost before = self.entries@;
        self.entries.push(Entry { key, value });
        assert(self.entries@.drop_last() =~= before);
    }

    /// What the source has for `key`.
    pub fn get(&self, key: &str) -> (found: Option<&String>)
        ensures
            match found {
                Some(value) => self@.contains_key(key@) && self@[key@] == value@,
                None => !self@.contains_key(key@),
            },
    {
        let mut i: usize = self.entries.len();
        proof {
            lemma_entries_map(self.entries@, key@);
        }
        while i > 0
            invariant
                i <= self.entries.len(),
                forall|j: int| i <= j < self.entries.len() ==> (#[trigger] self.entries@[j]).key@
                    != key@,
            decreases i,
        {
            i -= 1;
            if same_text(self.entries[i].key.as_str(), key) {
                proof {
                    lemma_entries_map(self.entries@, key@);
                    assert(self.entries@[i as int].key@ == key@);
                }
                return Some(&self.entries[i].value);
            }
        }
        None
    }
}

/// What the sources, taken in order, have for `key`.
pub fn lookup<'a>(layers: &'a Vec<Layer>, key: &str) -> (found: Option<&'a String>)
    ensures
        match found {
            Some(value) => merged(layer_maps(layers@)).contains_key(key@) && merged(
                layer_maps(layers@),
            )[key@] == value@,
            None => !merged(layer_maps(layers@)).contains_key(key@),
        },
{
    let ghost maps = layer_maps(layers@);
    let mut i: usize = layers.len();
    while i > 0
        invariant
            i <= layers.len(),
            maps == layer_maps(layers@),
            forall|j: int| i <= j < maps.len() ==> !(#[trigger] maps[j]).contains_key(key@),
        decreases i,
    {
        i -= 1;
        match layers[i].get(key) {
            Some(value) => {
                proof {
                    assert(maps[i as int] == layers@[i as int]@);
                    lemma_deepest_layer_wins(maps, i as int, key@);
                }
                return Some(value);
            },
            None => {
                assert(maps[i as int] == layers@[i as int]@);
            },
        }
    }
    proof {
        lemma_merged_domain(maps, key@);
    }
    None
}

} // verus!
