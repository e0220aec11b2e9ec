//! The mathematical model of the index.
//!
//! A committed index is modeled as a map from scene id to the document
//! stored for that id.  Scene ids are kept unique by the indexer's
//! delete-then-add discipline, so the map view is faithful.  A batch of
//! scenes applies to the map by first removing every id in the batch and
//! then inserting one document per scene.

use vstd::prelude::*;
use crate::IndexScene;
use crate::extract;
use crate::text;

verus! {

/// One indexed document: the stored scene fields plus the indexed-only
/// character-names field (a single space-joined, lowercased value).
pub ghost struct DocModel {
    pub scene_id: Seq<char>,
    pub chapter_id: Seq<char>,
    pub text: Seq<char>,
    pub offset: u64,
    pub names_text: Seq<char>,
}

/// A scene id the engine can address exactly: 1 to 39 ASCII lowercase
/// letters or digits.  The engine's tokenizer maps such an id to itself,
/// so a delete by id removes precisely that scene's documents.
pub open spec fn valid_id(s: Seq<char>) -> bool {
    1 <= s.len() <= 39 && forall|i: int|
        0 <= i < s.len() ==> (text::is_lower(s[i]) || text::is_digit(s[i]))
}

/// The character-names field value of a scene text: the extracted name
/// runs, lowercased, joined by single spaces.
pub open spec fn join_names(ns: Seq<Seq<char>>) -> Seq<char>
    decreases ns.len(),
{
    if ns.len() == 0 {
        Seq::empty()
    } else if ns.len() == 1 {
        text::lower(ns[0])
    } else {
        join_names(ns.drop_last()) + seq![' '] + text::lower(ns.last())
    }
}

/// The character-names field value derived from a scene text.
pub open spec fn names_field_of(text: Seq<char>) -> Seq<char> {
    join_names(extract::names_of(text))
}

/// The document stored for a scene.
pub open spec fn doc_of_scene(s: IndexScene) -> DocModel {
    DocModel {
        scene_id: s.id@,
        chapter_id: s.chapter_id@,
        text: s.text@,
        offset: s.start_offset,
        names_text: names_field_of(s.text@),
    }
}

/// The ids occurring in a batch.
pub open spec fn ids_of(scenes: Seq<IndexScene>) -> Set<Seq<char>> {
    Set::new(|id: Seq<char>| exists|i: int| 0 <= i < scenes.len() && scenes[i].id@ == id)
}

/// The documents of a batch, keyed by scene id.
pub open spec fn batch_map(scenes: Seq<IndexScene>) -> Map<Seq<char>, DocModel>
    decreases scenes.len(),
{
    if scenes.len() == 0 {
        Map::empty()
    } else {
        batch_map(scenes.drop_last()).insert(scenes.last().id@, doc_of_scene(scenes.last()))
    }
}

/// The committed map after indexing a batch: every id in the batch is
/// replaced by its new document; every other document is untouched.
pub open spec fn apply_batch(
    m: Map<Seq<char>, DocModel>,
    scenes: Seq<IndexScene>,
) -> Map<Seq<char>, DocModel> {
    m.remove_keys(ids_of(scenes)).union_prefer_right(batch_map(scenes))
}

/// A batch map holds exactly the ids of its scenes.
pub proof fn lemma_batch_map_contains(scenes: Seq<IndexScene>)
    ensures
        forall|id: Seq<char>| #[trigger] batch_map(scenes).contains_key(id) <==> exists|j: int|
            0 <= j < scenes.len() && scenes[j].id@ == id,
    decreases scenes.len(),
{
    if scenes.len() > 0 {
        lemma_batch_map_contains(scenes.drop_last());
        let pre = scenes.drop_last();
        assert forall|id: Seq<char>| #[trigger] batch_map(scenes).contains_key(id) implies exists|
            j: int,
        | 0 <= j < scenes.len() && scenes[j].id@ == id by {
            if id == scenes.last().id@ {
                assert(0 <= scenes.len() - 1 < scenes.len() && scenes[scenes.len() - 1].id@
                    == id);
            } else {
                assert(batch_map(pre).contains_key(id));
                let j = choose|j: int| 0 <= j < pre.len() && pre[j].id@ == id;
                assert(pre[j] == scenes[j]);
                assert(0 <= j < scenes.len() && scenes[j].id@ == id);
            }
        }
        assert forall|id: Seq<char>|
            (exists|j: int| 0 <= j < scenes.len() && scenes[j].id@ == id) implies #[trigger]
            batch_map(scenes).contains_key(id) by {
            let j = choose|j: int| 0 <= j < scenes.len() && scenes[j].id@ == id;
            if j < scenes.len() - 1 {
                assert(pre[j] == scenes[j]);
                assert(0 <= j < pre.len() && pre[j].id@ == id);
                assert(batch_map(pre).contains_key(id));
            } else {
                assert(id == scenes.last().id@);
            }
        }
    }
}

/// Under distinct ids, a batch map stores each scene's document under its
/// id.
pub proof fn lemma_batch_map_at(scenes: Seq<IndexScene>, i: int)
    requires
        distinct_ids(scenes),
        0 <= i < scenes.len(),
    ensures
        batch_map(scenes).contains_key(scenes[i].id@),
        batch_map(scenes)[scenes[i].id@] == doc_of_scene(scenes[i]),
    decreases scenes.len(),
{
    if i == scenes.len() - 1 {
    } else {
        assert(distinct_ids(scenes.drop_last()));
        assert(scenes.drop_last()[i] == scenes[i]);
        lemma_batch_map_at(scenes.drop_last(), i);
        assert(scenes[i].id@ != scenes.last().id@);
    }
}

/// No two scenes of the batch share an id.
pub open spec fn distinct_ids(scenes: Seq<IndexScene>) -> bool {
    forall|i: int, j: int| 0 <= i < j < scenes.len() ==> scenes[i].id@ != scenes[j].id@
}

/// Every scene of the batch carries an addressable id.
pub open spec fn valid_batch(scenes: Seq<IndexScene>) -> bool {
    distinct_ids(scenes) && forall|i: int| 0 <= i < scenes.len() ==> valid_id(scenes[i].id@)
}

/// Whether a scene id is addressable: 1 to 39 ASCII lowercase letters or
/// digits.  Batches handed to the indexer must use such ids.
pub fn is_valid_id(id: &str) -> (r: bool)
    ensures
        r == valid_id(id@),
{
    let chars = text::chars_of(id);
    if chars.len() < 1 || chars.len() > 39 {
        return false;
    }
    let mut i: usize = 0;
    while i < chars.len()
        invariant
            chars@ == id@,
            i <= chars@.len(),
            forall|k: int| 0 <= k < i ==> (text::is_lower(id@[k]) || text::is_digit(id@[k])),
        decreases chars@.len() - i,
    {
        let u = chars[i] as u32;
        if !((97 <= u && u <= 122) || (48 <= u && u <= 57)) {
            return false;
        }
        i = i + 1;
    }
    true
}

/// Joins extracted name runs into the character-names field value.
pub fn join_names_exec(names: &Vec<Vec<char>>) -> (r: Vec<char>)
    ensures
        r@ == join_names(names@.map_values(|n: Vec<char>| n@)),
{
    let ghost m = names@.map_values(|n: Vec<char>| n@);
    let mut out: Vec<char> = Vec::new();
    let mut i: usize = 0;
    while i < names.len()
        invariant
            m == names@.map_values(|n: Vec<char>| n@),
            i <= names@.len(),
            out@ == join_names(m.take(i as int)),
        decreases names@.len() - i,
    {
        proof {
            assert(m.take(i + 1).drop_last() =~= m.take(i as int));
            assert(m.take(i + 1).last() == m[i as int]);
        }
        if i > 0 {
            out.push(' ');
        }
        let low = text::to_lower(&names[i]);
        let mut j: usize = 0;
        while j < low.len()
            invariant
                low@ == text::lower(m[i as int]),
                j <= low@.len(),
                out@ =~= (if i == 0 {
                    Seq::<char>::empty()
                } else {
                    join_names(m.take(i as int)) + seq![' ']
                }) + low@.take(j as int),
                m == names@.map_values(|n: Vec<char>| n@),
                i < names@.len(),
            decreases low@.len() - j,
        {
            out.push(low[j]);
            assert(out@ =~= (if i == 0 {
                Seq::<char>::empty()
            } else {
                join_names(m.take(i as int)) + seq![' ']
            }) + low@.take(j + 1));
            j = j + 1;
        }
        proof {
            assert(low@.take(low@.len() as int) =~= low@);
            if i == 0 {
                assert(m.take(1).len() == 1);
                assert(m.take(1)[0] == m[0]);
                assert(join_names(m.take(1)) == text::lower(m[0]));
                assert(out@ =~= join_names(m.take(i + 1)));
            } else {
                assert(m.take(i + 1).len() == i + 1 >= 2);
                assert(join_names(m.take(i + 1)) == join_names(m.take(i as int)) + seq![' ']
                    + text::lower(m[i as int]));
                assert(out@ =~= join_names(m.take(i + 1)));
            }
        }
        i = i + 1;
    }
    proof {
        assert(m.take(m.len() as int) =~= m);
    }
    out
}

} // verus!
