//! The search index: incremental indexing and query execution.
//!
//! `SearchIndex` owns one engine handle.  Indexing a batch of scenes
//! replaces each scene id wholesale (delete-then-add), commits once and
//! refreshes the read snapshot; nothing is visible to readers before the
//! commit succeeds and the snapshot reloads.  Queries run against the
//! snapshot alone.

use vstd::prelude::*;
use crate::{IndexScene, SearchError, SearchHit};
use crate::alias;
use crate::engine;
use crate::engine::{Engine, EQuery, RawDoc};
use crate::extract;
use crate::model;
use crate::model::DocModel;
use crate::query;
use crate::snippet;
use crate::text;

verus! {

/// How many hits a character-mention query returns at most.
pub const MENTION_LIMIT: usize = 200;

/// The absolute offset reported for a hit: the scene start plus the local
/// match position when the query occurs literally (saturating at the
/// type's maximum), else the scene start alone.
pub open spec fn abs_offset(base: u64, pos: Option<int>) -> u64 {
    match pos {
        Some(p) => if base + p <= u64::MAX {
            (base + p) as u64
        } else {
            u64::MAX
        },
        None => base,
    }
}

/// The hit fields the formatter pins for a document with the given stored
/// text and start offset: snippet, highlight spans and absolute offset.
pub open spec fn hit_formats(text: Seq<char>, base: u64, q: Seq<char>, h: SearchHit) -> bool {
    &&& h.snippet@ == snippet::hit_parts(text, q).snippet
    &&& h.highlights@ == snippet::hit_parts(text, q).highlights
    &&& h.offset == abs_offset(base, snippet::hit_parts(text, q).local_pos)
}

/// A document matches a query string: every phrase and wildcard token
/// matches it and — when there is none — some plain token matches its
/// text fuzzily at edit distance two.
pub open spec fn doc_matches_query(q: Seq<char>, d: DocModel) -> bool {
    let musts = query::must_tokens(query::tokens_of(q));
    let fuzz = query::fuzzy_tokens(query::tokens_of(q));
    &&& forall|i: int| 0 <= i < musts.len() ==> engine::parsed_matches(#[trigger] musts[i], d)
    &&& (musts.len() == 0 ==> exists|i: int|
        0 <= i < fuzz.len() && engine::fuzzy_prefix_matches(#[trigger] fuzz[i], 2, d.text))
    &&& query::tokens_of(q).len() > 0
}

/// A malformed query: some phrase or wildcard token of it is rejected by
/// the engine's query parser.
pub open spec fn query_malformed(q: Seq<char>) -> bool {
    exists|k: int|
        0 <= k < query::must_tokens(query::tokens_of(q)).len() && !engine::parser_accepts(
            #[trigger] query::must_tokens(query::tokens_of(q))[k],
        )
}

/// One well-formed search hit: it names a snapshot document that matches
/// the query, formatted against the query string.
pub open spec fn hit_ok(snap: Map<Seq<char>, DocModel>, q: Seq<char>, h: SearchHit) -> bool {
    exists|id: Seq<char>|
        #![trigger snap.contains_key(id)]
        {
            &&& snap.contains_key(id)
            &&& h.scene_id@ == id
            &&& doc_matches_query(q, snap[id])
            &&& hit_formats(snap[id].text, snap[id].offset, q, h)
        }
}

/// What `search` promises of a hit list: no more hits than asked for,
/// every hit a formatted matching snapshot document, and — when the list
/// is not full — a hit for every matching snapshot document.
pub open spec fn search_post(
    snap: Map<Seq<char>, DocModel>,
    q: Seq<char>,
    hits: Seq<SearchHit>,
    limit: int,
) -> bool {
    &&& hits.len() <= limit
    &&& forall|k: int| 0 <= k < hits.len() ==> hit_ok(snap, q, #[trigger] hits[k])
    &&& hits.len() < limit ==> (forall|id: Seq<char>|
        #![trigger snap.contains_key(id)]
        snap.contains_key(id) && doc_matches_query(q, snap[id]) ==> exists|k: int|
            0 <= k < hits.len() && hits[k].scene_id@ == id)
}

/// A document matches a mention query for a name: some variant of the
/// name matches its text fuzzily at edit distance one.
pub open spec fn doc_matches_mention(name: Seq<char>, d: DocModel) -> bool {
    exists|i: int|
        0 <= i < alias::all_variants(name).len() && engine::fuzzy_prefix_matches(
            #[trigger] alias::all_variants(name)[i],
            1,
            d.text,
        )
}

/// One well-formed mention hit: it names a snapshot document that matches
/// some variant, formatted against the original name.
pub open spec fn mention_hit_ok(
    snap: Map<Seq<char>, DocModel>,
    name: Seq<char>,
    h: SearchHit,
) -> bool {
    exists|id: Seq<char>|
        #![trigger snap.contains_key(id)]
        {
            &&& snap.contains_key(id)
            &&& h.scene_id@ == id
            &&& doc_matches_mention(name, snap[id])
            &&& hit_formats(snap[id].text, snap[id].offset, name, h)
        }
}

/// What `find_character_mentions` promises of a hit list.
pub open spec fn mention_post(
    snap: Map<Seq<char>, DocModel>,
    name: Seq<char>,
    hits: Seq<SearchHit>,
) -> bool {
    &&& hits.len() <= MENTION_LIMIT
    &&& forall|k: int| 0 <= k < hits.len() ==> mention_hit_ok(snap, name, #[trigger] hits[k])
    &&& hits.len() < MENTION_LIMIT ==> (forall|id: Seq<char>|
        #![trigger snap.contains_key(id)]
        snap.contains_key(id) && doc_matches_mention(name, snap[id]) ==> exists|k: int|
            0 <= k < hits.len() && hits[k].scene_id@ == id)
}

/// The saturating sum of a scene start offset and a local match position.
fn saturating_abs(base: u64, p: usize) -> (r: u64)
    ensures
        r == abs_offset(base, Some(p as int)),
{
    if (p as u64) <= u64::MAX - base {
        base + (p as u64)
    } else {
        u64::MAX
    }
}

/// Shapes one retrieved document into a search hit, formatting the
/// snippet and offset against the query string.
fn build_hit(d: RawDoc, q: &str, score_bits: u32) -> (h: SearchHit)
    ensures
        h.scene_id@ == d.scene_id@,
        h.score_bits == score_bits,
        hit_formats(d.text@, d.offset, q@, h),
{
    let parts = snippet::make_snippet(d.text.as_str(), q);
    let offset = match parts.2 {
        Some(p) => saturating_abs(d.offset, p),
        None => d.offset,
    };
    SearchHit {
        scene_id: d.scene_id,
        offset,
        snippet: parts.0,
        score_bits,
        highlights: parts.1,
    }
}

/// What one indexing batch does to the committed map: every scene of the
/// batch is stored under its id, with exactly its document, and every
/// other id keeps the document it had.
pub proof fn lemma_apply_batch(m0: Map<Seq<char>, DocModel>, scenes: Seq<IndexScene>)
    requires
        model::distinct_ids(scenes),
    ensures
        forall|i: int|
            #![trigger scenes[i]]
            0 <= i < scenes.len() ==> {
                &&& model::apply_batch(m0, scenes).contains_key(scenes[i].id@)
                &&& model::apply_batch(m0, scenes)[scenes[i].id@] == model::doc_of_scene(
                    scenes[i],
                )
            },
        forall|id: Seq<char>|
            #![trigger model::apply_batch(m0, scenes).contains_key(id)]
            !model::ids_of(scenes).contains(id) ==> {
                &&& model::apply_batch(m0, scenes).contains_key(id) == m0.contains_key(id)
                &&& (m0.contains_key(id) ==> model::apply_batch(m0, scenes)[id] == m0[id])
            },
{
    model::lemma_batch_map_contains(scenes);
    assert forall|i: int| #![trigger scenes[i]] 0 <= i < scenes.len() implies {
        &&& model::apply_batch(m0, scenes).contains_key(scenes[i].id@)
        &&& model::apply_batch(m0, scenes)[scenes[i].id@] == model::doc_of_scene(scenes[i])
    } by {
        model::lemma_batch_map_at(scenes, i);
    }
    assert forall|id: Seq<char>|
        #![trigger model::apply_batch(m0, scenes).contains_key(id)]
        !model::ids_of(scenes).contains(id) implies {
        &&& model::apply_batch(m0, scenes).contains_key(id) == m0.contains_key(id)
        &&& (m0.contains_key(id) ==> model::apply_batch(m0, scenes)[id] == m0[id])
    } by {
        if model::batch_map(scenes).contains_key(id) {
            let j = choose|j: int| 0 <= j < scenes.len() && scenes[j].id@ == id;
            assert(model::ids_of(scenes).contains(id));
        }
    }
}

/// Re-indexing a scene id replaces its document: after a second batch
/// carrying the same id, exactly the later batch's document is stored
/// under it, and no other id has changed.
pub proof fn lemma_replace_latest(m0: Map<Seq<char>, DocModel>, s1: IndexScene, s2: IndexScene)
    requires
        s1.id@ == s2.id@,
    ensures
        ({
            let m2 = model::apply_batch(model::apply_batch(m0, seq![s1]), seq![s2]);
            &&& m2.contains_key(s2.id@)
            &&& m2[s2.id@] == model::doc_of_scene(s2)
            &&& forall|id: Seq<char>|
                #![trigger m2.contains_key(id)]
                id != s2.id@ ==> {
                    &&& m2.contains_key(id) == m0.contains_key(id)
                    &&& (m0.contains_key(id) ==> m2[id] == m0[id])
                }
        }),
{
    let m1 = model::apply_batch(m0, seq![s1]);
    let m2 = model::apply_batch(m1, seq![s2]);
    assert(model::distinct_ids(seq![s1]));
    assert(model::distinct_ids(seq![s2]));
    lemma_apply_batch(m0, seq![s1]);
    lemma_apply_batch(m1, seq![s2]);
    assert(seq![s2][0] == s2);
    assert(m2.contains_key(s2.id@) && m2[s2.id@] == model::doc_of_scene(s2));
    assert forall|id: Seq<char>| #![trigger m2.contains_key(id)] id != s2.id@ implies {
        &&& m2.contains_key(id) == m0.contains_key(id)
        &&& (m0.contains_key(id) ==> m2[id] == m0[id])
    } by {
        assert(!model::ids_of(seq![s2]).contains(id)) by {
            if model::ids_of(seq![s2]).contains(id) {
                let j = choose|j: int| 0 <= j < seq![s2].len() && seq![s2][j].id@ == id;
                assert(seq![s2][0].id@ == id);
            }
        }
        assert(!model::ids_of(seq![s1]).contains(id)) by {
            if model::ids_of(seq![s1]).contains(id) {
                let j = choose|j: int| 0 <= j < seq![s1].len() && seq![s1][j].id@ == id;
                assert(seq![s1][0].id@ == id);
            }
        }
    }
}

/// A scene just indexed is found again: after a batch, a search of the
/// refreshed snapshot whose hit list is not full has a hit for every
/// batch scene whose document matches the query.
pub proof fn lemma_round_trip(
    m0: Map<Seq<char>, DocModel>,
    scenes: Seq<IndexScene>,
    i: int,
    q: Seq<char>,
    hits: Seq<SearchHit>,
    limit: int,
)
    requires
        model::valid_batch(scenes),
        0 <= i < scenes.len(),
        doc_matches_query(q, model::doc_of_scene(scenes[i])),
        search_post(model::apply_batch(m0, scenes), q, hits, limit),
        hits.len() < limit,
    ensures
        exists|k: int| 0 <= k < hits.len() && hits[k].scene_id@ == scenes[i].id@,
{
    let snap = model::apply_batch(m0, scenes);
    lemma_apply_batch(m0, scenes);
    assert(snap.contains_key(scenes[i].id@));
    assert(snap[scenes[i].id@] == model::doc_of_scene(scenes[i]));
}

/// A literal match is reported at its absolute position: when the
/// stripped query occurs in a scene's text at character position `p`, a
/// hit formatted for that scene carries offset `base + p`.
pub proof fn lemma_offset_exact(text: Seq<char>, base: u64, q: Seq<char>, h: SearchHit, p: int)
    requires
        hit_formats(text, base, q, h),
        snippet::needle_of(q).len() > 0,
        snippet::local_match(text, q) == Some(p),
        base + p <= u64::MAX,
    ensures
        h.offset == base + p,
{
    snippet::lemma_find_from_found(text::lower(text), snippet::needle_of(q), 0, p);
}

/// The manuscript search index.
pub struct SearchIndex {
    engine: Engine,
}

impl SearchIndex {
    /// The committed documents, by scene id.
    pub closed spec fn docs(self) -> Map<Seq<char>, DocModel> {
        engine::committed(self.engine)
    }

    /// The documents visible to reads.
    pub closed spec fn snap(self) -> Map<Seq<char>, DocModel> {
        engine::snapshot(self.engine)
    }

    /// Opens the index stored in the directory at `path`, or creates an
    /// empty one there when no metadata marker exists.  The directory must
    /// already exist.
    pub fn new(path: &str) -> (r: Result<SearchIndex, SearchError>)
        ensures
            r matches Ok(ix) ==> ix.snap() == ix.docs(),
    {
        match Engine::open_or_create(path) {
            Ok(e) => Ok(SearchIndex { engine: e }),
            Err(e) => Err(SearchError::Engine { message: engine::error_text(&e) }),
        }
    }

    /// Replaces the documents of every scene in the batch: for each scene
    /// id, any existing document is deleted, one new document is added,
    /// and the whole batch is committed at once.  On success the read
    /// snapshot is refreshed; on failure readers keep observing the state
    /// from before the call.
    pub fn index_manuscript(&mut self, scenes: &Vec<IndexScene>) -> (r: Result<(), SearchError>)
        requires
            model::valid_batch(scenes@),
        ensures
            r matches Ok(_) ==> {
                &&& final(self).docs() == model::apply_batch(old(self).docs(), scenes@)
                &&& final(self).snap() == final(self).docs()
            },
            r matches Err(_) ==> final(self).snap() == old(self).snap(),
    {
        match self.engine.begin_batch() {
            Ok(_) => (),
            Err(e) => {
                return Err(SearchError::Engine { message: engine::error_text(&e) });
            },
        }
        let ghost m0 = engine::committed(self.engine);
        let ghost s0 = engine::snapshot(self.engine);
        let mut i: usize = 0;
        while i < scenes.len()
            invariant
                model::valid_batch(scenes@),
                i <= scenes@.len(),
                engine::committed(self.engine) == m0,
                engine::snapshot(self.engine) == s0,
                m0 == old(self).docs(),
                s0 == old(self).snap(),
                engine::pending_adds(self.engine) == engine::no_docs(),
                engine::pending_removals(self.engine) == model::ids_of(scenes@.take(i as int)),
            decreases scenes@.len() - i,
        {
            match self.engine.delete_scene(scenes[i].id.as_str()) {
                Ok(_) => (),
                Err(e) => {
                    return Err(SearchError::Engine { message: engine::error_text(&e) });
                },
            }
            proof {
                assert(model::ids_of(scenes@.take(i + 1)) =~= model::ids_of(
                    scenes@.take(i as int),
                ).insert(scenes@[i as int].id@)) by {
                    assert(forall|j: int| 0 <= j < i + 1 ==> scenes@.take(i + 1)[j]
                        == scenes@[j]);
                    assert(forall|j: int| 0 <= j < i ==> scenes@.take(i as int)[j]
                        == scenes@[j]);
                }
            }
            i = i + 1;
        }
        proof {
            assert(scenes@.take(scenes@.len() as int) =~= scenes@);
        }
        let mut k: usize = 0;
        while k < scenes.len()
            invariant
                model::valid_batch(scenes@),
                k <= scenes@.len(),
                engine::committed(self.engine) == m0,
                engine::snapshot(self.engine) == s0,
                m0 == old(self).docs(),
                s0 == old(self).snap(),
                engine::pending_removals(self.engine) == model::ids_of(scenes@),
                engine::pending_adds(self.engine) == model::batch_map(scenes@.take(k as int)),
            decreases scenes@.len() - k,
        {
            let tchars = text::chars_of(scenes[k].text.as_str());
            let names = extract::extract_names_chars(&tchars);
            let joined = model::join_names_exec(&names);
            let joined_str = text::string_from_chars(&joined);
            proof {
                assert(names@.map_values(|n: Vec<char>| n@) =~= extract::names_of(
                    scenes@[k as int].text@,
                ));
                assert(model::ids_of(scenes@).contains(scenes@[k as int].id@)) by {
                    assert(0 <= k < scenes@.len() && scenes@[k as int].id@ == scenes@[
                        k as int
                    ].id@);
                }
                model::lemma_batch_map_contains(scenes@.take(k as int));
                assert(!model::batch_map(scenes@.take(k as int)).contains_key(
                    scenes@[k as int].id@,
                )) by {
                    if model::batch_map(scenes@.take(k as int)).contains_key(
                        scenes@[k as int].id@,
                    ) {
                        let j = choose|j: int|
                            0 <= j < scenes@.take(k as int).len() && scenes@.take(k as int)[
                                j
                            ].id@ == scenes@[k as int].id@;
                        assert(scenes@[j].id@ == scenes@[k as int].id@);
                    }
                }
            }
            match self.engine.add_scene(&scenes[k], joined_str.as_str()) {
                Ok(_) => (),
                Err(e) => {
                    return Err(SearchError::Engine { message: engine::error_text(&e) });
                },
            }
            proof {
                assert(scenes@.take(k + 1).drop_last() =~= scenes@.take(k as int));
                assert(scenes@.take(k + 1).last() == scenes@[k as int]);
                assert(model::batch_map(scenes@.take(k + 1)) == model::batch_map(
                    scenes@.take(k as int),
                ).insert(scenes@[k as int].id@, model::doc_of_scene(scenes@[k as int])));
            }
            k = k + 1;
        }
        proof {
            assert(scenes@.take(scenes@.len() as int) =~= scenes@);
        }
        match self.engine.commit() {
            Ok(_) => (),
            Err(e) => {
                return Err(SearchError::Engine { message: engine::error_text(&e) });
            },
        }
        match self.engine.reload() {
            Ok(_) => (),
            Err(e) => {
                return Err(SearchError::Engine { message: engine::error_text(&e) });
            },
        }
        Ok(())
    }

    /// Answers a query against the current snapshot: phrase and wildcard
    /// tokens are required, plain tokens match fuzzily and any one of them
    /// suffices; the best `limit` matches come back as formatted hits.  An
    /// empty or whitespace-only query yields an empty list without error;
    /// a phrase or wildcard token the parser rejects yields a query error,
    /// and a query error comes only from such a token.
    pub fn search(&self, query_str: &str, limit: usize) -> (r: Result<Vec<SearchHit>, SearchError>)
        requires
            query::tokens_of(query_str@).len() > 0 ==> limit >= 1,
        ensures
            query::tokens_of(query_str@).len() == 0 ==> (r matches Ok(hits) && hits@.len() == 0),
            r matches Ok(hits) ==> search_post(self.snap(), query_str@, hits@, limit as int),
            query_malformed(query_str@) ==> (r matches Err(e) && e is Query),
            (r matches Err(e) && e is Query) ==> query_malformed(query_str@),
    {
        let toks = query::split_query(query_str);
        if toks.len() == 0 {
            return Ok(Vec::new());
        }
        let ghost qtoks = query::tokens_of(query_str@);
        let mut musts: Vec<EQuery> = Vec::new();
        let mut shoulds: Vec<EQuery> = Vec::new();
        let mut i: usize = 0;
        while i < toks.len()
            invariant
                qtoks == query::tokens_of(query_str@),
                toks@.len() == qtoks.len(),
                forall|k: int| 0 <= k < toks@.len() ==> toks@[k]@ == qtoks[k],
                i <= toks@.len(),
                musts@.len() == query::must_tokens(qtoks.take(i as int)).len(),
                shoulds@.len() == query::fuzzy_tokens(qtoks.take(i as int)).len(),
                forall|k: int, d: DocModel|
                    0 <= k < musts@.len() ==> #[trigger] engine::equery_matches(musts@[k], d)
                        == engine::parsed_matches(
                        query::must_tokens(qtoks.take(i as int))[k],
                        d,
                    ),
                forall|k: int, d: DocModel|
                    0 <= k < shoulds@.len() ==> #[trigger] engine::equery_matches(shoulds@[k], d)
                        == engine::fuzzy_prefix_matches(
                        query::fuzzy_tokens(qtoks.take(i as int))[k],
                        2,
                        d.text,
                    ),
                forall|k: int|
                    0 <= k < query::must_tokens(qtoks.take(i as int)).len()
                        ==> engine::parser_accepts(
                        #[trigger] query::must_tokens(qtoks.take(i as int))[k],
                    ),
            decreases toks@.len() - i,
        {
            proof {
                assert(qtoks.take(i + 1).drop_last() =~= qtoks.take(i as int));
                assert(qtoks.take(i + 1).last() == qtoks[i as int]);
            }
            let tchars = text::chars_of(toks[i].as_str());
            if query::token_is_must(&tchars) {
                match self.engine.parse_token(toks[i].as_str()) {
                    Ok(q) => {
                        musts.push(q);
                    },
                    Err(e) => {
                        proof {
                            let pre = query::must_tokens(qtoks.take(i as int));
                            assert(query::must_tokens(qtoks.take(i + 1)) == pre.push(
                                qtoks[i as int],
                            ));
                            query::lemma_must_tokens_prefix(qtoks, i + 1);
                            assert(query::must_tokens(qtoks).take(pre.len() as int + 1)[
                                pre.len() as int
                            ] == qtoks[i as int]);
                            assert(query::must_tokens(qtoks)[pre.len() as int]
                                == qtoks[i as int]);
                            assert(!engine::parser_accepts(qtoks[i as int]));
                            assert(query_malformed(query_str@));
                        }
                        return Err(SearchError::Query { message: engine::error_text(&e) });
                    },
                }
            } else {
                let q = self.engine.fuzzy_query(toks[i].as_str(), 2);
                shoulds.push(q);
            }
            i = i + 1;
        }
        proof {
            assert(qtoks.take(qtoks.len() as int) =~= qtoks);
            query::lemma_token_split(qtoks);
            assert(!query_malformed(query_str@)) by {
                if query_malformed(query_str@) {
                    let k = choose|k: int|
                        0 <= k < query::must_tokens(qtoks).len() && !engine::parser_accepts(
                            query::must_tokens(qtoks)[k],
                        );
                    assert(engine::parser_accepts(query::must_tokens(qtoks)[k]));
                }
            }
        }
        proof {
            let ms = query::must_tokens(qtoks);
            let fs = query::fuzzy_tokens(qtoks);
            assert forall|d: DocModel|
                engine::bool_matches(musts@, shoulds@, d) == doc_matches_query(
                    query_str@,
                    d,
                ) by {
                assert(musts@.len() == ms.len());
                assert(shoulds@.len() == fs.len());
                assert forall|k: int| 0 <= k < ms.len() implies engine::equery_matches(
                    musts@[k],
                    d,
                ) == engine::parsed_matches(ms[k], d) by {}
                assert forall|k: int| 0 <= k < fs.len() implies engine::equery_matches(
                    shoulds@[k],
                    d,
                ) == engine::fuzzy_prefix_matches(fs[k], 2, d.text) by {}
                if musts@.len() == 0 {
                    if exists|k: int| 0 <= k < fs.len() && engine::fuzzy_prefix_matches(
                        #[trigger] fs[k],
                        2,
                        d.text,
                    ) {
                        let k = choose|k: int|
                            0 <= k < fs.len() && engine::fuzzy_prefix_matches(fs[k], 2, d.text);
                        assert(engine::equery_matches(shoulds@[k], d));
                    }
                    if exists|k: int|
                        0 <= k < shoulds@.len() && engine::equery_matches(
                            #[trigger] shoulds@[k],
                            d,
                        ) {
                        let k = choose|k: int|
                            0 <= k < shoulds@.len() && engine::equery_matches(shoulds@[k], d);
                        assert(engine::fuzzy_prefix_matches(fs[k], 2, d.text));
                    }
                }
            }
        }
        let hits_raw = match self.engine.run_boolean(musts, shoulds, limit) {
            Ok(h) => h,
            Err(e) => {
                return Err(SearchError::Engine { message: engine::error_text(&e) });
            },
        };
        let out = match self.collect_hits(&hits_raw, query_str, limit) {
            Ok(h) => h,
            Err(e) => {
                return Err(e);
            },
        };
        proof {
            if out@.len() < limit {
                assert forall|id: Seq<char>|
                    self.snap().contains_key(id) && doc_matches_query(
                        query_str@,
                        self.snap()[id],
                    ) implies exists|k: int| 0 <= k < out@.len() && out@[k].scene_id@ == id by {
                    assert(engine::bool_matches(musts@, shoulds@, self.snap()[id]));
                    let t = choose|t: int|
                        0 <= t < hits_raw@.len() && engine::addr_id(
                            self.engine,
                            hits_raw@[t].addr,
                        ) == Some(id);
                    assert(out@[t].scene_id@ == id);
                }
            }
        }
        Ok(out)
    }

    /// Fetches and formats the documents behind a list of raw hits.
    fn collect_hits(&self, hits_raw: &Vec<engine::ScoredAddr>, query_str: &str, limit: usize) -> (r:
        Result<Vec<SearchHit>, SearchError>)
        requires
            hits_raw@.len() <= limit,
            forall|t: int|
                #![trigger hits_raw@[t]]
                0 <= t < hits_raw@.len() ==> {
                    &&& engine::addr_id(self.engine, hits_raw@[t].addr) is Some
                    &&& self.snap().contains_key(
                        engine::addr_id(self.engine, hits_raw@[t].addr).unwrap(),
                    )
                    &&& doc_matches_query(
                        query_str@,
                        self.snap()[engine::addr_id(self.engine, hits_raw@[t].addr).unwrap()],
                    )
                },
        ensures
            r matches Err(e) ==> e is Engine,
            r matches Ok(hits) ==> {
                &&& hits@.len() == hits_raw@.len()
                &&& forall|k: int| 0 <= k < hits@.len() ==> hit_ok(
                    self.snap(),
                    query_str@,
                    #[trigger] hits@[k],
                )
                &&& forall|t: int|
                    #![trigger hits@[t]]
                    0 <= t < hits@.len() ==> {
                        &&& hits@[t].scene_id@ == engine::addr_id(
                            self.engine,
                            hits_raw@[t].addr,
                        ).unwrap()
                        &&& hits@[t].score_bits == hits_raw@[t].score_bits
                    }
            },
    {
        let mut hits: Vec<SearchHit> = Vec::new();
        let mut j: usize = 0;
        while j < hits_raw.len()
            invariant
                hits_raw@.len() <= limit,
                forall|t: int|
                    #![trigger hits_raw@[t]]
                    0 <= t < hits_raw@.len() ==> {
                        &&& engine::addr_id(self.engine, hits_raw@[t].addr) is Some
                        &&& self.snap().contains_key(
                            engine::addr_id(self.engine, hits_raw@[t].addr).unwrap(),
                        )
                        &&& doc_matches_query(
                            query_str@,
                            self.snap()[engine::addr_id(self.engine, hits_raw@[t].addr).unwrap()],
                        )
                    },
                j <= hits_raw@.len(),
                hits@.len() == j,
                forall|t: int| 0 <= t < j ==> hit_ok(self.snap(), query_str@, #[trigger] hits@[t]),
                forall|t: int|
                    #![trigger hits@[t]]
                    0 <= t < j ==> {
                        &&& hits@[t].scene_id@ == engine::addr_id(
                            self.engine,
                            hits_raw@[t].addr,
                        ).unwrap()
                        &&& hits@[t].score_bits == hits_raw@[t].score_bits
                    },
            decreases hits_raw@.len() - j,
        {
            let addr = hits_raw[j].addr;
            let score = hits_raw[j].score_bits;
            let rd = match self.engine.fetch(addr) {
                Ok(d) => d,
                Err(e) => {
                    return Err(SearchError::Engine { message: engine::error_text(&e) });
                },
            };
            let h = build_hit(rd, query_str, score);
            proof {
                let id = engine::addr_id(self.engine, hits_raw@[j as int].addr).unwrap();
                assert(self.snap().contains_key(id));
                assert(hit_formats(self.snap()[id].text, self.snap()[id].offset, query_str@, h));
            }
            hits.push(h);
            j = j + 1;
        }
        Ok(hits)
    }

    /// Finds mentions of a character: the literal name, its alias-table
    /// entries and — for a two-word name — its honorific forms are
    /// searched fuzzily, and the hits are formatted against the original
    /// name.
    pub fn find_character_mentions(&self, name: &str) -> (r: Result<Vec<SearchHit>, SearchError>)
        ensures
            r matches Ok(hits) ==> mention_post(self.snap(), name@, hits@),
    {
        let variants = alias::variants_of(name);
        let ghost vs = alias::all_variants(name@);
        let mut shoulds: Vec<EQuery> = Vec::new();
        let mut i: usize = 0;
        while i < variants.len()
            invariant
                vs == alias::all_variants(name@),
                variants@.len() == vs.len(),
                forall|k: int| 0 <= k < variants@.len() ==> variants@[k]@ == vs[k],
                i <= variants@.len(),
                shoulds@.len() == i,
                forall|k: int, d: DocModel|
                    0 <= k < shoulds@.len() ==> #[trigger] engine::equery_matches(shoulds@[k], d)
                        == engine::fuzzy_prefix_matches(vs[k], 1, d.text),
            decreases variants@.len() - i,
        {
            let q = self.engine.fuzzy_query(variants[i].as_str(), 1);
            shoulds.push(q);
            i = i + 1;
        }
        let musts: Vec<EQuery> = Vec::new();
        proof {
            assert forall|d: DocModel|
                engine::bool_matches(musts@, shoulds@, d) == doc_matches_mention(
                    name@,
                    d,
                ) by {
                assert(shoulds@.len() == vs.len());
                assert forall|k: int| 0 <= k < vs.len() implies engine::equery_matches(
                    shoulds@[k],
                    d,
                ) == engine::fuzzy_prefix_matches(vs[k], 1, d.text) by {}
                if exists|k: int| 0 <= k < vs.len() && engine::fuzzy_prefix_matches(
                    #[trigger] vs[k],
                    1,
                    d.text,
                ) {
                    let k = choose|k: int|
                        0 <= k < vs.len() && engine::fuzzy_prefix_matches(vs[k], 1, d.text);
                    assert(engine::equery_matches(shoulds@[k], d));
                }
                if exists|k: int|
                    0 <= k < shoulds@.len() && engine::equery_matches(#[trigger] shoulds@[k], d) {
                    let k = choose|k: int|
                        0 <= k < shoulds@.len() && engine::equery_matches(shoulds@[k], d);
                    assert(engine::fuzzy_prefix_matches(vs[k], 1, d.text));
                }
            }
        }
        let hits_raw = match self.engine.run_boolean(musts, shoulds, MENTION_LIMIT) {
            Ok(h) => h,
            Err(e) => {
                return Err(SearchError::Engine { message: engine::error_text(&e) });
            },
        };
        let out = match self.collect_mention_hits(&hits_raw, name) {
            Ok(h) => h,
            Err(e) => {
                return Err(e);
            },
        };
        proof {
            if out@.len() < MENTION_LIMIT {
                assert forall|id: Seq<char>|
                    self.snap().contains_key(id) && doc_matches_mention(
                        name@,
                        self.snap()[id],
                    ) implies exists|k: int| 0 <= k < out@.len() && out@[k].scene_id@ == id by {
                    assert(engine::bool_matches(musts@, shoulds@, self.snap()[id]));
                    let t = choose|t: int|
                        0 <= t < hits_raw@.len() && engine::addr_id(
                            self.engine,
                            hits_raw@[t].addr,
                        ) == Some(id);
                    assert(out@[t].scene_id@ == id);
                }
            }
        }
        Ok(out)
    }

    /// Fetches and formats the documents behind a list of raw mention
    /// hits.
    fn collect_mention_hits(&self, hits_raw: &Vec<engine::ScoredAddr>, name: &str) -> (r: Result<
        Vec<SearchHit>,
        SearchError,
    >)
        requires
            hits_raw@.len() <= MENTION_LIMIT,
            forall|t: int|
                #![trigger hits_raw@[t]]
                0 <= t < hits_raw@.len() ==> {
                    &&& engine::addr_id(self.engine, hits_raw@[t].addr) is Some
                    &&& self.snap().contains_key(
                        engine::addr_id(self.engine, hits_raw@[t].addr).unwrap(),
                    )
                    &&& doc_matches_mention(
                        name@,
                        self.snap()[engine::addr_id(self.engine, hits_raw@[t].addr).unwrap()],
                    )
                },
        ensures
            r matches Err(e) ==> e is Engine,
            r matches Ok(hits) ==> {
                &&& hits@.len() == hits_raw@.len()
                &&& forall|k: int| 0 <= k < hits@.len() ==> mention_hit_ok(
                    self.snap(),
                    name@,
                    #[trigger] hits@[k],
                )
                &&& forall|t: int|
                    #![trigger hits@[t]]
                    0 <= t < hits@.len() ==> {
                        &&& hits@[t].scene_id@ == engine::addr_id(
                            self.engine,
                            hits_raw@[t].addr,
                        ).unwrap()
                        &&& hits@[t].score_bits == hits_raw@[t].score_bits
                    }
            },
    {
        let mut hits: Vec<SearchHit> = Vec::new();
        let mut j: usize = 0;
        while j < hits_raw.len()
            invariant
                forall|t: int|
                    #![trigger hits_raw@[t]]
                    0 <= t < hits_raw@.len() ==> {
                        &&& engine::addr_id(self.engine, hits_raw@[t].addr) is Some
                        &&& self.snap().contains_key(
                            engine::addr_id(self.engine, hits_raw@[t].addr).unwrap(),
                        )
                        &&& doc_matches_mention(
                            name@,
                            self.snap()[engine::addr_id(self.engine, hits_raw@[t].addr).unwrap()],
                        )
                    },
                j <= hits_raw@.len(),
                hits@.len() == j,
                forall|t: int| 0 <= t < j ==> mention_hit_ok(
                    self.snap(),
                    name@,
                    #[trigger] hits@[t],
                ),
                forall|t: int|
                    #![trigger hits@[t]]
                    0 <= t < j ==> {
                        &&& hits@[t].scene_id@ == engine::addr_id(
                            self.engine,
                            hits_raw@[t].addr,
                        ).unwrap()
                        &&& hits@[t].score_bits == hits_raw@[t].score_bits
                    },
            decreases hits_raw@.len() - j,
        {
            let addr = hits_raw[j].addr;
            let score = hits_raw[j].score_bits;
            let rd = match self.engine.fetch(addr) {
                Ok(d) => d,
                Err(e) => {
                    return Err(SearchError::Engine { message: engine::error_text(&e) });
                },
            };
            let h = build_hit(rd, name, score);
            proof {
                let id = engine::addr_id(self.engine, hits_raw@[j as int].addr).unwrap();
                assert(self.snap().contains_key(id));
                assert(hit_formats(self.snap()[id].text, self.snap()[id].offset, name@, h));
            }
            hits.push(h);
            j = j + 1;
        }
        Ok(hits)
    }
}

} // verus!
