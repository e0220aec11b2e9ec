//! The trusted boundary around the embedded search engine (tantivy).
//!
//! The engine's state is modeled by four spec-level names: the committed
//! documents and the reader's snapshot, both as maps from scene id to
//! document, and the delete and add operations pending in the open batch.
//! Every wrapper states over those names what the engine's source shows for
//! the one call its body makes.  The model reads the index as a map keyed
//! by scene id; that reading is faithful for indexes maintained through
//! this library, whose ids are addressable (`model::valid_id`) and unique.
//! It also assumes that this handle is the only one writing its directory:
//! the shell keeps one process-wide instance behind a writer lock, and a
//! second handle may only read (it pins its own snapshot).  A directory
//! written through other handles falls outside the model.
//!
//! The reader is built with the manual reload policy, so the snapshot moves
//! only on an explicit `reload` — this is what gives readers snapshot
//! isolation against concurrent writes.

use vstd::prelude::*;
use tantivy::schema::Value;
use crate::IndexScene;
use crate::model::{valid_id, DocModel};

verus! {

/// Declares tantivy's schema type, opaque to the verifier.
#[verifier::external_type_specification]
#[verifier::external_body]
pub struct ExSchema(tantivy::schema::Schema);

/// Declares tantivy's error type, opaque to the verifier.
#[verifier::external_type_specification]
#[verifier::external_body]
pub struct ExTantivyError(tantivy::TantivyError);

/// Declares tantivy's document address, opaque to the verifier.
#[verifier::external_type_specification]
#[verifier::external_body]
pub struct ExDocAddress(tantivy::DocAddress);

/// A compiled subquery, opaque to the verifier.  It wraps a boxed engine
/// query, which no type declaration can name directly.
#[verifier::external_body]
pub struct EQuery {
    q: Box<dyn tantivy::query::Query>,
}

/// The engine handle: the on-disk index, a manual-reload reader, the open
/// batch writer if any, the query parser and the schema's field handles.
#[verifier::external_body]
pub struct Engine {
    index: tantivy::Index,
    reader: tantivy::IndexReader,
    parser: tantivy::query::QueryParser,
    writer: Option<tantivy::IndexWriter>,
    scene_f: tantivy::schema::Field,
    chapter_f: tantivy::schema::Field,
    text_f: tantivy::schema::Field,
    offset_f: tantivy::schema::Field,
    chars_f: tantivy::schema::Field,
}

/// The committed documents of the index, by scene id.
pub uninterp spec fn committed(e: Engine) -> Map<Seq<char>, DocModel>;

/// The documents visible to reads: the committed state as of the last
/// reload (or of the reader's creation).
pub uninterp spec fn snapshot(e: Engine) -> Map<Seq<char>, DocModel>;

/// The scene ids whose documents the open batch will remove at commit.
pub uninterp spec fn pending_removals(e: Engine) -> Set<Seq<char>>;

/// The documents the open batch will add at commit, by scene id.
pub uninterp spec fn pending_adds(e: Engine) -> Map<Seq<char>, DocModel>;

/// The scene id stored at a document address of the current snapshot, or
/// `None` where the address does not name a snapshot document.
pub uninterp spec fn addr_id(e: Engine, a: tantivy::DocAddress) -> Option<Seq<char>>;

/// What a compiled subquery matches.
pub uninterp spec fn equery_matches(q: EQuery, d: DocModel) -> bool;

/// What the engine's query parser makes of one token (a quoted phrase or a
/// wildcard pattern): the set of documents the parsed query matches.
pub uninterp spec fn parsed_matches(tok: Seq<char>, d: DocModel) -> bool;

/// Whether the engine's query parser accepts a token at all.  Given this
/// index's fixed schema and tokenizers, acceptance is a function of the
/// token alone.
pub uninterp spec fn parser_accepts(tok: Seq<char>) -> bool;

/// What a fuzzy prefix term query matches: the set of texts holding a token
/// within the edit distance of the term, under the engine's tokenizer.
pub uninterp spec fn fuzzy_prefix_matches(term: Seq<char>, dist: u8, text: Seq<char>) -> bool;

/// The empty document map.
pub open spec fn no_docs() -> Map<Seq<char>, DocModel> {
    Map::empty()
}

/// The empty id set.
pub open spec fn no_ids() -> Set<Seq<char>> {
    Set::empty()
}

/// A document matches a boolean query when it matches every required
/// subquery and — with no required subqueries — at least one optional one.
/// A query with no subqueries at all matches nothing.
pub open spec fn bool_matches(musts: Seq<EQuery>, shoulds: Seq<EQuery>, d: DocModel) -> bool {
    &&& forall|i: int| 0 <= i < musts.len() ==> equery_matches(#[trigger] musts[i], d)
    &&& (musts.len() == 0 ==> exists|i: int|
        0 <= i < shoulds.len() && equery_matches(#[trigger] shoulds[i], d))
    &&& musts.len() + shoulds.len() > 0
}

/// A raw hit of a query run: the address of a matched document and the
/// engine's score for it, as IEEE-754 bits.
pub struct ScoredAddr {
    pub score_bits: u32,
    pub addr: tantivy::DocAddress,
}

/// The stored fields retrieved for one document.
pub struct RawDoc {
    pub scene_id: String,
    pub offset: u64,
    pub text: String,
}

/// Builds the scene schema: scene and chapter ids and the scene text
/// (all indexed with positions; text stored), the stored start offset and
/// the indexed-only character-names field.
///
/// Relies on tantivy's `SchemaBuilder`.
#[verifier::external_body]
fn build_schema() -> tantivy::schema::Schema {
    let mut b = tantivy::schema::Schema::builder();
    b.add_text_field("scene_id", tantivy::schema::TEXT | tantivy::schema::STORED);
    b.add_text_field("chapter_id", tantivy::schema::TEXT | tantivy::schema::STORED);
    b.add_text_field(
        "text",
        tantivy::schema::TextOptions::default().set_indexing_options(
            tantivy::schema::TextFieldIndexing::default().set_tokenizer("default").set_index_option(
                tantivy::schema::IndexRecordOption::WithFreqsAndPositions,
            ),
        ).set_stored(),
    );
    b.add_u64_field("offset", tantivy::schema::STORED);
    b.add_text_field("character_names", tantivy::schema::TEXT);
    b.build()
}

impl Engine {
    /// Opens the index stored in the directory at `path`, or creates an
    /// empty one there when no metadata marker exists.  The directory
    /// itself must already exist; creating it is the caller's I/O.
    ///
    /// Relies on `Index::open_or_create`, which decides by the metadata
    /// marker, and on `IndexReader` with the manual reload policy: the
    /// fresh reader sees exactly the committed state, and an engine with
    /// no writer has no pending operations.
    #[verifier::external_body]
    pub(crate) fn open_or_create(path: &str) -> (r: Result<Engine, tantivy::TantivyError>)
        ensures
            r matches Ok(e) ==> {
                &&& snapshot(e) == committed(e)
                &&& pending_removals(e) == no_ids()
                &&& pending_adds(e) == no_docs()
            },
    {
        let dir = tantivy::directory::MmapDirectory::open(path)?;
        let index = tantivy::Index::open_or_create(dir, build_schema())?;
        let reader =
            index.reader_builder().reload_policy(tantivy::ReloadPolicy::Manual).try_into()?;
        let schema = index.schema();
        let scene_f = schema.get_field("scene_id")?;
        let chapter_f = schema.get_field("chapter_id")?;
        let text_f = schema.get_field("text")?;
        let offset_f = schema.get_field("offset")?;
        let chars_f = schema.get_field("character_names")?;
        let parser = tantivy::query::QueryParser::for_index(&index, vec![text_f]);
        Ok(Engine { index, reader, parser, writer: None, scene_f, chapter_f, text_f, offset_f, chars_f })
    }

    /// Opens a fresh batch: any open writer is dropped (discarding its
    /// uncommitted operations) and a new one is created.
    ///
    /// Relies on `Index::writer`: a new writer has no pending operations,
    /// and dropping a writer without committing publishes nothing.  The
    /// memory budget is the indexer's fixed arena size.
    #[verifier::external_body]
    pub(crate) fn begin_batch(&mut self) -> (r: Result<(), tantivy::TantivyError>)
        ensures
            committed(*final(self)) == committed(*old(self)),
            snapshot(*final(self)) == snapshot(*old(self)),
            pending_removals(*final(self)) == no_ids(),
            pending_adds(*final(self)) == no_docs(),
    {
        self.writer = None;
        let w = self.index.writer::<tantivy::TantivyDocument>(50_000_000)?;
        self.writer = Some(w);
        Ok(())
    }

    /// Stamps a delete of every document whose scene id equals `id` into
    /// the open batch.  Deletes may only be stamped before the batch's
    /// adds, so that at commit they cannot swallow a document added by the
    /// same batch.
    ///
    /// Relies on `IndexWriter::delete_term` with a term on the scene-id
    /// field: the id is addressable, so its indexed token is the id itself
    /// and the delete hits exactly the documents stored under it.  The
    /// delete changes nothing visible before commit.
    #[verifier::external_body]
    pub(crate) fn delete_scene(&mut self, id: &str) -> (r: Result<(), tantivy::TantivyError>)
        requires
            valid_id(id@),
            pending_adds(*old(self)) == no_docs(),
        ensures
            committed(*final(self)) == committed(*old(self)),
            snapshot(*final(self)) == snapshot(*old(self)),
            pending_adds(*final(self)) == pending_adds(*old(self)),
            r matches Ok(_) ==> pending_removals(*final(self)) == pending_removals(*old(self)).insert(
                id@,
            ),
            r matches Err(_) ==> pending_removals(*final(self)) == pending_removals(*old(self)),
    {
        let w = match self.writer.as_ref() {
            Some(w) => w,
            None => {
                return Err(tantivy::TantivyError::SystemError("no open batch".to_string()));
            },
        };
        w.delete_term(tantivy::Term::from_field_text(self.scene_f, id));
        Ok(())
    }

    /// Stamps the addition of one scene document into the open batch.  The
    /// document stores the scene's id, chapter, text and offset, and
    /// indexes `names_joined` as its character-names value.
    ///
    /// Relies on `IndexWriter::add_document`: the document is stamped after
    /// the batch's deletes and becomes visible only at commit.  An add
    /// never displaces an existing document, so the batch must carry a
    /// pending delete for the id — or the id must be absent from the
    /// committed state — for the map model of `commit` to hold.
    #[verifier::external_body]
    pub(crate) fn add_scene(&mut self, scene: &IndexScene, names_joined: &str) -> (r: Result<
        (),
        tantivy::TantivyError,
    >)
        requires
            valid_id(scene.id@),
            !pending_adds(*old(self)).contains_key(scene.id@),
            pending_removals(*old(self)).contains(scene.id@) || !committed(
                *old(self),
            ).contains_key(scene.id@),
        ensures
            committed(*final(self)) == committed(*old(self)),
            snapshot(*final(self)) == snapshot(*old(self)),
            pending_removals(*final(self)) == pending_removals(*old(self)),
            r matches Ok(_) ==> pending_adds(*final(self)) == pending_adds(*old(self)).insert(
                scene.id@,
                DocModel {
                    scene_id: scene.id@,
                    chapter_id: scene.chapter_id@,
                    text: scene.text@,
                    offset: scene.start_offset,
                    names_text: names_joined@,
                },
            ),
            r matches Err(_) ==> pending_adds(*final(self)) == pending_adds(*old(self)),
    {
        let w = match self.writer.as_ref() {
            Some(w) => w,
            None => {
                return Err(tantivy::TantivyError::SystemError("no open batch".to_string()));
            },
        };
        let mut d = tantivy::TantivyDocument::new();
        d.add_text(self.scene_f, &scene.id);
        d.add_text(self.chapter_f, &scene.chapter_id);
        d.add_text(self.text_f, &scene.text);
        d.add_u64(self.offset_f, scene.start_offset);
        d.add_text(self.chars_f, names_joined);
        w.add_document(d)?;
        Ok(())
    }

    /// Commits the open batch: the batch's deletes are applied to the
    /// committed state, then its adds.  Readers see nothing until a
    /// reload.
    ///
    /// Relies on `IndexWriter::commit`: it publishes exactly the stamped
    /// operations, in stamp order, and the manual-reload reader is
    /// untouched.
    #[verifier::external_body]
    pub(crate) fn commit(&mut self) -> (r: Result<(), tantivy::TantivyError>)
        ensures
            snapshot(*final(self)) == snapshot(*old(self)),
            r matches Ok(_) ==> {
                &&& committed(*final(self)) == committed(*old(self)).remove_keys(
                    pending_removals(*old(self)),
                ).union_prefer_right(pending_adds(*old(self)))
                &&& pending_removals(*final(self)) == no_ids()
                &&& pending_adds(*final(self)) == no_docs()
            },
    {
        let w = match self.writer.as_mut() {
            Some(w) => w,
            None => {
                return Err(tantivy::TantivyError::SystemError("no open batch".to_string()));
            },
        };
        w.commit()?;
        Ok(())
    }

    /// Refreshes the snapshot: after a successful reload, reads observe
    /// the committed state.
    ///
    /// Relies on `IndexReader::reload`: it builds a fresh searcher over the
    /// committed state and stores it only on success, so a failed reload
    /// leaves the snapshot as it was.
    #[verifier::external_body]
    pub(crate) fn reload(&mut self) -> (r: Result<(), tantivy::TantivyError>)
        ensures
            committed(*final(self)) == committed(*old(self)),
            pending_removals(*final(self)) == pending_removals(*old(self)),
            pending_adds(*final(self)) == pending_adds(*old(self)),
            r matches Ok(_) ==> snapshot(*final(self)) == committed(*old(self)),
            r matches Err(_) ==> snapshot(*final(self)) == snapshot(*old(self)),
    {
        self.reader.reload()?;
        Ok(())
    }

    /// Compiles one phrase or wildcard token with the engine's query
    /// parser, against the text field by default.
    ///
    /// Relies on `QueryParser::parse_query`: both whether the token is
    /// accepted (`parser_accepts`) and what the compiled query matches
    /// (`parsed_matches`) are functions of the token alone, given this
    /// index's fixed schema.
    #[verifier::external_body]
    pub(crate) fn parse_token(&self, token: &str) -> (r: Result<EQuery, tantivy::TantivyError>)
        ensures
            (r is Ok) == parser_accepts(token@),
            r matches Ok(q) ==> forall|d: DocModel| #[trigger]
                equery_matches(q, d) == parsed_matches(token@, d),
    {
        let q = self.parser.parse_query(token)?;
        Ok(EQuery { q })
    }

    /// Compiles a fuzzy prefix term query on the text field.
    ///
    /// Relies on `FuzzyTermQuery::new_prefix`: the query matches the
    /// documents whose text holds a token with a prefix within the given
    /// Levenshtein distance of the term (transpositions cost one); the
    /// engine only executes distances up to two.
    #[verifier::external_body]
    pub(crate) fn fuzzy_query(&self, term: &str, distance: u8) -> (r: EQuery)
        requires
            distance <= 2,
        ensures
            forall|d: DocModel| #[trigger] equery_matches(r, d) == fuzzy_prefix_matches(
                term@,
                distance,
                d.text,
            ),
    {
        let t = tantivy::Term::from_field_text(self.text_f, term);
        EQuery { q: Box::new(tantivy::query::FuzzyTermQuery::new_prefix(t, distance, true)) }
    }

    /// Runs a boolean query over the snapshot and returns the addresses of
    /// the `limit` best-scoring matching documents.
    ///
    /// Relies on `Searcher::search` with the top-docs collector: every
    /// returned address names a snapshot document matching the boolean
    /// query, the addresses are pairwise distinct (the collector returns
    /// each document once), and when fewer than `limit` addresses come
    /// back, every matching snapshot document is among them.  The
    /// collector refuses a limit of zero.
    #[verifier::external_body]
    pub(crate) fn run_boolean(&self, musts: Vec<EQuery>, shoulds: Vec<EQuery>, limit: usize) -> (r:
        Result<Vec<ScoredAddr>, tantivy::TantivyError>)
        requires
            limit >= 1,
        ensures
            r matches Ok(hits) ==> {
                &&& hits@.len() <= limit
                &&& forall|i: int, j: int|
                    #![trigger hits@[i], hits@[j]]
                    0 <= i < j < hits@.len() ==> hits@[i].addr != hits@[j].addr
                &&& forall|i: int| #![trigger hits@[i]] 0 <= i < hits@.len() ==> {
                    &&& addr_id(*self, hits@[i].addr) is Some
                    &&& snapshot(*self).contains_key(addr_id(*self, hits@[i].addr).unwrap())
                    &&& bool_matches(
                        musts@,
                        shoulds@,
                        snapshot(*self)[addr_id(*self, hits@[i].addr).unwrap()],
                    )
                }
                &&& hits@.len() < limit ==> forall|id: Seq<char>|
                    #![trigger snapshot(*self).contains_key(id)]
                    snapshot(*self).contains_key(id) && bool_matches(
                        musts@,
                        shoulds@,
                        snapshot(*self)[id],
                    ) ==> exists|i: int|
                        0 <= i < hits@.len() && addr_id(*self, hits@[i].addr) == Some(id)
            },
    {
        let subs: Vec<(tantivy::query::Occur, Box<dyn tantivy::query::Query>)> = musts
            .into_iter()
            .map(|e| (tantivy::query::Occur::Must, e.q))
            .chain(shoulds.into_iter().map(|e| (tantivy::query::Occur::Should, e.q)))
            .collect();
        let query = tantivy::query::BooleanQuery::from(subs);
        let searcher = self.reader.searcher();
        let top = searcher.search(
            &query,
            &tantivy::collector::TopDocs::with_limit(limit).order_by_score(),
        )?;
        Ok(top.into_iter().map(|(s, a)| ScoredAddr { score_bits: s.to_bits(), addr: a }).collect())
    }

    /// Retrieves the stored fields of the snapshot document at an address.
    ///
    /// Relies on `Searcher::doc`: the store returns the document's fields
    /// as they were added, so the result agrees with the snapshot entry of
    /// the scene id stored at the address.
    #[verifier::external_body]
    pub(crate) fn fetch(&self, addr: tantivy::DocAddress) -> (r: Result<RawDoc, tantivy::TantivyError>)
        requires
            addr_id(*self, addr) is Some,
        ensures
            r matches Ok(d) ==> {
                &&& addr_id(*self, addr) == Some(d.scene_id@)
                &&& snapshot(*self).contains_key(d.scene_id@)
                &&& snapshot(*self)[d.scene_id@].text == d.text@
                &&& snapshot(*self)[d.scene_id@].offset == d.offset
            },
    {
        let searcher = self.reader.searcher();
        let doc: tantivy::TantivyDocument = searcher.doc(addr)?;
        let scene_id = doc.get_first(self.scene_f).and_then(|v| v.as_str()).unwrap_or("").to_string();
        let offset = doc.get_first(self.offset_f).and_then(|v| v.as_u64()).unwrap_or(0);
        let text = doc.get_first(self.text_f).and_then(|v| v.as_str()).unwrap_or("").to_string();
        Ok(RawDoc { scene_id, offset, text })
    }
}

/// The descriptive message of an engine error.
///
/// Relies on `TantivyError`'s `Display` implementation.
#[verifier::external_body]
pub(crate) fn error_text(e: &tantivy::TantivyError) -> String {
    format!("{e}")
}

} // verus!
