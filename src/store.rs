use crate::codec::{row_columns, row_model, row_written, stamped, tags_json, tags_parse, DreamRow};
use crate::models::{texts, Dream, DreamModel, Mood};
use vstd::prelude::*;
use vstd::string::StringExecFns;

verus! {

/// Relies on `chrono::Utc::now().to_rfc3339()`: the current time as RFC 3339
/// text, of which nothing else is known.
#[verifier::external_body]
fn now_rfc3339() -> (r: String) {
    chrono::Utc::now().to_rfc3339()
}

/// Relies on `uuid::Uuid::new_v4().to_string()`: a random identifier in its
/// hyphenated form, which has 36 characters.
#[verifier::external_body]
fn fresh_id() -> (r: String)
    ensures
        r@.len() == 36,
{
    uuid::Uuid::new_v4().to_string()
}

/// The statement that creates the table when it is missing, so that running
/// it again leaves the rows as they are.
pub fn schema_sql() -> (r: &'static str)
    ensures
        r@ == "CREATE TABLE IF NOT EXISTS dreams (id TEXT PRIMARY KEY, title TEXT NOT NULL, occurred_at TEXT NOT NULL, content TEXT NOT NULL, tags TEXT NOT NULL, mood TEXT NOT NULL, intensity INTEGER NOT NULL, lucid INTEGER NOT NULL, created_at TEXT NOT NULL, updated_at TEXT NOT NULL)"@,
{
    "CREATE TABLE IF NOT EXISTS dreams (id TEXT PRIMARY KEY, title TEXT NOT NULL, occurred_at TEXT NOT NULL, content TEXT NOT NULL, tags TEXT NOT NULL, mood TEXT NOT NULL, intensity INTEGER NOT NULL, lucid INTEGER NOT NULL, created_at TEXT NOT NULL, updated_at TEXT NOT NULL)"
}

/// The statement that reads the row with a given id.
pub fn get_sql() -> (r: &'static str)
    ensures
        r@ == "SELECT id, title, occurred_at, content, tags, mood, intensity, lucid, created_at, updated_at FROM dreams WHERE id = ?"@,
{
    "SELECT id, title, occurred_at, content, tags, mood, intensity, lucid, created_at, updated_at FROM dreams WHERE id = ?"
}

/// The statement that writes a whole row, replacing any row with its id; its
/// arguments are the ten columns in table order.
pub fn upsert_sql() -> (r: &'static str)
    ensures
        r@ == "INSERT OR REPLACE INTO dreams (id, title, occurred_at, content, tags, mood, intensity, lucid, created_at, updated_at) VALUES (?, ?, ?, ?, ?, ?, ?, ?, ?, ?)"@,
{
    "INSERT OR REPLACE INTO dreams (id, title, occurred_at, content, tags, mood, intensity, lucid, created_at, updated_at) VALUES (?, ?, ?, ?, ?, ?, ?, ?, ?, ?)"
}

/// The statement that removes the row with a given id, if there is one.
pub fn delete_sql() -> (r: &'static str)
    ensures
        r@ == "DELETE FROM dreams WHERE id = ?"@,
{
    "DELETE FROM dreams WHERE id = ?"
}

/// The statement that counts the rows.
pub fn count_sql() -> (r: &'static str)
    ensures
        r@ == "SELECT COUNT(*) FROM dreams"@,
{
    "SELECT COUNT(*) FROM dreams"
}

/// What an upsert writes, and what it hands back.
pub struct UpsertPlan {
    /// The row that replaces any row with the same id.
    pub row: DreamRow,
    /// The dream as stored.
    pub stored: Dream,
}

/// The dream with `now` as the time of its last write; every other field,
/// `created_at` included, is kept.
pub fn stamp(dream: Dream, now: String) -> (r: Dream)
    ensures
        r@ == stamped(dream@, now@),
{
    Dream { updated_at: now, ..dream }
}

/// The upsert of `dream` at time `now`: the whole row is rewritten from the
/// dream, with `now` as its `updated_at`.
pub fn upsert_plan_at(dream: Dream, now: String) -> (r: UpsertPlan)
    ensures
        row_columns(r.row) == row_written(dream@, now@),
        r.stored@ == stamped(dream@, now@),
{
    let row = DreamRow::from_dream(&dream, &now);
    UpsertPlan { row, stored: stamp(dream, now) }
}

/// The upsert of `dream` at the current time, whatever the clock reads.
pub fn upsert_plan(dream: Dream) -> (r: UpsertPlan)
    ensures
        row_columns(r.row) == row_written(dream@, r.stored.updated_at@),
        r.stored@ == stamped(dream@, r.stored.updated_at@),
{
    let now = now_rfc3339();
    upsert_plan_at(dream, now)
}

/// An upsert over an existing row replaces every field with the new
/// dream's, and keeps `created_at` when the new dream carries the stored
/// one. Reading the row back gives the stored dream, given that the tags'
/// JSON text reads back as written.
pub proof fn lemma_upsert_overwrites(before: DreamRow, d: DreamModel, now: Seq<char>, after: DreamRow)
    requires
        row_columns(after) == row_written(d, now),
        tags_parse(tags_json(d.tags)) == Some(d.tags),
        d.id == before.id@,
        d.created_at == before.created_at@,
    ensures
        row_model(after) == stamped(d, now),
        row_model(after).id == row_model(before).id,
        row_model(after).created_at == row_model(before).created_at,
{
    crate::codec::lemma_row_round_trip(d, now, after);
}

/// How many records an import added and how many it replaced.
pub struct ImportTally {
    pub imported: usize,
    pub updated: usize,
}

impl ImportTally {
    pub fn new() -> (r: ImportTally)
        ensures
            r.imported == 0,
            r.updated == 0,
    {
        ImportTally { imported: 0, updated: 0 }
    }

    /// Counts one record: as replaced when a row with its id existed before
    /// it was written, else as added.
    pub fn record(&mut self, existed: bool)
        requires
            old(self).imported + old(self).updated < usize::MAX,
        ensures
            final(self).imported == old(self).imported + if existed { 0usize } else { 1usize },
            final(self).updated == old(self).updated + if existed { 1usize } else { 0usize },
    {
        if existed {
            self.updated = self.updated + 1;
        } else {
            self.imported = self.imported + 1;
        }
    }

    /// The counts as (added, replaced).
    pub fn counts(&self) -> (r: (usize, usize))
        ensures
            r == (self.imported, self.updated),
    {
        (self.imported, self.updated)
    }
}

/// How many of the flags are false.
pub open spec fn count_absent(existed: Seq<bool>) -> nat
    decreases existed.len(),
{
    if existed.len() == 0 {
        0
    } else {
        count_absent(existed.drop_last()) + if existed.last() { 0nat } else { 1nat }
    }
}

/// Counting a whole import: of `n` records, those whose id was absent are
/// added and the rest replaced, so the two counts sum to `n`.
pub fn tally_import(existed: &Vec<bool>) -> (r: (usize, usize))
    ensures
        r.0 == count_absent(existed@),
        r.0 + r.1 == existed@.len(),
{
    let mut tally = ImportTally::new();
    let mut i: usize = 0;
    assert(existed@.take(0) =~= Seq::<bool>::empty());
    while i < existed.len()
        invariant
            i <= existed.len(),
            tally.imported == count_absent(existed@.take(i as int)),
            tally.imported + tally.updated == i,
        decreases existed.len() - i,
    {
        proof {
            let next = existed@.take(i + 1);
            assert(next.drop_last() =~= existed@.take(i as int));
        }
        tally.record(existed[i]);
        i += 1;
    }
    assert(existed@.take(i as int) =~= existed@);
    tally.counts()
}

/// The example dreams that seed an empty journal, with their ids and the
/// seeding time.
pub open spec fn seed_examples(ids: Seq<Seq<char>>, now: Seq<char>) -> Seq<DreamModel> {
    seq![
        DreamModel {
            id: ids[0],
            title: "Flying Over Mountains"@,
            occurred_at: "2024-01-25T08:30:00Z"@,
            content: "I was soaring through the air, gliding effortlessly over snow-capped mountains. The wind felt cool on my face and I could see an endless landscape below me."@,
            tags: seq!["adventure"@, "freedom"@],
            mood: Mood::Happy,
            intensity: 4,
            lucid: true,
            created_at: now,
            updated_at: now,
        },
        DreamModel {
            id: ids[1],
            title: "Lost in an Old Library"@,
            occurred_at: "2024-01-24T06:00:00Z"@,
            content: "I wandered through an endless library filled with books I'd never seen before. The shelves stretched into darkness and I couldn't find the exit."@,
            tags: seq!["mystery"@, "confusion"@],
            mood: Mood::Weird,
            intensity: 3,
            lucid: false,
            created_at: now,
            updated_at: now,
        },
        DreamModel {
            id: ids[2],
            title: "Dancing Under Starlight"@,
            occurred_at: "2024-01-23T07:45:00Z"@,
            content: "A beautiful night under the stars where I danced with someone close to me. Everything felt perfect and the music was entrancing."@,
            tags: seq!["romance"@, "music"@],
            mood: Mood::Romantic,
            intensity: 5,
            lucid: false,
            created_at: now,
            updated_at: now,
        },
    ]
}

fn text(s: &str) -> (r: String)
    ensures
        r@ == s@,
{
    String::from_str(s)
}

fn tag_pair(a: &str, b: &str) -> (r: Vec<String>)
    ensures
        texts(r@) == seq![a@, b@],
{
    let r = vec![text(a), text(b)];
    assert(texts(r@) =~= seq![a@, b@]);
    r
}

/// The dreams that seeding writes into a table holding `row_count` rows: the
/// examples when it is empty, nothing otherwise.
pub fn seed_plan(row_count: i64, ids: Vec<String>, now: String) -> (r: Vec<Dream>)
    requires
        ids.len() == 3,
    ensures
        row_count != 0 ==> r@.len() == 0,
        row_count == 0 ==> crate::query::dream_models(r@) == seed_examples(texts(ids@), now@),
{
    let mut out: Vec<Dream> = Vec::new();
    if row_count != 0 {
        return out;
    }
    out.push(Dream {
        id: ids[0].clone(),
        title: text("Flying Over Mountains"),
        occurred_at: text("2024-01-25T08:30:00Z"),
        content: text(
            "I was soaring through the air, gliding effortlessly over snow-capped mountains. The wind felt cool on my face and I could see an endless landscape below me.",
        ),
        tags: tag_pair("adventure", "freedom"),
        mood: Mood::Happy,
        intensity: 4,
        lucid: true,
        created_at: now.clone(),
        updated_at: now.clone(),
    });
    out.push(Dream {
        id: ids[1].clone(),
        title: text("Lost in an Old Library"),
        occurred_at: text("2024-01-24T06:00:00Z"),
        content: text(
            "I wandered through an endless library filled with books I'd never seen before. The shelves stretched into darkness and I couldn't find the exit.",
        ),
        tags: tag_pair("mystery", "confusion"),
        mood: Mood::Weird,
        intensity: 3,
        lucid: false,
        created_at: now.clone(),
        updated_at: now.clone(),
    });
    out.push(Dream {
        id: ids[2].clone(),
        title: text("Dancing Under Starlight"),
        occurred_at: text("2024-01-23T07:45:00Z"),
        content: text(
            "A beautiful night under the stars where I danced with someone close to me. Everything felt perfect and the music was entrancing.",
        ),
        tags: tag_pair("romance", "music"),
        mood: Mood::Romantic,
        intensity: 5,
        lucid: false,
        created_at: now.clone(),
        updated_at: now,
    });
    assert(crate::query::dream_models(out@) =~= seed_examples(texts(ids@), now@));
    out
}

/// Seeding at the current time with fresh ids. It fires only on an empty
/// table: once the examples are written the table is not empty, so seeding
/// again writes nothing.
pub fn seed_initial_dreams(row_count: i64) -> (r: Vec<Dream>)
    ensures
        row_count != 0 ==> r@.len() == 0,
        row_count == 0 ==> r@.len() == 3,
        row_count == 0 ==> exists|ids: Seq<Seq<char>>, now: Seq<char>|
            crate::query::dream_models(r@) == seed_examples(ids, now),
{
    let ids = vec![fresh_id(), fresh_id(), fresh_id()];
    let now = now_rfc3339();
    let r = seed_plan(row_count, ids, now);
    proof {
        if row_count == 0 {
            assert(crate::query::dream_models(r@).len() == 3);
        }
    }
    r
}

} // verus!
