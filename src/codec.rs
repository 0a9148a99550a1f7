use crate::models::{lemma_mood_token_round_trip, mood_of_token, mood_token, texts, Dream, DreamModel, Mood};
use vstd::prelude::*;

verus! {

/// The JSON array text that serde_json writes for a list of strings.
pub uninterp spec fn tags_json(tags: Seq<Seq<char>>) -> Seq<char>;

/// The list of strings that serde_json reads from a text, if it is a JSON
/// array of strings.
pub uninterp spec fn tags_parse(text: Seq<char>) -> Option<Seq<Seq<char>>>;

/// Relies on `serde_json::to_string`: a `Vec<String>` serialises as the JSON
/// array of its strings, and serialising it cannot fail.
#[verifier::external_body]
fn tags_to_json(tags: &Vec<String>) -> (r: String)
    ensures
        r@ == tags_json(texts(tags@)),
{
    serde_json::to_string(tags).unwrap_or_default()
}

/// Relies on `serde_json::from_str::<Vec<String>>`: it reads a JSON array of
/// strings, fails on any other text, and reads back what `to_string` wrote
/// for a list of strings.
#[verifier::external_body]
fn tags_from_json(text: &str) -> (r: Option<Vec<String>>)
    ensures
        r is Some <==> tags_parse(text@) is Some,
        r is Some ==> tags_parse(text@) == Some(texts(r->0@)),
        forall|t: Seq<Seq<char>>|
            #[trigger] tags_json(t) == text@ ==> (r is Some && texts(r->0@) == t),
{
    serde_json::from_str::<Vec<String>>(text).ok()
}

/// The tags stored in a column: the list it holds, or none when the text is
/// not a JSON array of strings.
pub open spec fn tags_decoded(text: Seq<char>) -> Seq<Seq<char>> {
    match tags_parse(text) {
        Some(t) => t,
        None => Seq::empty(),
    }
}

/// The mood stored in a column; a token that names no mood reads as neutral.
pub open spec fn mood_decoded(token: Seq<char>) -> Mood {
    match mood_of_token(token) {
        Some(m) => m,
        None => Mood::Neutral,
    }
}

/// Writes the tags of a dream as the text of its column.
pub fn encode_tags(tags: &Vec<String>) -> (r: String)
    ensures
        r@ == tags_json(texts(tags@)),
{
    tags_to_json(tags)
}

/// Reads the tags column; malformed text reads as no tags.
pub fn decode_tags(text: &str) -> (r: Vec<String>)
    ensures
        texts(r@) == tags_decoded(text@),
        forall|t: Seq<Seq<char>>| #[trigger] tags_json(t) == text@ ==> texts(r@) == t,
{
    match tags_from_json(text) {
        Some(v) => v,
        None => {
            let v: Vec<String> = Vec::new();
            assert(texts(v@) =~= Seq::<Seq<char>>::empty());
            v
        },
    }
}

/// Reads the mood column; an unknown token reads as `Neutral`.
pub fn decode_mood(token: &str) -> (r: Mood)
    ensures
        r == mood_decoded(token@),
{
    match Mood::from_str(token) {
        Some(m) => m,
        None => Mood::Neutral,
    }
}

/// A row of the `dreams` table, column by column.
#[derive(Debug, Clone)]
pub struct DreamRow {
    pub id: String,
    pub title: String,
    pub occurred_at: String,
    pub content: String,
    pub tags: String,
    pub mood: String,
    pub intensity: i32,
    pub lucid: i32,
    pub created_at: String,
    pub updated_at: String,
}

/// The dream that a row holds, decoded leniently.
pub open spec fn row_model(row: DreamRow) -> DreamModel {
    DreamModel {
        id: row.id@,
        title: row.title@,
        occurred_at: row.occurred_at@,
        content: row.content@,
        tags: tags_decoded(row.tags@),
        mood: mood_decoded(row.mood@),
        intensity: row.intensity,
        lucid: row.lucid != 0,
        created_at: row.created_at@,
        updated_at: row.updated_at@,
    }
}

/// The column values that store a dream written at time `now`.
pub open spec fn row_written(d: DreamModel, now: Seq<char>) -> (Seq<char>, Seq<char>, Seq<char>, Seq<char>, Seq<char>, Seq<char>, i32, i32, Seq<char>, Seq<char>) {
    (
        d.id,
        d.title,
        d.occurred_at,
        d.content,
        tags_json(d.tags),
        mood_token(d.mood),
        d.intensity,
        if d.lucid { 1i32 } else { 0i32 },
        d.created_at,
        now,
    )
}

/// The column values of a row.
pub open spec fn row_columns(row: DreamRow) -> (Seq<char>, Seq<char>, Seq<char>, Seq<char>, Seq<char>, Seq<char>, i32, i32, Seq<char>, Seq<char>) {
    (
        row.id@,
        row.title@,
        row.occurred_at@,
        row.content@,
        row.tags@,
        row.mood@,
        row.intensity,
        row.lucid,
        row.created_at@,
        row.updated_at@,
    )
}

/// The dream `d` as it stands after a write at time `now`.
pub open spec fn stamped(d: DreamModel, now: Seq<char>) -> DreamModel {
    DreamModel { updated_at: now, ..d }
}

pub(crate) fn copy_text(s: &String) -> (r: String)
    ensures
        r@ == s@,
{
    s.clone()
}

impl DreamRow {
    /// The row that stores `dream`, written at time `now`: the tags as a JSON
    /// array, the mood as its token, `lucid` as 0 or 1, and `now` as the time
    /// of the last write.
    pub fn from_dream(dream: &Dream, now: &String) -> (r: DreamRow)
        ensures
            row_columns(r) == row_written(dream@, now@),
    {
        DreamRow {
            id: copy_text(&dream.id),
            title: copy_text(&dream.title),
            occurred_at: copy_text(&dream.occurred_at),
            content: copy_text(&dream.content),
            tags: encode_tags(&dream.tags),
            mood: dream.mood.as_str().to_string(),
            intensity: dream.intensity,
            lucid: if dream.lucid { 1 } else { 0 },
            created_at: copy_text(&dream.created_at),
            updated_at: copy_text(now),
        }
    }

    /// The dream this row holds. Malformed tags read as none and an unknown
    /// mood reads as `Neutral`: decoding never fails.
    pub fn to_dream(&self) -> (r: Dream)
        ensures
            r@ == row_model(*self),
            forall|t: Seq<Seq<char>>| #[trigger] tags_json(t) == self.tags@ ==> r@.tags == t,
    {
        Dream {
            id: copy_text(&self.id),
            title: copy_text(&self.title),
            occurred_at: copy_text(&self.occurred_at),
            content: copy_text(&self.content),
            tags: decode_tags(self.tags.as_str()),
            mood: decode_mood(self.mood.as_str()),
            intensity: self.intensity,
            lucid: self.lucid != 0,
            created_at: copy_text(&self.created_at),
            updated_at: copy_text(&self.updated_at),
        }
    }
}

/// A dream written and then read back is the dream as written, with the time
/// of the write as its `updated_at`: its mood comes back unchanged, and its
/// tags in the same order once their JSON text reads back as written, which
/// `decode_tags` ensures of any text that `encode_tags` wrote.
pub proof fn lemma_row_round_trip(d: DreamModel, now: Seq<char>, row: DreamRow)
    requires
        row_columns(row) == row_written(d, now),
        tags_parse(tags_json(d.tags)) == Some(d.tags),
    ensures
        row_model(row) == stamped(d, now),
{
    lemma_mood_token_round_trip(d.mood);
}

} // verus!
