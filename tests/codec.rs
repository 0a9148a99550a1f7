use dreamlog::codec::{decode_mood, decode_tags, encode_tags, DreamRow};
use dreamlog::models::{Dream, Mood};

fn strings(v: &[&str]) -> Vec<String> {
    v.iter().map(|s| s.to_string()).collect()
}

fn sample() -> Dream {
    Dream {
        id: "3f2b8c1e-0000-4000-8000-000000000001".to_string(),
        title: "Falling".to_string(),
        occurred_at: "2024-02-01T03:00:00Z".to_string(),
        content: "A long fall".to_string(),
        tags: strings(&["zeta", "alpha", "mid"]),
        mood: Mood::Weird,
        intensity: 7,
        lucid: true,
        created_at: "2024-02-01T08:00:00Z".to_string(),
        updated_at: "stale".to_string(),
    }
}

#[test]
fn encode_tags_writes_json_array() {
    assert_eq!(encode_tags(&strings(&["a", "b"])), "[\"a\",\"b\"]");
    assert_eq!(encode_tags(&Vec::new()), "[]");
}

#[test]
fn tags_round_trip_keeps_order() {
    let tags = strings(&["night", "a \"quoted\" tag", "über", "", "night"]);
    let text = encode_tags(&tags);
    assert_eq!(decode_tags(&text), tags);
}

#[test]
fn corrupted_tags_decode_to_empty() {
    assert!(decode_tags("not json at all").is_empty());
    assert!(decode_tags("{\"a\":1}").is_empty());
    assert!(decode_tags("[1,2]").is_empty());
    assert_eq!(decode_tags("[\"x\"]"), strings(&["x"]));
}

#[test]
fn unknown_mood_decodes_to_neutral() {
    assert_eq!(decode_mood("furious"), Mood::Neutral);
    assert_eq!(decode_mood(""), Mood::Neutral);
    assert_eq!(decode_mood("sad"), Mood::Sad);
}

#[test]
fn row_from_dream_columns() {
    let d = sample();
    let row = DreamRow::from_dream(&d, &"2024-03-01T00:00:00+00:00".to_string());
    assert_eq!(row.id, d.id);
    assert_eq!(row.tags, "[\"zeta\",\"alpha\",\"mid\"]");
    assert_eq!(row.mood, "weird");
    assert_eq!(row.intensity, 7);
    assert_eq!(row.lucid, 1);
    assert_eq!(row.created_at, "2024-02-01T08:00:00Z");
    assert_eq!(row.updated_at, "2024-03-01T00:00:00+00:00");
}

#[test]
fn row_round_trip_keeps_fields() {
    let d = sample();
    let now = "2024-03-01T00:00:00+00:00".to_string();
    let back = DreamRow::from_dream(&d, &now).to_dream();
    assert_eq!(back.id, d.id);
    assert_eq!(back.title, d.title);
    assert_eq!(back.occurred_at, d.occurred_at);
    assert_eq!(back.content, d.content);
    assert_eq!(back.tags, d.tags);
    assert_eq!(back.mood, d.mood);
    assert_eq!(back.intensity, d.intensity);
    assert_eq!(back.lucid, d.lucid);
    assert_eq!(back.created_at, d.created_at);
    assert_eq!(back.updated_at, now);
}

#[test]
fn corrupted_row_reads_leniently() {
    let row = DreamRow {
        id: "x".to_string(),
        title: "t".to_string(),
        occurred_at: "2024-01-01T00:00:00Z".to_string(),
        content: "c".to_string(),
        tags: "garbage[".to_string(),
        mood: "ecstatic".to_string(),
        intensity: -3,
        lucid: 0,
        created_at: "a".to_string(),
        updated_at: "b".to_string(),
    };
    let d = row.to_dream();
    assert!(d.tags.is_empty());
    assert_eq!(d.mood, Mood::Neutral);
    assert_eq!(d.intensity, -3);
    assert!(!d.lucid);
}
