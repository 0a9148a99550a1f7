use dreamlog::models::{Dream, Mood};
use dreamlog::store::{
    schema_sql, seed_initial_dreams, seed_plan, tally_import, upsert_plan, upsert_plan_at,
    ImportTally,
};

fn dream(id: &str, created_at: &str) -> Dream {
    Dream {
        id: id.to_string(),
        title: "New title".to_string(),
        occurred_at: "2024-05-05T05:05:05Z".to_string(),
        content: "new content".to_string(),
        tags: vec!["one".to_string(), "two".to_string()],
        mood: Mood::Scary,
        intensity: 99,
        lucid: false,
        created_at: created_at.to_string(),
        updated_at: "caller value".to_string(),
    }
}

#[test]
fn upsert_overwrites_and_stamps() {
    let plan = upsert_plan_at(dream("id-1", "2024-01-01T00:00:00Z"), "2024-06-01T00:00:00+00:00".to_string());
    assert_eq!(plan.stored.updated_at, "2024-06-01T00:00:00+00:00");
    assert_eq!(plan.stored.created_at, "2024-01-01T00:00:00Z");
    assert_eq!(plan.stored.title, "New title");
    assert_eq!(plan.row.updated_at, "2024-06-01T00:00:00+00:00");
    assert_eq!(plan.row.created_at, "2024-01-01T00:00:00Z");
    assert_eq!(plan.row.tags, "[\"one\",\"two\"]");
    assert_eq!(plan.row.mood, "scary");
    assert_eq!(plan.row.intensity, 99);
    assert_eq!(plan.row.lucid, 0);
}

#[test]
fn upsert_at_current_time_replaces_caller_stamp() {
    let plan = upsert_plan(dream("id-2", "2024-01-01T00:00:00Z"));
    assert_ne!(plan.stored.updated_at, "caller value");
    assert_eq!(plan.row.updated_at, plan.stored.updated_at);
    assert!(plan.stored.updated_at.as_str() >= "2024-01-01");
    assert_eq!(plan.stored.created_at, "2024-01-01T00:00:00Z");
}

#[test]
fn import_counts_two_existing_three_new() {
    assert_eq!(tally_import(&vec![true, false, true, false, false]), (3, 2));
    assert_eq!(tally_import(&Vec::new()), (0, 0));
}

#[test]
fn tally_records_one_by_one() {
    let mut t = ImportTally::new();
    t.record(false);
    t.record(true);
    t.record(false);
    assert_eq!(t.counts(), (2, 1));
}

#[test]
fn seed_plan_fills_empty_table_only() {
    let ids = vec!["i0".to_string(), "i1".to_string(), "i2".to_string()];
    let seeded = seed_plan(0, ids.clone(), "T".to_string());
    assert_eq!(seeded.len(), 3);
    assert_eq!(seeded[0].id, "i0");
    assert_eq!(seeded[0].title, "Flying Over Mountains");
    assert_eq!(seeded[0].mood, Mood::Happy);
    assert_eq!(seeded[1].tags, vec!["mystery".to_string(), "confusion".to_string()]);
    assert_eq!(seeded[2].intensity, 5);
    assert!(seeded.iter().all(|d| d.created_at == "T" && d.updated_at == "T"));
    assert!(seed_plan(3, ids, "T".to_string()).is_empty());
}

#[test]
fn seeding_fires_once() {
    let first = seed_initial_dreams(0);
    assert_eq!(first.len(), 3);
    assert!(first.iter().all(|d| d.id.len() == 36));
    assert_ne!(first[0].id, first[1].id);
    assert_eq!(first[0].created_at, first[0].updated_at);
    assert!(seed_initial_dreams(first.len() as i64).is_empty());
}

#[test]
fn schema_is_created_only_when_missing() {
    assert!(schema_sql().starts_with("CREATE TABLE IF NOT EXISTS dreams ("));
}
