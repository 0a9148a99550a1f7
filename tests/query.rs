use dreamlog::codec::DreamRow;
use dreamlog::models::ListDreamsFilter;
use dreamlog::query::{collect_listing, has_all_tags, list_query, render_query, Clause};

const HEAD: &str = "SELECT id, title, occurred_at, content, tags, mood, intensity, lucid, created_at, updated_at FROM dreams WHERE 1=1";

fn strings(v: &[&str]) -> Vec<String> {
    v.iter().map(|s| s.to_string()).collect()
}

fn row(id: &str, occurred_at: &str, tags: &str, mood: &str) -> DreamRow {
    DreamRow {
        id: id.to_string(),
        title: format!("title {}", id),
        occurred_at: occurred_at.to_string(),
        content: "c".to_string(),
        tags: tags.to_string(),
        mood: mood.to_string(),
        intensity: 1,
        lucid: 0,
        created_at: "c".to_string(),
        updated_at: "u".to_string(),
    }
}

#[test]
fn empty_filter_lists_everything_latest_first() {
    let q = list_query(&ListDreamsFilter::default());
    assert_eq!(q.sql, format!("{} ORDER BY occurred_at DESC", HEAD));
    assert!(q.args.is_empty());
}

#[test]
fn mood_and_range_clauses_combine() {
    let filter = ListDreamsFilter {
        mood: Some("happy".to_string()),
        date_from: Some("2024-01-02".to_string()),
        date_to: Some("2024-01-03T23:59:59Z".to_string()),
        ..ListDreamsFilter::default()
    };
    let q = list_query(&filter);
    assert_eq!(
        q.sql,
        format!(
            "{} AND mood = ? AND occurred_at >= ? AND occurred_at <= ? ORDER BY occurred_at DESC",
            HEAD
        )
    );
    assert_eq!(q.args, strings(&["happy", "2024-01-02", "2024-01-03T23:59:59Z"]));
}

#[test]
fn every_clause_in_order_with_aligned_args() {
    let filter = ListDreamsFilter {
        query: Some("fly".to_string()),
        mood: Some("sad".to_string()),
        tags: Some(strings(&["ignored-by-sql"])),
        date_from: Some("2024-01-01".to_string()),
        date_to: Some("2024-12-31".to_string()),
        day: Some("2024-06-01".to_string()),
    };
    let q = list_query(&filter);
    assert_eq!(
        q.sql,
        format!(
            "{} AND (title LIKE ? ESCAPE '\\' OR content LIKE ? ESCAPE '\\') AND mood = ? AND occurred_at >= ? AND occurred_at <= ? AND DATE(occurred_at) = ? ORDER BY occurred_at DESC",
            HEAD
        )
    );
    assert_eq!(
        q.args,
        strings(&["%fly%", "%fly%", "sad", "2024-01-01", "2024-12-31", "2024-06-01"])
    );
    assert_eq!(q.sql.matches('?').count(), q.args.len());
}

#[test]
fn render_day_clause() {
    let q = render_query(&vec![Clause::OnDay("2024-01-24".to_string())]);
    assert_eq!(q.sql, format!("{} AND DATE(occurred_at) = ? ORDER BY occurred_at DESC", HEAD));
    assert_eq!(q.args, strings(&["2024-01-24"]));
}

#[test]
fn tags_match_whole_labels() {
    let tags = strings(&["category", "dog"]);
    assert!(!has_all_tags(&tags, &strings(&["cat"])));
    assert!(has_all_tags(&tags, &strings(&["dog", "category"])));
    assert!(has_all_tags(&tags, &Vec::new()));
}

#[test]
fn listing_keeps_order_and_filters_tags() {
    let rows = vec![
        row("a", "2024-01-25T08:30:00Z", "[\"cat\",\"dog\"]", "happy"),
        row("b", "2024-01-24T06:00:00Z", "[\"category\"]", "sad"),
        row("c", "2024-01-23T07:45:00Z", "not json", "zzz"),
        row("d", "2024-01-22T07:45:00Z", "[\"dog\",\"cat\"]", "weird"),
    ];
    let all = collect_listing(&rows, &ListDreamsFilter::default());
    let ids: Vec<&str> = all.iter().map(|d| d.id.as_str()).collect();
    assert_eq!(ids, vec!["a", "b", "c", "d"]);
    assert!(all[2].tags.is_empty());

    let filter = ListDreamsFilter { tags: Some(strings(&["cat", "dog"])), ..ListDreamsFilter::default() };
    let some = collect_listing(&rows, &filter);
    let ids: Vec<&str> = some.iter().map(|d| d.id.as_str()).collect();
    assert_eq!(ids, vec!["a", "d"]);
}

#[test]
fn listing_of_nothing_is_empty() {
    assert!(collect_listing(&Vec::new(), &ListDreamsFilter::default()).is_empty());
}

#[test]
fn search_text_is_escaped_for_like() {
    let filter = ListDreamsFilter { query: Some("50%_off\\x".to_string()), ..ListDreamsFilter::default() };
    let q = list_query(&filter);
    assert_eq!(q.args, strings(&["%50\\%\\_off\\\\x%", "%50\\%\\_off\\\\x%"]));
    let plain = ListDreamsFilter { query: Some("über".to_string()), ..ListDreamsFilter::default() };
    assert_eq!(list_query(&plain).args, strings(&["%über%", "%über%"]));
}
