use crate::codec::{copy_text, row_model, DreamRow};
use crate::models::{texts, Dream, DreamModel, ListDreamsFilter};
use vstd::prelude::*;
use vstd::string::StringExecFns;

verus! {

/// One condition of a listing, with the value it is bound to.
pub enum Clause {
    /// Title or content contains the text.
    Search(String),
    /// The mood column holds exactly this token.
    MoodIs(String),
    /// Occurred at or after this time.
    OccurredFrom(String),
    /// Occurred at or before this time.
    OccurredTo(String),
    /// Occurred on this calendar day.
    OnDay(String),
}

/// A statement with its arguments, one for each `?` in order.
pub struct SqlQuery {
    pub sql: String,
    pub args: Vec<String>,
}

pub open spec fn select_head() -> Seq<char> {
    "SELECT id, title, occurred_at, content, tags, mood, intensity, lucid, created_at, updated_at FROM dreams WHERE 1=1"@
}

pub open spec fn order_tail() -> Seq<char> {
    " ORDER BY occurred_at DESC"@
}

/// The condition that a clause adds to the statement.
pub open spec fn clause_sql(c: Clause) -> Seq<char> {
    match c {
        Clause::Search(_) => " AND (title LIKE ? ESCAPE '\\' OR content LIKE ? ESCAPE '\\')"@,
        Clause::MoodIs(_) => " AND mood = ?"@,
        Clause::OccurredFrom(_) => " AND occurred_at >= ?"@,
        Clause::OccurredTo(_) => " AND occurred_at <= ?"@,
        Clause::OnDay(_) => " AND DATE(occurred_at) = ?"@,
    }
}

/// Whether `LIKE` reads the character as a wildcard or as the escape.
pub open spec fn like_special(c: char) -> bool {
    c == '\\' || c == '%' || c == '_'
}

/// `q` with every wildcard and escape character preceded by the escape, so
/// that `LIKE` reads each of its characters literally.
pub open spec fn like_escaped(q: Seq<char>) -> Seq<char>
    decreases q.len(),
{
    if q.len() == 0 {
        Seq::empty()
    } else if like_special(q.last()) {
        like_escaped(q.drop_last()) + seq!['\\', q.last()]
    } else {
        like_escaped(q.drop_last()).push(q.last())
    }
}

/// The pattern that matches any text containing `q` as a substring.
pub open spec fn like_pattern(q: Seq<char>) -> Seq<char> {
    "%"@ + like_escaped(q) + "%"@
}

/// The arguments that a clause binds, in the order of its placeholders.
pub open spec fn clause_args(c: Clause) -> Seq<Seq<char>> {
    match c {
        Clause::Search(q) => seq![like_pattern(q@), like_pattern(q@)],
        Clause::MoodIs(m) => seq![m@],
        Clause::OccurredFrom(d) => seq![d@],
        Clause::OccurredTo(d) => seq![d@],
        Clause::OnDay(d) => seq![d@],
    }
}

pub open spec fn clauses_sql(cs: Seq<Clause>) -> Seq<char>
    decreases cs.len(),
{
    if cs.len() == 0 {
        Seq::empty()
    } else {
        clauses_sql(cs.drop_last()) + clause_sql(cs.last())
    }
}

pub open spec fn clauses_args(cs: Seq<Clause>) -> Seq<Seq<char>>
    decreases cs.len(),
{
    if cs.len() == 0 {
        Seq::empty()
    } else {
        clauses_args(cs.drop_last()) + clause_args(cs.last())
    }
}


/// How many `?` placeholders a statement holds.
pub open spec fn placeholders(s: Seq<char>) -> nat
    decreases s.len(),
{
    if s.len() == 0 {
        0
    } else {
        placeholders(s.drop_last()) + if s.last() == '?' { 1nat } else { 0nat }
    }
}

proof fn lemma_placeholders_concat(a: Seq<char>, b: Seq<char>)
    ensures
        placeholders(a + b) == placeholders(a) + placeholders(b),
    decreases b.len(),
{
    if b.len() == 0 {
        assert(a + b =~= a);
    } else {
        lemma_placeholders_concat(a, b.drop_last());
        assert((a + b).drop_last() =~= a + b.drop_last());
    }
}

proof fn lemma_no_placeholders(s: Seq<char>)
    requires
        forall|i: int| 0 <= i < s.len() ==> s[i] != '?',
    ensures
        placeholders(s) == 0,
    decreases s.len(),
{
    if s.len() > 0 {
        lemma_no_placeholders(s.drop_last());
    }
}

proof fn lemma_one_mark(p: Seq<char>)
    requires
        forall|i: int| 0 <= i < p.len() ==> p[i] != '?',
    ensures
        placeholders(p.push('?')) == 1,
{
    lemma_no_placeholders(p);
    assert(p.push('?').drop_last() =~= p);
}

proof fn lemma_clause_placeholders(c: Clause)
    ensures
        placeholders(clause_sql(c)) == clause_args(c).len(),
{
    match c {
        Clause::Search(_) => {
            reveal_strlit(" AND (title LIKE ? ESCAPE '\\' OR content LIKE ? ESCAPE '\\')");
            reveal_strlit(" AND (title LIKE ");
            reveal_strlit(" ESCAPE '\\' OR content LIKE ");
            reveal_strlit(" ESCAPE '\\')");
            let a = " AND (title LIKE "@;
            let b = " ESCAPE '\\' OR content LIKE "@;
            let e = " ESCAPE '\\')"@;
            let s = " AND (title LIKE ? ESCAPE '\\' OR content LIKE ? ESCAPE '\\')"@;
            assert(forall|i: int| 0 <= i < a.len() ==> a[i] != '?');
            assert(forall|i: int| 0 <= i < b.len() ==> b[i] != '?');
            assert(forall|i: int| 0 <= i < e.len() ==> e[i] != '?');
            lemma_one_mark(a);
            lemma_one_mark(b);
            lemma_no_placeholders(e);
            lemma_placeholders_concat(a.push('?'), b.push('?'));
            let ab = a.push('?') + b.push('?');
            lemma_placeholders_concat(ab, e);
            assert(s =~= ab + e);
        },
        Clause::MoodIs(_) => {
            reveal_strlit(" AND mood = ?");
            reveal_strlit(" AND mood = ");
            let p = " AND mood = "@;
            assert(forall|i: int| 0 <= i < p.len() ==> p[i] != '?');
            assert(" AND mood = ?"@ =~= p.push('?'));
            lemma_one_mark(p);
        },
        Clause::OccurredFrom(_) => {
            reveal_strlit(" AND occurred_at >= ?");
            reveal_strlit(" AND occurred_at >= ");
            let p = " AND occurred_at >= "@;
            assert(forall|i: int| 0 <= i < p.len() ==> p[i] != '?');
            assert(" AND occurred_at >= ?"@ =~= p.push('?'));
            lemma_one_mark(p);
        },
        Clause::OccurredTo(_) => {
            reveal_strlit(" AND occurred_at <= ?");
            reveal_strlit(" AND occurred_at <= ");
            let p = " AND occurred_at <= "@;
            assert(forall|i: int| 0 <= i < p.len() ==> p[i] != '?');
            assert(" AND occurred_at <= ?"@ =~= p.push('?'));
            lemma_one_mark(p);
        },
        Clause::OnDay(_) => {
            reveal_strlit(" AND DATE(occurred_at) = ?");
            reveal_strlit(" AND DATE(occurred_at) = ");
            let p = " AND DATE(occurred_at) = "@;
            assert(forall|i: int| 0 <= i < p.len() ==> p[i] != '?');
            assert(" AND DATE(occurred_at) = ?"@ =~= p.push('?'));
            lemma_one_mark(p);
        },
    }
}

proof fn lemma_clauses_placeholders(cs: Seq<Clause>)
    ensures
        placeholders(clauses_sql(cs)) == clauses_args(cs).len(),
    decreases cs.len(),
{
    if cs.len() > 0 {
        lemma_clauses_placeholders(cs.drop_last());
        lemma_clause_placeholders(cs.last());
        lemma_placeholders_concat(clauses_sql(cs.drop_last()), clause_sql(cs.last()));
    }
}

/// The placeholders of a listing statement line up with its arguments: there
/// are exactly as many `?` as bound values.
pub proof fn lemma_list_placeholders(cs: Seq<Clause>)
    ensures
        placeholders(list_sql(cs)) == clauses_args(cs).len(),
{
    reveal_strlit(
        "SELECT id, title, occurred_at, content, tags, mood, intensity, lucid, created_at, updated_at FROM dreams WHERE 1=1",
    );
    reveal_strlit(" ORDER BY occurred_at DESC");
    let h = select_head();
    let t = order_tail();
    assert(forall|i: int| 0 <= i < h.len() ==> h[i] != '?');
    assert(forall|i: int| 0 <= i < t.len() ==> t[i] != '?');
    lemma_no_placeholders(h);
    lemma_no_placeholders(t);
    lemma_clauses_placeholders(cs);
    lemma_placeholders_concat(h, clauses_sql(cs));
    lemma_placeholders_concat(h + clauses_sql(cs), t);
}

/// The listing statement: every clause joined by AND, latest dream first.
pub open spec fn list_sql(cs: Seq<Clause>) -> Seq<char> {
    select_head() + clauses_sql(cs) + order_tail()
}

pub open spec fn optional_clause(o: Option<String>, c: Clause) -> Seq<Clause> {
    if o is Some {
        seq![c]
    } else {
        Seq::empty()
    }
}

/// The clauses of a filter, one for each field that is present except the
/// tags, in the order query, mood, from, to, day.
pub open spec fn filter_clauses_of(f: ListDreamsFilter) -> Seq<Clause> {
    optional_clause(f.query, Clause::Search(f.query->0))
        + optional_clause(f.mood, Clause::MoodIs(f.mood->0))
        + optional_clause(f.date_from, Clause::OccurredFrom(f.date_from->0))
        + optional_clause(f.date_to, Clause::OccurredTo(f.date_to->0))
        + optional_clause(f.day, Clause::OnDay(f.day->0))
}

/// The tags that every listed dream must carry.
pub open spec fn required_tags(f: ListDreamsFilter) -> Seq<Seq<char>> {
    match f.tags {
        Some(t) => texts(t@),
        None => Seq::empty(),
    }
}

/// Every required tag is among `tags`.
pub open spec fn has_tags(tags: Seq<Seq<char>>, required: Seq<Seq<char>>) -> bool {
    forall|j: int| 0 <= j < required.len() ==> tags.contains(#[trigger] required[j])
}

/// The dreams of `ms` that carry every required tag, in their order.
pub open spec fn kept(ms: Seq<DreamModel>, required: Seq<Seq<char>>) -> Seq<DreamModel>
    decreases ms.len(),
{
    if ms.len() == 0 {
        Seq::empty()
    } else if has_tags(ms.last().tags, required) {
        kept(ms.drop_last(), required).push(ms.last())
    } else {
        kept(ms.drop_last(), required)
    }
}

pub open spec fn row_models(rows: Seq<DreamRow>) -> Seq<DreamModel> {
    rows.map_values(|row: DreamRow| row_model(row))
}

pub open spec fn dream_models(ds: Seq<Dream>) -> Seq<DreamModel> {
    ds.map_values(|d: Dream| d@)
}

/// The clauses that a filter asks for.
pub fn filter_clauses(filter: &ListDreamsFilter) -> (r: Vec<Clause>)
    ensures
        r@ == filter_clauses_of(*filter),
{
    let mut v: Vec<Clause> = Vec::new();
    let ghost f = *filter;
    if let Some(q) = &filter.query {
        v.push(Clause::Search(q.clone()));
    }
    assert(v@ =~= optional_clause(f.query, Clause::Search(f.query->0)));
    let ghost v1 = v@;
    if let Some(m) = &filter.mood {
        v.push(Clause::MoodIs(m.clone()));
    }
    assert(v@ =~= v1 + optional_clause(f.mood, Clause::MoodIs(f.mood->0)));
    let ghost v2 = v@;
    if let Some(d) = &filter.date_from {
        v.push(Clause::OccurredFrom(d.clone()));
    }
    assert(v@ =~= v2 + optional_clause(f.date_from, Clause::OccurredFrom(f.date_from->0)));
    let ghost v3 = v@;
    if let Some(d) = &filter.date_to {
        v.push(Clause::OccurredTo(d.clone()));
    }
    assert(v@ =~= v3 + optional_clause(f.date_to, Clause::OccurredTo(f.date_to->0)));
    let ghost v4 = v@;
    if let Some(d) = &filter.day {
        v.push(Clause::OnDay(d.clone()));
    }
    assert(v@ =~= v4 + optional_clause(f.day, Clause::OnDay(f.day->0)));
    v
}

fn clause_fragment(c: &Clause) -> (r: &str)
    ensures
        r@ == clause_sql(*c),
{
    match c {
        Clause::Search(_) => " AND (title LIKE ? ESCAPE '\\' OR content LIKE ? ESCAPE '\\')",
        Clause::MoodIs(_) => " AND mood = ?",
        Clause::OccurredFrom(_) => " AND occurred_at >= ?",
        Clause::OccurredTo(_) => " AND occurred_at <= ?",
        Clause::OnDay(_) => " AND DATE(occurred_at) = ?",
    }
}

fn like_arg(q: &String) -> (r: String)
    ensures
        r@ == like_pattern(q@),
{
    let s = q.as_str();
    let n = s.unicode_len();
    let mut p = String::from_str("%");
    let mut i: usize = 0;
    assert(q@.take(0) =~= Seq::<char>::empty());
    while i < n
        invariant
            n == q@.len(),
            s@ == q@,
            i <= n,
            p@ == "%"@ + like_escaped(q@.take(i as int)),
        decreases n - i,
    {
        let c = s.get_char(i);
        if c == '\\' {
            p.append("\\\\");
        } else if c == '%' {
            p.append("\\%");
        } else if c == '_' {
            p.append("\\_");
        } else {
            p.append(s.substring_char(i, i + 1));
        }
        proof {
            reveal_strlit("\\\\");
            reveal_strlit("\\%");
            reveal_strlit("\\_");
            let prev = q@.take(i as int);
            let next = q@.take(i + 1);
            assert(next.drop_last() =~= prev);
            assert(next.last() == c);
            if like_special(c) {
                assert(like_escaped(next) == like_escaped(prev) + seq!['\\', c]);
                if c == '\\' {
                    assert("\\\\"@ =~= seq!['\\', c]);
                } else if c == '%' {
                    assert("\\%"@ =~= seq!['\\', c]);
                } else {
                    assert("\\_"@ =~= seq!['\\', c]);
                }
            } else {
                assert(q@.subrange(i as int, i + 1) =~= seq![c]);
                assert(like_escaped(next) == like_escaped(prev).push(c));
            }
            assert(p@ =~= "%"@ + like_escaped(next));
        }
        i += 1;
    }
    assert(q@.take(n as int) =~= q@);
    p.append("%");
    p
}

/// Renders clauses into one statement whose placeholders line up with its
/// arguments.
pub fn render_query(clauses: &Vec<Clause>) -> (r: SqlQuery)
    ensures
        r.sql@ == list_sql(clauses@),
        texts(r.args@) == clauses_args(clauses@),
        placeholders(r.sql@) == r.args@.len(),
{
    let mut sql = String::from_str(
        "SELECT id, title, occurred_at, content, tags, mood, intensity, lucid, created_at, updated_at FROM dreams WHERE 1=1",
    );
    let mut args: Vec<String> = Vec::new();
    let mut i: usize = 0;
    assert(clauses@.take(0) =~= Seq::<Clause>::empty());
    assert(texts(args@) =~= Seq::<Seq<char>>::empty());
    while i < clauses.len()
        invariant
            i <= clauses.len(),
            sql@ == select_head() + clauses_sql(clauses@.take(i as int)),
            texts(args@) == clauses_args(clauses@.take(i as int)),
        decreases clauses.len() - i,
    {
        let c = &clauses[i];
        let ghost before = texts(args@);
        sql.append(clause_fragment(c));
        match c {
            Clause::Search(q) => {
                let p = like_arg(q);
                args.push(copy_text(&p));
                args.push(p);
            },
            Clause::MoodIs(m) => {
                args.push(copy_text(m));
            },
            Clause::OccurredFrom(d) => {
                args.push(copy_text(d));
            },
            Clause::OccurredTo(d) => {
                args.push(copy_text(d));
            },
            Clause::OnDay(d) => {
                args.push(copy_text(d));
            },
        }
        proof {
            let next = clauses@.take(i + 1);
            assert(next.drop_last() =~= clauses@.take(i as int));
            assert(next.last() == clauses@[i as int]);
            assert(texts(args@) =~= before + clause_args(clauses@[i as int]));
        }
        i += 1;
    }
    assert(clauses@.take(i as int) =~= clauses@);
    sql.append(" ORDER BY occurred_at DESC");
    proof {
        lemma_list_placeholders(clauses@);
    }
    SqlQuery { sql, args }
}

/// The statement that lists the dreams a filter selects, tags aside.
pub fn list_query(filter: &ListDreamsFilter) -> (r: SqlQuery)
    ensures
        r.sql@ == list_sql(filter_clauses_of(*filter)),
        texts(r.args@) == clauses_args(filter_clauses_of(*filter)),
        placeholders(r.sql@) == r.args@.len(),
{
    let clauses = filter_clauses(filter);
    render_query(&clauses)
}

fn contains_text(v: &Vec<String>, s: &String) -> (r: bool)
    ensures
        r == texts(v@).contains(s@),
{
    let mut i: usize = 0;
    while i < v.len()
        invariant
            i <= v.len(),
            forall|k: int| 0 <= k < i ==> v@[k]@ != s@,
        decreases v.len() - i,
    {
        if v[i] == *s {
            assert(texts(v@)[i as int] == s@);
            return true;
        }
        i += 1;
    }
    proof {
        if texts(v@).contains(s@) {
            let k = choose|k: int| 0 <= k < texts(v@).len() && texts(v@)[k] == s@;
            assert(v@[k]@ == s@);
        }
    }
    false
}

/// Whether `tags` holds every one of `required`.
pub fn has_all_tags(tags: &Vec<String>, required: &Vec<String>) -> (r: bool)
    ensures
        r == has_tags(texts(tags@), texts(required@)),
{
    let mut j: usize = 0;
    while j < required.len()
        invariant
            j <= required.len(),
            forall|k: int| 0 <= k < j ==> texts(tags@).contains(#[trigger] texts(required@)[k]),
        decreases required.len() - j,
    {
        if !contains_text(tags, &required[j]) {
            assert(!texts(tags@).contains(texts(required@)[j as int]));
            return false;
        }
        j += 1;
    }
    true
}

/// The dreams of the fetched rows, in their order, that carry every tag the
/// filter requires. Tags are matched whole against the decoded list.
pub fn collect_listing(rows: &Vec<DreamRow>, filter: &ListDreamsFilter) -> (r: Vec<Dream>)
    ensures
        dream_models(r@) == kept(row_models(rows@), required_tags(*filter)),
{
    let none: Vec<String> = Vec::new();
    let required: &Vec<String> = match &filter.tags {
        Some(t) => t,
        None => &none,
    };
    assert(texts(required@) == required_tags(*filter)) by {
        if filter.tags is None {
            assert(texts(none@) =~= Seq::<Seq<char>>::empty());
        }
    }
    let mut out: Vec<Dream> = Vec::new();
    let mut i: usize = 0;
    assert(row_models(rows@).take(0) =~= Seq::<DreamModel>::empty());
    assert(dream_models(out@) =~= Seq::<DreamModel>::empty());
    while i < rows.len()
        invariant
            i <= rows.len(),
            texts(required@) == required_tags(*filter),
            dream_models(out@) == kept(row_models(rows@).take(i as int), required_tags(*filter)),
        decreases rows.len() - i,
    {
        let d = rows[i].to_dream();
        let ghost before = dream_models(out@);
        proof {
            let next = row_models(rows@).take(i + 1);
            assert(next.drop_last() =~= row_models(rows@).take(i as int));
            assert(next.last() == row_model(rows@[i as int]));
        }
        if has_all_tags(&d.tags, required) {
            out.push(d);
            assert(dream_models(out@) =~= before.push(d@));
        }
        i += 1;
    }
    assert(row_models(rows@).take(i as int) =~= row_models(rows@));
    out
}

} // verus!
