use vstd::prelude::*;

verus! {

broadcast use vstd::string::group_string_axioms;

/// The closed set of moods a dream can carry.
#[derive(Debug, Clone, Copy, PartialEq, Eq, Structural)]
pub enum Mood {
    Happy,
    Sad,
    Scary,
    Romantic,
    Weird,
    Neutral,
}

/// The lowercase token that stands for a mood on the wire and in the table.
pub open spec fn mood_token(m: Mood) -> Seq<char> {
    match m {
        Mood::Happy => "happy"@,
        Mood::Sad => "sad"@,
        Mood::Scary => "scary"@,
        Mood::Romantic => "romantic"@,
        Mood::Weird => "weird"@,
        Mood::Neutral => "neutral"@,
    }
}

/// The mood that a token names, if any.
pub open spec fn mood_of_token(s: Seq<char>) -> Option<Mood> {
    if s == "happy"@ {
        Some(Mood::Happy)
    } else if s == "sad"@ {
        Some(Mood::Sad)
    } else if s == "scary"@ {
        Some(Mood::Scary)
    } else if s == "romantic"@ {
        Some(Mood::Romantic)
    } else if s == "weird"@ {
        Some(Mood::Weird)
    } else if s == "neutral"@ {
        Some(Mood::Neutral)
    } else {
        None
    }
}

fn same_text(a: &str, b: &str) -> (r: bool)
    ensures
        r == (a@ == b@),
{
    a.to_string() == b.to_string()
}

impl Mood {
    pub fn as_str(&self) -> (r: &str)
        ensures
            r@ == mood_token(*self),
    {
        match self {
            Mood::Happy => "happy",
            Mood::Sad => "sad",
            Mood::Scary => "scary",
            Mood::Romantic => "romantic",
            Mood::Weird => "weird",
            Mood::Neutral => "neutral",
        }
    }

    pub fn from_str(s: &str) -> (r: Option<Mood>)
        ensures
            r == mood_of_token(s@),
    {
        if same_text(s, "happy") {
            Some(Mood::Happy)
        } else if same_text(s, "sad") {
            Some(Mood::Sad)
        } else if same_text(s, "scary") {
            Some(Mood::Scary)
        } else if same_text(s, "romantic") {
            Some(Mood::Romantic)
        } else if same_text(s, "weird") {
            Some(Mood::Weird)
        } else if same_text(s, "neutral") {
            Some(Mood::Neutral)
        } else {
            None
        }
    }
}

/// Reading back the token of a mood gives that mood.
pub proof fn lemma_mood_token_round_trip(m: Mood)
    ensures
        mood_of_token(mood_token(m)) == Some(m),
{
    reveal_strlit("happy");
    reveal_strlit("sad");
    reveal_strlit("scary");
    reveal_strlit("romantic");
    reveal_strlit("weird");
    reveal_strlit("neutral");
    assert("happy"@.len() == 5 && "happy"@[0] == 'h');
    assert("sad"@.len() == 3 && "sad"@[0] == 's');
    assert("scary"@.len() == 5 && "scary"@[0] == 's');
    assert("romantic"@.len() == 8 && "romantic"@[0] == 'r');
    assert("weird"@.len() == 5 && "weird"@[0] == 'w');
    assert("neutral"@.len() == 7 && "neutral"@[0] == 'n');
}

/// The characters of each string, in order.
pub open spec fn texts(v: Seq<String>) -> Seq<Seq<char>> {
    v.map_values(|s: String| s@)
}

/// A journal entry.
#[derive(Debug, Clone)]
pub struct Dream {
    pub id: String,
    pub title: String,
    pub occurred_at: String,
    pub content: String,
    pub tags: Vec<String>,
    pub mood: Mood,
    pub intensity: i32,
    pub lucid: bool,
    pub created_at: String,
    pub updated_at: String,
}

/// A dream as plain values.
pub struct DreamModel {
    pub id: Seq<char>,
    pub title: Seq<char>,
    pub occurred_at: Seq<char>,
    pub content: Seq<char>,
    pub tags: Seq<Seq<char>>,
    pub mood: Mood,
    pub intensity: i32,
    pub lucid: bool,
    pub created_at: Seq<char>,
    pub updated_at: Seq<char>,
}

impl View for Dream {
    type V = DreamModel;

    open spec fn view(&self) -> DreamModel {
        DreamModel {
            id: self.id@,
            title: self.title@,
            occurred_at: self.occurred_at@,
            content: self.content@,
            tags: texts(self.tags@),
            mood: self.mood,
            intensity: self.intensity,
            lucid: self.lucid,
            created_at: self.created_at@,
            updated_at: self.updated_at@,
        }
    }
}

/// What a listing asks for; an absent field sets no condition.
#[derive(Debug, Clone, Default)]
pub struct ListDreamsFilter {
    pub query: Option<String>,
    pub mood: Option<String>,
    pub tags: Option<Vec<String>>,
    pub date_from: Option<String>,
    pub date_to: Option<String>,
    pub day: Option<String>,
}

} // verus!
