use dreamlog::models::Mood;

#[test]
fn mood_tokens_are_lowercase_names() {
    assert_eq!(Mood::Happy.as_str(), "happy");
    assert_eq!(Mood::Sad.as_str(), "sad");
    assert_eq!(Mood::Scary.as_str(), "scary");
    assert_eq!(Mood::Romantic.as_str(), "romantic");
    assert_eq!(Mood::Weird.as_str(), "weird");
    assert_eq!(Mood::Neutral.as_str(), "neutral");
}

#[test]
fn mood_token_round_trip() {
    let all = [Mood::Happy, Mood::Sad, Mood::Scary, Mood::Romantic, Mood::Weird, Mood::Neutral];
    for m in all {
        assert_eq!(Mood::from_str(m.as_str()), Some(m));
    }
}

#[test]
fn unknown_mood_token_is_none() {
    assert_eq!(Mood::from_str("HAPPY"), None);
    assert_eq!(Mood::from_str(""), None);
    assert_eq!(Mood::from_str("furious"), None);
}
