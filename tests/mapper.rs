use elevenlabs_vista::json::JsonValue;
use elevenlabs_vista::mapper::{get_user_data, get_voices, voice_from};

fn text(s: &str) -> JsonValue {
    JsonValue::Str(s.to_string())
}

fn object(members: Vec<(&str, JsonValue)>) -> JsonValue {
    JsonValue::Object(members.into_iter().map(|(k, v)| (k.to_string(), v)).collect())
}

fn full_voice(id: &str, name: &str) -> JsonValue {
    object(vec![
        ("voice_id", text(id)),
        ("name", text(name)),
        ("category", text("cloned")),
        ("preview_url", text("https://example.com/p.mp3")),
        ("description", text("warm")),
        (
            "labels",
            object(vec![
                ("accent", text("british")),
                ("gender", text("female")),
                ("age", text("young")),
                ("descriptive", text("calm")),
                ("use_case", text("narration")),
            ]),
        ),
    ])
}

#[test]
fn voices_one_record_per_entry_in_order() {
    let response = object(vec![(
        "voices",
        JsonValue::Array(vec![full_voice("a1", "Alice"), full_voice("b2", "Bob"), full_voice("c3", "Cleo")]),
    )]);
    let voices = get_voices(&response);
    assert_eq!(voices.len(), 3);
    assert_eq!(voices[0].voice_id, "a1");
    assert_eq!(voices[0].name, "Alice");
    assert_eq!(voices[1].voice_id, "b2");
    assert_eq!(voices[2].name, "Cleo");
    assert_eq!(voices[0].category, "cloned");
    assert_eq!(voices[0].preview_url, "https://example.com/p.mp3");
    assert_eq!(voices[0].description, "warm");
    assert_eq!(voices[0].labels.accent, "british");
    assert_eq!(voices[0].labels.gender, "female");
    assert_eq!(voices[0].labels.age, "young");
    assert_eq!(voices[0].labels.descriptive, "calm");
    assert_eq!(voices[0].labels.use_case, "narration");
}

#[test]
fn voice_missing_fields_read_not_available() {
    let entry = object(vec![("voice_id", text("x")), ("name", JsonValue::Int(7))]);
    let v = voice_from(&entry);
    assert_eq!(v.voice_id, "x");
    assert_eq!(v.name, "N/A");
    assert_eq!(v.category, "N/A");
    assert_eq!(v.preview_url, "N/A");
    assert_eq!(v.description, "N/A");
    assert_eq!(v.labels.accent, "N/A");
    assert_eq!(v.labels.use_case, "N/A");
}

#[test]
fn voice_labels_not_an_object_read_not_available() {
    let entry = object(vec![("labels", text("british"))]);
    let v = voice_from(&entry);
    assert_eq!(v.labels.accent, "N/A");
    assert_eq!(v.labels.gender, "N/A");
}

#[test]
fn voices_absent_gives_empty() {
    let response = object(vec![("has_more", JsonValue::Bool(false))]);
    assert!(get_voices(&response).is_empty());
}

#[test]
fn voices_not_an_array_gives_empty() {
    let response = object(vec![("voices", text("none"))]);
    assert!(get_voices(&response).is_empty());
    assert!(get_voices(&JsonValue::Null).is_empty());
    assert!(get_voices(&JsonValue::Array(vec![full_voice("a", "b")])).is_empty());
}

#[test]
fn voices_empty_array_gives_empty() {
    let response = object(vec![("voices", JsonValue::Array(vec![]))]);
    assert!(get_voices(&response).is_empty());
}

#[test]
fn voices_entry_that_is_no_object_reads_all_defaults() {
    let response = object(vec![("voices", JsonValue::Array(vec![JsonValue::Null]))]);
    let voices = get_voices(&response);
    assert_eq!(voices.len(), 1);
    assert_eq!(voices[0].voice_id, "N/A");
    assert_eq!(voices[0].labels.age, "N/A");
}

#[test]
fn duplicate_member_first_one_wins() {
    let entry = object(vec![("voice_id", text("first")), ("voice_id", text("second"))]);
    assert_eq!(voice_from(&entry).voice_id, "first");
}

#[test]
fn user_data_reads_all_fields() {
    let response = object(vec![
        ("first_name", text("Ada")),
        (
            "subscription",
            object(vec![
                ("character_count", JsonValue::Int(1200)),
                ("character_limit", JsonValue::Int(10000)),
                ("next_character_count_reset_unix", JsonValue::Int(1700000000)),
                ("voice_limit", JsonValue::Int(30)),
                ("voice_slots_used", JsonValue::Int(4)),
            ]),
        ),
    ]);
    let u = get_user_data(&response);
    assert_eq!(u.first_name, "Ada");
    assert_eq!(u.character_count, 1200);
    assert_eq!(u.character_limit, 10000);
    assert_eq!(u.next_character_count_reset_unix, 1700000000);
    assert_eq!(u.voice_limit, 30);
    assert_eq!(u.voice_slots_used, 4);
}

#[test]
fn user_data_defaults() {
    let response = object(vec![(
        "subscription",
        object(vec![
            ("character_count", text("12")),
            ("character_limit", JsonValue::Number("1.5".to_string())),
            ("voice_limit", JsonValue::Null),
        ]),
    )]);
    let u = get_user_data(&response);
    assert_eq!(u.first_name, "User");
    assert_eq!(u.character_count, 0);
    assert_eq!(u.character_limit, 0);
    assert_eq!(u.next_character_count_reset_unix, 0);
    assert_eq!(u.voice_limit, 0);
    assert_eq!(u.voice_slots_used, 0);
}

#[test]
fn user_data_no_subscription() {
    let u = get_user_data(&object(vec![("first_name", JsonValue::Int(3))]));
    assert_eq!(u.first_name, "User");
    assert_eq!(u.character_limit, 0);
}

#[test]
fn user_data_counters_cut_to_width() {
    let response = object(vec![(
        "subscription",
        object(vec![
            ("character_count", JsonValue::Int(4294967297)),
            ("next_character_count_reset_unix", JsonValue::Int(-1)),
            ("voice_limit", JsonValue::Int(-5)),
            ("voice_slots_used", JsonValue::UInt(18446744073709551615)),
        ]),
    )]);
    let u = get_user_data(&response);
    assert_eq!(u.character_count, 1);
    assert_eq!(u.next_character_count_reset_unix, 4294967295);
    assert_eq!(u.voice_limit, -5);
    assert_eq!(u.voice_slots_used, 0);
}
