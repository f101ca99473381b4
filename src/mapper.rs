use vstd::prelude::*;

use crate::json::{int_or_zero, int_or_zero_of, member, member_of, owned, text_or, text_or_default, JsonValue};
use crate::models::{UserData, Voice, VoiceLabels, VoiceLabelsView, VoiceView};

verus! {

/// Member `key` of `v`, or "N/A" when it is absent or not a string.
pub open spec fn text_field(v: Option<JsonValue>, key: Seq<char>) -> Seq<char> {
    text_or(member(v, key), "N/A"@)
}

/// The labels that a voice entry of the voice list describes.
pub open spec fn labels_of(entry: JsonValue) -> VoiceLabelsView {
    let labels = member(Some(entry), "labels"@);
    VoiceLabelsView {
        accent: text_field(labels, "accent"@),
        descriptive: text_field(labels, "descriptive"@),
        age: text_field(labels, "age"@),
        gender: text_field(labels, "gender"@),
        use_case: text_field(labels, "use_case"@),
    }
}

/// The voice that an entry of the voice list describes.
pub open spec fn voice_of(entry: JsonValue) -> VoiceView {
    VoiceView {
        voice_id: text_field(Some(entry), "voice_id"@),
        name: text_field(Some(entry), "name"@),
        category: text_field(Some(entry), "category"@),
        description: text_field(Some(entry), "description"@),
        preview_url: text_field(Some(entry), "preview_url"@),
        labels: labels_of(entry),
    }
}

/// The voices of a voice-list response: one per entry of its "voices" array, in order,
/// and none when there is no such array.
pub open spec fn voices_of(response: JsonValue) -> Seq<VoiceView> {
    match member(Some(response), "voices"@) {
        Some(JsonValue::Array(entries)) => entries@.map_values(|e: JsonValue| voice_of(e)),
        _ => Seq::empty(),
    }
}

/// Member `key` of the "subscription" object of a user response.
pub open spec fn subscription_field(response: JsonValue, key: Seq<char>) -> Option<JsonValue> {
    member(member(Some(response), "subscription"@), key)
}

fn text_field_of(v: Option<&JsonValue>, key: &str) -> (r: String)
    ensures
        r@ == text_field(owned(v), key@),
{
    text_or_default(member_of(v, key), "N/A")
}

fn labels_from(entry: &JsonValue) -> (r: VoiceLabels)
    ensures
        r@ == labels_of(*entry),
{
    let labels = member_of(Some(entry), "labels");
    VoiceLabels {
        accent: text_field_of(labels, "accent"),
        descriptive: text_field_of(labels, "descriptive"),
        age: text_field_of(labels, "age"),
        gender: text_field_of(labels, "gender"),
        use_case: text_field_of(labels, "use_case"),
    }
}

/// Reads one entry of the voice list; a member that is absent or not a string reads "N/A".
pub fn voice_from(entry: &JsonValue) -> (r: Voice)
    ensures
        r@ == voice_of(*entry),
{
    Voice {
        voice_id: text_field_of(Some(entry), "voice_id"),
        name: text_field_of(Some(entry), "name"),
        category: text_field_of(Some(entry), "category"),
        description: text_field_of(Some(entry), "description"),
        preview_url: text_field_of(Some(entry), "preview_url"),
        labels: labels_from(entry),
    }
}

/// Reads the voices of a voice-list response: one per entry of its "voices" array, in the
/// array's order. A response without such an array gives no voices; this never fails.
pub fn get_voices(response: &JsonValue) -> (r: Vec<Voice>)
    ensures
        r@.map_values(|v: Voice| v@) == voices_of(*response),
        !(member(Some(*response), "voices"@) matches Some(JsonValue::Array(_))) ==> r@.len() == 0,
{
    let mut voices: Vec<Voice> = Vec::new();
    match member_of(Some(response), "voices") {
        Some(JsonValue::Array(entries)) => {
            let mut i: usize = 0;
            while i < entries.len()
                invariant
                    i <= entries@.len(),
                    voices@.len() == i,
                    forall|j: int| 0 <= j < i ==> voices@[j]@ == voice_of(entries@[j]),
                decreases entries.len() - i,
            {
                voices.push(voice_from(&entries[i]));
                i = i + 1;
            }
            assert(voices@.map_values(|v: Voice| v@) =~= entries@.map_values(
                |e: JsonValue| voice_of(e),
            ));
        },
        _ => {
            assert(voices@.map_values(|v: Voice| v@) =~= Seq::<VoiceView>::empty());
        },
    }
    voices
}

/// Reads the account data of a user response. The name is member "first_name", or "User"
/// when that is absent or not a string; each counter is the like-named member of the
/// "subscription" object, or 0 when that is absent or not an integer, cut to its field's width.
pub fn get_user_data(response: &JsonValue) -> (r: UserData)
    ensures
        r.first_name@ == text_or(member(Some(*response), "first_name"@), "User"@),
        r.character_count == int_or_zero(subscription_field(*response, "character_count"@)) as i32,
        r.character_limit == int_or_zero(subscription_field(*response, "character_limit"@)) as i32,
        r.next_character_count_reset_unix == int_or_zero(
            subscription_field(*response, "next_character_count_reset_unix"@),
        ) as u32,
        r.voice_limit == int_or_zero(subscription_field(*response, "voice_limit"@)) as i32,
        r.voice_slots_used == int_or_zero(subscription_field(*response, "voice_slots_used"@)) as i32,
        !(member(Some(*response), "first_name"@) matches Some(JsonValue::Str(_)))
            ==> r.first_name@ == "User"@,
        !(subscription_field(*response, "character_count"@) matches Some(JsonValue::Int(_)))
            ==> r.character_count == 0,
        !(subscription_field(*response, "character_limit"@) matches Some(JsonValue::Int(_)))
            ==> r.character_limit == 0,
        !(subscription_field(*response, "next_character_count_reset_unix"@) matches Some(
            JsonValue::Int(_),
        )) ==> r.next_character_count_reset_unix == 0,
        !(subscription_field(*response, "voice_limit"@) matches Some(JsonValue::Int(_)))
            ==> r.voice_limit == 0,
        !(subscription_field(*response, "voice_slots_used"@) matches Some(JsonValue::Int(_)))
            ==> r.voice_slots_used == 0,
{
    let subscription = member_of(Some(response), "subscription");
    let first_name = text_or_default(member_of(Some(response), "first_name"), "User");
    let character_count = int_or_zero_of(member_of(subscription, "character_count"));
    let character_limit = int_or_zero_of(member_of(subscription, "character_limit"));
    let reset = int_or_zero_of(member_of(subscription, "next_character_count_reset_unix"));
    let voice_limit = int_or_zero_of(member_of(subscription, "voice_limit"));
    let voice_slots_used = int_or_zero_of(member_of(subscription, "voice_slots_used"));
    UserData {
        first_name,
        character_limit: #[verifier::truncate] (character_limit as i32),
        character_count: #[verifier::truncate] (character_count as i32),
        next_character_count_reset_unix: #[verifier::truncate] (reset as u32),
        voice_limit: #[verifier::truncate] (voice_limit as i32),
        voice_slots_used: #[verifier::truncate] (voice_slots_used as i32),
    }
}

} // verus!
