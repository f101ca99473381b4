use vstd::prelude::*;

verus! {

/// The account holder's name and the counters of their subscription.
pub struct UserData {
    pub first_name: String,
    pub character_limit: i32,
    pub character_count: i32,
    pub next_character_count_reset_unix: u32,
    pub voice_limit: i32,
    pub voice_slots_used: i32,
}

/// One voice offered by the provider.
pub struct Voice {
    pub voice_id: String,
    pub name: String,
    pub category: String,
    pub description: String,
    pub preview_url: String,
    pub labels: VoiceLabels,
}

/// The descriptive labels attached to a voice.
pub struct VoiceLabels {
    pub accent: String,
    pub descriptive: String,
    pub age: String,
    pub gender: String,
    pub use_case: String,
}

/// The texts of a `VoiceLabels`.
pub ghost struct VoiceLabelsView {
    pub accent: Seq<char>,
    pub descriptive: Seq<char>,
    pub age: Seq<char>,
    pub gender: Seq<char>,
    pub use_case: Seq<char>,
}

/// The texts of a `Voice`.
pub ghost struct VoiceView {
    pub voice_id: Seq<char>,
    pub name: Seq<char>,
    pub category: Seq<char>,
    pub description: Seq<char>,
    pub preview_url: Seq<char>,
    pub labels: VoiceLabelsView,
}

impl View for VoiceLabels {
    type V = VoiceLabelsView;

    open spec fn view(&self) -> VoiceLabelsView {
        VoiceLabelsView {
            accent: self.accent@,
            descriptive: self.descriptive@,
            age: self.age@,
            gender: self.gender@,
            use_case: self.use_case@,
        }
    }
}

impl View for Voice {
    type V = VoiceView;

    open spec fn view(&self) -> VoiceView {
        VoiceView {
            voice_id: self.voice_id@,
            name: self.name@,
            category: self.category@,
            description: self.description@,
            preview_url: self.preview_url@,
            labels: self.labels@,
        }
    }
}

} // verus!
