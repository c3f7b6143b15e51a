//! The settings that the command line supplies, as plain values.
use vstd::prelude::*;

verus! {

#[derive(Debug)]
pub struct App {
    pub prompt: Prompt,
    pub llm: LLM,
    pub bot: Bot,
    pub tts: TTS,
}

/// The instruction prompt that seeds the history.
#[derive(Debug)]
pub struct Prompt {
    pub seed: Option<String>,
}

/// The history size and the model.
#[derive(Debug)]
pub struct LLM {
    pub hist_size: usize,
    pub model_name: String,
}

/// The bot's name and its bus stream and subjects.
#[derive(Debug)]
pub struct Bot {
    pub name: String,
    pub stream_name: String,
    pub pub_subject: String,
    pub sub_subject: String,
}

/// The synthesis voice.
#[derive(Debug)]
pub struct TTS {
    pub voice_id: String,
}

} // verus!
