//! Conversational pipeline core: the bounded data structures and the
//! per-stage decision logic of a prompt -> text -> speech dialogue loop.
//!
//! Every stage is written as a state machine over plain values. The async
//! runtime, the message bus, the language model, the speech backend and the
//! audio device drive these machines from the outside.
pub mod audio;
pub mod buffer;
pub mod cli;
pub mod defaults;
pub mod history;
pub mod jet;
pub mod llm;
pub mod message;
pub mod orchestrator;
pub mod tts;
