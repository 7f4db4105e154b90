//! Decision logic of the Vox Golem voice assistant.

pub mod active_prompt;
pub mod agent_laws;
pub mod agent_stages;
pub mod app_updates;
pub mod application;
pub mod capabilities;
pub mod capability_laws;
pub mod completion;
pub mod config;
pub mod conversation;
pub mod counters;
pub mod cue;
pub mod local_prompt;
pub mod opencode;
pub mod partial_transcription;
pub mod persisted_state;
pub mod playback;
pub mod prefetch;
pub mod profile_switch;
pub mod prompt;
pub mod prompt_events;
pub mod prompt_flow;
pub mod prompt_laws;
pub mod runtime_log;
pub mod settings;
pub mod startup;
pub mod startup_laws;
pub mod state_file_laws;
pub mod switch_laws;
pub mod telemetry;
pub mod text;
pub mod tts;
pub mod tts_switch;
pub mod update_flow;
pub mod update_laws;
pub mod voice;
pub mod voice_model;
pub mod voice_model_laws;
