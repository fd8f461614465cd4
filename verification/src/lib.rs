//! Hiraku engine script core: the deterministic IR virtual machine, the replay
//! journal, story navigation requests and the script host's decision logic.
pub mod tables;

pub mod encoding;
pub mod text;
pub mod stored_value;
pub mod ir;
pub mod replay;
pub mod script_command;
pub mod host;
pub mod engine;
pub mod batch;
pub mod inline;
pub mod scene_api;
pub mod sound_api;
pub mod sound_ledger;
pub mod movie_ledger;
pub mod flow_api;
pub mod story;
pub mod compiler;
pub mod lowering;
pub mod signals;
pub mod driver;
pub mod story_call;
pub mod easing;
