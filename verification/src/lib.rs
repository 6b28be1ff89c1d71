use vstd::prelude::*;

pub mod text;
pub mod patch;
pub mod hunk;
pub mod patch_view;
pub mod terminal_text;
pub mod terminal;
pub mod settings;
pub mod output;
pub mod words;
pub mod command;
pub mod agent_events;
pub mod persona;
pub mod tools;
pub mod terminal_report;
pub mod registry;
pub mod keys;
pub mod tool_args;
pub mod plan;
pub mod patch_diag;
pub mod roles;
pub mod user_input;
pub mod memory_args;
pub mod agent_args;
pub mod describe;
pub mod agent_report;
pub mod background_report;
pub mod targets;
pub mod patch_apply;
pub mod image_kind;
pub mod terminal_ui;
pub mod emulator;
pub mod dispatch;
pub mod retention;
pub mod background_state;
pub mod batch;
pub mod view_image;
pub mod parallel;
pub mod exec_plan;
pub mod agent_run;
pub mod role_actions;
pub mod tool_paths;
pub mod report_lines;
pub mod agent_spawn;
pub mod image_compress;

verus! {

} // verus!
