pub mod peer;
pub mod id_order;
pub mod dap;
pub mod proto;
pub mod proto_conversions;
pub mod client_capabilities;
pub mod ids;
pub mod dap_command;
pub mod debug_format;
pub mod worktree_update;
pub mod breakpoint_store;
pub mod session;
pub mod text;
pub mod stack_frames;
pub mod adapters;
pub mod tasks;
pub mod dap_store;
pub mod buffer_breakpoints;
pub mod client;
pub mod panel_item;
pub mod file_finder;
pub mod variable_list;
pub mod thread_entries;
pub mod envelope;
pub mod path_proto;
pub mod install;
pub mod session_item;
pub mod finder_matches;
pub mod git_panel;
