//! Continuous test driving for a source tree: the parser of test listings,
//! the job engine's scheduling rules, the shadow-copy path discipline and the
//! shared test state.
pub mod configuration;
pub mod crate_name;
pub mod doc_test;
pub mod engine;
pub mod jobs;
pub mod listing_lemmas;
pub mod parse_context;
pub mod parse_error;
pub mod paths;
pub mod shadow_copy_destination;
pub mod source_directory_watcher;
pub mod state;
pub mod test_list;
pub mod text;
pub mod thread_clutch;
pub mod utils;
