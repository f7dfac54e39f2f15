use vstd::prelude::*;

pub mod json;
pub mod model;
pub mod text;
pub mod extract;
pub mod infer;
pub mod summarizer;
pub mod laws;
pub mod event;
pub mod repo;
pub mod joke;

pub use extract::extract_key_points;
pub use infer::infer_changes_from_files;
pub use model::{ChangedFile, FileStatus, PrInfo};
pub use summarizer::{format_affected_files, generate_summary, Summary};
pub use event::{extract_pr_number, pick_pr_number, EventError};
pub use repo::split_repository;
pub use joke::{
    add_emoji_to_joke, fallback_joke, get_fallback_joke, joke_from_parts, joke_with_emoji,
    parse_joke_response, JokeError, FALLBACK_JOKE_COUNT, JOKE_API_COUNT,
};

verus! {

} // verus!
