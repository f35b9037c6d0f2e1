use vstd::prelude::*;

pub mod cli;
pub mod clock;
pub mod cookies;
pub mod download;
pub mod facebook;
pub mod ffmpeg;
pub mod format;
pub mod gallerydl;
pub mod jobs;
pub mod json;
pub mod live;
pub mod metadata;
pub mod pattern;
pub mod platform;
pub mod progress;
pub mod recorder;
pub mod recovery;
pub mod registry;
pub mod rows;
pub mod search;
pub mod streams;
pub mod session;
pub mod telegram;
pub mod text;
pub mod updater;
pub mod urls;
pub mod variants;
pub mod watchflow;
pub mod watchlist;
pub mod xiaohongshu;
pub mod ytdlp;

verus! {

/// Whether a plugin may reach the network: only when the manifest declares the
/// permission and the user approved it.
pub fn effective_network_approval(declared: bool, requested: bool) -> (approved: bool)
    ensures
        approved == (declared && requested),
{
    declared && requested
}

} // verus!
