//! An interactive command-line editing and completion engine: an editable
//! buffer with codepoint-exact cursor arithmetic, append-ordered history
//! with Up/Down recall, a prefix-validation walk over filesystem paths with
//! candidate matching and disambiguation, and the keystroke dispatch that
//! ties them together. Every operation carries a contract; the surrounding
//! terminal, filesystem and process plumbing stays outside and talks to the
//! engine in plain values.

mod buffer;
mod history;
mod text;
mod resolver;
mod matcher;
mod session;
mod listing;

pub use buffer::EditBuffer;
pub use history::HistoryLog;
pub use text::clone_chars;
pub use text::eq_chars;
pub use text::starts_with_chars;
pub use text::append_chars;
pub use text::append_suffix;
pub use resolver::PathWalk;
pub use resolver::PathWalkResult;
pub use resolver::split_segments;
pub use resolver::join_path;
pub use resolver::contains_path;
pub use resolver::resolve_against;
pub use matcher::DirEntry;
pub use matcher::CompletionOutcome;
pub use matcher::match_entries;
pub use matcher::expand_home;
pub use matcher::collapse_home;
pub use matcher::normalize_separators;
pub use matcher::completed_argument;
pub use matcher::rebuild_line;
pub use session::KeyEvent;
pub use session::SessionAction;
pub use session::CompletionRequest;
pub use session::Session;
pub use session::find_first_space;
pub use session::find_nonspace;
pub use listing::ListingEntry;
pub use listing::ListedItem;
pub use listing::FileKind;
pub use listing::Placement;
pub use listing::layout_listing;
pub use listing::classify;
