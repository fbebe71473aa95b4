//! Synchronizes the open issues of a tracker sprint into a task store.
//!
//! The library holds the decisions: board-URL parsing, pagination, issue
//! classification, title and description derivation, de-duplication and the
//! run summary. Network and database work is done by the caller, which feeds
//! the results back in.

mod error;
mod issue;
pub mod laws;
mod pager;
mod sync;
mod text;
mod urls;

pub use error::SyncError;
pub use issue::{
    is_open_issue, select_open_issues, youtrack_state_value, CustomField, FieldValue, Issue,
};
pub use pager::{IssuePager, PageRequest, ISSUE_FIELDS, PAGE_SIZE};
pub use sync::{
    default_open_value, default_state_field, issue_description, issue_title_prefix, issue_url,
    plan_task, SyncSession, SyncSummary, TaskDraft, YouTrackAuthToken, YouTrackOpenSyncResponse,
};
pub use text::{eq_ignore_ascii_case, is_blank};
pub use urls::{normalize_base_url, parse_board_url, resolve_location, split_board_path};
