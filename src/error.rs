use vstd::prelude::*;

verus! {

/// Why a synchronization could not go ahead.
#[derive(Clone, Debug)]
pub enum SyncError {
    /// A URL could not be parsed.
    InvalidUrl,
    /// The board URL has no `agiles` path segment.
    MissingAgilesSegment,
    /// The board URL ends right after its `agiles` segment.
    MissingAgileId,
    /// The board URL has no segment after the agile id.
    MissingSprintId,
    /// Neither a board URL nor a tracker base URL was given.
    MissingBaseUrl,
    /// Neither a board URL nor an agile id was given.
    MissingAgileIdField,
    /// Neither a board URL nor a sprint id was given.
    MissingSprintIdField,
    /// The URL of the issue with this readable id could not be built from
    /// the base URL.
    IssueUrl(String),
    /// The URL of the sprint issues endpoint could not be built.
    RequestUrl,
}

/// The one-line description of each error.
pub open spec fn message_text(e: SyncError) -> Seq<char> {
    match e {
        SyncError::InvalidUrl => "invalid tracker URL"@,
        SyncError::MissingAgilesSegment => "board URL must contain '/agiles/{agileId}/{sprintId}'"@,
        SyncError::MissingAgileId => "missing agile id segment"@,
        SyncError::MissingSprintId => "missing sprint id segment"@,
        SyncError::MissingBaseUrl => "missing youtrack_base_url"@,
        SyncError::MissingAgileIdField => "missing agile_id"@,
        SyncError::MissingSprintIdField => "missing sprint_id"@,
        SyncError::IssueUrl(id) => "failed to build issue URL for "@ + id@,
        SyncError::RequestUrl => "failed to build sprint issues URL"@,
    }
}

impl SyncError {
    /// Whether the error comes from what the caller supplied (as opposed to
    /// a URL that the library derived itself).
    pub fn is_invalid_input(&self) -> (r: bool)
        ensures
            r == !(*self is IssueUrl || *self is RequestUrl),
    {
        match self {
            SyncError::IssueUrl(_) | SyncError::RequestUrl => false,
            _ => true,
        }
    }

    /// A one-line description of the error.
    pub fn message(&self) -> (r: String)
        ensures
            r@ == message_text(*self),
    {
        if let SyncError::IssueUrl(id) = self {
            let mut m = String::from_str("failed to build issue URL for ");
            m.append(id.as_str());
            return m;
        }
        let s: &str = match self {
            SyncError::InvalidUrl => "invalid tracker URL",
            SyncError::MissingAgilesSegment => "board URL must contain '/agiles/{agileId}/{sprintId}'",
            SyncError::MissingAgileId => "missing agile id segment",
            SyncError::MissingSprintId => "missing sprint id segment",
            SyncError::MissingBaseUrl => "missing youtrack_base_url",
            SyncError::MissingAgileIdField => "missing agile_id",
            SyncError::MissingSprintIdField => "missing sprint_id",
            SyncError::IssueUrl(_) => "failed to build issue URL",
            SyncError::RequestUrl => "failed to build sprint issues URL",
        };
        String::from_str(s)
    }
}

impl PartialEq for SyncError {
    fn eq(&self, o: &SyncError) -> (r: bool) {
        match self {
            SyncError::IssueUrl(a) => match o {
                SyncError::IssueUrl(b) => a.eq(b),
                _ => false,
            },
            SyncError::InvalidUrl => matches!(o, SyncError::InvalidUrl),
            SyncError::MissingAgilesSegment => matches!(o, SyncError::MissingAgilesSegment),
            SyncError::MissingAgileId => matches!(o, SyncError::MissingAgileId),
            SyncError::MissingSprintId => matches!(o, SyncError::MissingSprintId),
            SyncError::MissingBaseUrl => matches!(o, SyncError::MissingBaseUrl),
            SyncError::MissingAgileIdField => matches!(o, SyncError::MissingAgileIdField),
            SyncError::MissingSprintIdField => matches!(o, SyncError::MissingSprintIdField),
            SyncError::RequestUrl => matches!(o, SyncError::RequestUrl),
        }
    }
}

impl vstd::std_specs::cmp::PartialEqSpecImpl for SyncError {
    open spec fn obeys_eq_spec() -> bool {
        true
    }

    /// Equal variants, with equal texts for an issue id.
    open spec fn eq_spec(&self, o: &SyncError) -> bool {
        match *self {
            SyncError::IssueUrl(a) => match *o {
                SyncError::IssueUrl(b) => a@ == b@,
                _ => false,
            },
            _ => *self == *o,
        }
    }
}

} // verus!
