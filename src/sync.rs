use vstd::prelude::*;

use crate::error::SyncError;
use crate::issue::{Issue, open_issues_of, select_open_issues};
use crate::text::{blank, has_prefix, is_blank};
use crate::urls::{join_url, joined_url, normalize_base_url, normalized_base, views};

verus! {

/// A bearer token for the tracker. It is sensitive: nothing here prints it.
#[derive(Clone, Debug)]
pub struct YouTrackAuthToken(pub String);

/// What a synchronization run did, or would do in a dry run.
#[derive(Clone, Debug)]
pub struct SyncSummary {
    pub open_issues_total: usize,
    pub created: usize,
    pub skipped_existing: usize,
    pub dry_run: bool,
    pub created_titles: Vec<String>,
}

/// The summary as the request-driven entry point reports it.
#[derive(Clone, Debug)]
pub struct YouTrackOpenSyncResponse {
    pub open_issues_total: usize,
    pub created: usize,
    pub skipped_existing: usize,
    pub dry_run: bool,
    pub created_titles: Vec<String>,
}

impl YouTrackOpenSyncResponse {
    pub fn from_summary(s: SyncSummary) -> (r: YouTrackOpenSyncResponse)
        ensures
            r.open_issues_total == s.open_issues_total,
            r.created == s.created,
            r.skipped_existing == s.skipped_existing,
            r.dry_run == s.dry_run,
            r.created_titles@ == s.created_titles@,
    {
        YouTrackOpenSyncResponse {
            open_issues_total: s.open_issues_total,
            created: s.created,
            skipped_existing: s.skipped_existing,
            dry_run: s.dry_run,
            created_titles: s.created_titles,
        }
    }
}

/// The state field looked up when none is named.
pub fn default_state_field() -> (r: String)
    ensures
        r@ == "State"@,
{
    String::from_str("State")
}

/// The state value counted as open when none is named.
pub fn default_open_value() -> (r: String)
    ensures
        r@ == "Open"@,
{
    String::from_str("Open")
}

/// `[id] `: the start of the title of every task made for issue `id`.
pub open spec fn title_prefix(id: Seq<char>) -> Seq<char> {
    "["@ + id + "] "@
}

/// The title of the task made for `issue`.
pub open spec fn title_of(issue: Issue) -> Seq<char> {
    title_prefix(issue.id_readable@) + issue.summary@
}

/// The description of the task made for an issue at `url`: a link line,
/// then, where the issue has a description that is not blank, an empty line
/// and that description.
pub open spec fn description_text(url: Seq<char>, desc: Option<String>) -> Seq<char> {
    let head = "YouTrack: "@ + url + "\n"@;
    match desc {
        Some(d) => if blank(d@) {
            head
        } else {
            head + "\n"@ + d@
        },
        None => head,
    }
}

/// The URL of issue `id` under the base URL `base`.
pub open spec fn issue_url_of(base: Seq<char>, id: Seq<char>) -> Option<Seq<char>> {
    joined_url(base, "issue/"@ + id)
}

/// The title and description of the task for `issue`.
/// `None` where the issue's URL cannot be built.
pub open spec fn planned_task(base: Seq<char>, issue: Issue) -> Option<(Seq<char>, Seq<char>)> {
    match issue_url_of(base, issue.id_readable@) {
        Some(u) => Some((title_of(issue), description_text(u, issue.description))),
        None => None,
    }
}

/// The title prefix of an issue: `[` id `] `.
pub fn issue_title_prefix(issue_id_readable: &str) -> (r: String)
    ensures
        r@ == title_prefix(issue_id_readable@),
{
    let mut s = String::from_str("[");
    s.append(issue_id_readable);
    s.append("] ");
    s
}

/// The URL of an issue: `issue/{id}` resolved against the base URL.
pub fn issue_url(youtrack_base: &str, issue_id_readable: &str) -> (r: Result<String, SyncError>)
    ensures
        match issue_url_of(youtrack_base@, issue_id_readable@) {
            Some(u) => r matches Ok(v) && v@ == u,
            None => r matches Err(SyncError::IssueUrl(i)) && i@ == issue_id_readable@,
        },
{
    let mut rel = String::from_str("issue/");
    rel.append(issue_id_readable);
    match join_url(youtrack_base, rel.as_str()) {
        Some(u) => Ok(u),
        None => Err(SyncError::IssueUrl(String::from_str(issue_id_readable))),
    }
}

/// The description of the task for an issue at `url`.
pub fn issue_description(url: &str, description: &Option<String>) -> (r: String)
    ensures
        r@ == description_text(url@, *description),
{
    let mut d = String::from_str("YouTrack: ");
    d.append(url);
    d.append("\n");
    if let Some(body) = description {
        if !is_blank(body.as_str()) {
            d.append("\n");
            d.append(body.as_str());
        }
    }
    d
}

/// A task to create, with status Todo and no other link set.
#[derive(Clone, Debug)]
pub struct TaskDraft {
    pub title: String,
    pub description: String,
}

/// The task to create for `issue`.
pub fn plan_task(youtrack_base: &str, issue: &Issue) -> (r: Result<TaskDraft, SyncError>)
    ensures
        match planned_task(youtrack_base@, *issue) {
            Some((t, d)) => r matches Ok(draft) && draft.title@ == t && draft.description@ == d,
            None => r matches Err(SyncError::IssueUrl(i)) && i@ == issue.id_readable@,
        },
{
    let url = match issue_url(youtrack_base, issue.id_readable.as_str()) {
        Ok(u) => u,
        Err(e) => return Err(e),
    };
    let description = issue_description(url.as_str(), &issue.description);
    let mut title = issue_title_prefix(issue.id_readable.as_str());
    title.append(issue.summary.as_str());
    Ok(TaskDraft { title, description })
}

/// The created titles and the skipped count after the lookup for `issue`
/// answered `found`: a found task skips the issue, else its title is
/// recorded as created.
pub open spec fn lookup_step(titles: Seq<Seq<char>>, skipped: nat, issue: Issue, found: bool) -> (
    Seq<Seq<char>>,
    nat,
) {
    if found {
        (titles, skipped + 1)
    } else {
        (titles.push(title_of(issue)), skipped)
    }
}

/// One synchronization run, driven by its caller: for each open issue in
/// turn the caller looks up whether a task with the issue's title prefix
/// exists, reports the answer, and creates the task handed back, if any.
pub struct SyncSession {
    base_url: String,
    open: Vec<Issue>,
    next: usize,
    summary: SyncSummary,
}

impl SyncSession {
    /// The normalized tracker base URL.
    pub closed spec fn base_view(&self) -> Seq<char> {
        self.base_url@
    }

    /// The open issues, in the order they are handled.
    pub closed spec fn open_view(&self) -> Seq<Issue> {
        self.open@
    }

    /// How many open issues have been handled.
    pub closed spec fn position(&self) -> nat {
        self.next as nat
    }

    /// The summary so far.
    pub closed spec fn summary_view(&self) -> SyncSummary {
        self.summary
    }

    pub closed spec fn wf(&self) -> bool {
        &&& self.next <= self.open@.len()
        &&& self.summary.open_issues_total == self.open@.len()
        &&& self.summary.created + self.summary.skipped_existing == self.next
        &&& self.summary.created_titles@.len() == self.summary.created
    }

    /// Starts a run over the issues fetched from the tracker: the base URL is
    /// normalized and the open issues are picked out.
    pub fn new(
        youtrack_base_url: &str,
        issues: Vec<Issue>,
        state_field: &str,
        open_value: &str,
        dry_run: bool,
    ) -> (r: Result<SyncSession, SyncError>)
        ensures
            match normalized_base(youtrack_base_url@) {
                Ok(b) => r matches Ok(s) && s.wf() && s.base_view() == b && s.open_view()
                    == open_issues_of(issues@, state_field@, open_value@) && s.position() == 0
                    && s.summary_view().open_issues_total == s.open_view().len()
                    && s.summary_view().created == 0 && s.summary_view().skipped_existing == 0
                    && s.summary_view().dry_run == dry_run
                    && s.summary_view().created_titles@.len() == 0,
                Err(e) => r == Err::<SyncSession, SyncError>(e),
            },
    {
        let base_url = match normalize_base_url(youtrack_base_url) {
            Ok(b) => b,
            Err(e) => return Err(e),
        };
        let open = select_open_issues(issues, state_field, open_value);
        let total = open.len();
        Ok(SyncSession {
            base_url,
            open,
            next: 0,
            summary: SyncSummary {
                open_issues_total: total,
                created: 0,
                skipped_existing: 0,
                dry_run,
                created_titles: Vec::new(),
            },
        })
    }

    /// The title prefix to look up for the next open issue, or `None` once
    /// every open issue has been handled.
    pub fn current_prefix(&self) -> (r: Option<String>)
        requires
            self.wf(),
        ensures
            match r {
                Some(p) => self.position() < self.open_view().len() && p@ == title_prefix(
                    self.open_view()[self.position() as int].id_readable@,
                ),
                None => self.position() == self.open_view().len(),
            },
    {
        if self.next < self.open.len() {
            Some(issue_title_prefix(self.open[self.next].id_readable.as_str()))
        } else {
            None
        }
    }

    /// Takes in whether a task with the next issue's title prefix exists.
    /// If one does, the issue is skipped. Otherwise its task is counted as
    /// created and, unless this is a dry run, handed back for the caller to
    /// create. Once every issue has been handled nothing changes.
    pub fn on_lookup(&mut self, found: bool) -> (r: Result<Option<TaskDraft>, SyncError>)
        requires
            old(self).wf(),
        ensures
            final(self).wf(),
            final(self).base_view() == old(self).base_view(),
            final(self).open_view() == old(self).open_view(),
            final(self).summary_view().open_issues_total == old(self).summary_view().open_issues_total,
            final(self).summary_view().dry_run == old(self).summary_view().dry_run,
            old(self).position() >= old(self).open_view().len() ==> (r matches Ok(None)
                && *final(self) == *old(self)),
            old(self).position() < old(self).open_view().len() && r is Ok ==> (views(
                final(self).summary_view().created_titles@,
            ), final(self).summary_view().skipped_existing as nat) == lookup_step(
                views(old(self).summary_view().created_titles@),
                old(self).summary_view().skipped_existing as nat,
                old(self).open_view()[old(self).position() as int],
                found,
            ),
            old(self).position() < old(self).open_view().len() && found ==> (r matches Ok(None)
                && final(self).position() == old(self).position() + 1
                && final(self).summary_view().skipped_existing
                == old(self).summary_view().skipped_existing + 1
                && final(self).summary_view().created == old(self).summary_view().created
                && final(self).summary_view().created_titles@
                == old(self).summary_view().created_titles@),
            old(self).position() < old(self).open_view().len() && !found ==> match planned_task(
                old(self).base_view(),
                old(self).open_view()[old(self).position() as int],
            ) {
                None => (r matches Err(SyncError::IssueUrl(i)) && i@ == old(
                    self,
                ).open_view()[old(self).position() as int].id_readable@) && *final(self) == *old(
                    self,
                ),
                Some((t, d)) => final(self).position() == old(self).position() + 1
                    && final(self).summary_view().skipped_existing
                    == old(self).summary_view().skipped_existing
                    && final(self).summary_view().created == old(self).summary_view().created + 1
                    && views(final(self).summary_view().created_titles@) == views(
                    old(self).summary_view().created_titles@,
                ).push(t) && if old(self).summary_view().dry_run {
                    r matches Ok(None)
                } else {
                    r matches Ok(Some(draft)) && draft.title@ == t && draft.description@ == d
                },
            },
    {
        if self.next >= self.open.len() {
            return Ok(None);
        }
        if found {
            self.summary.skipped_existing = self.summary.skipped_existing + 1;
            self.next = self.next + 1;
            return Ok(None);
        }
        let draft = match plan_task(self.base_url.as_str(), &self.open[self.next]) {
            Ok(d) => d,
            Err(e) => return Err(e),
        };
        let ghost before = self.summary.created_titles@;
        self.summary.created_titles.push(draft.title.clone());
        proof {
            assert(views(self.summary.created_titles@) =~= views(before).push(draft.title@));
        }
        self.summary.created = self.summary.created + 1;
        self.next = self.next + 1;
        if self.summary.dry_run {
            Ok(None)
        } else {
            Ok(Some(draft))
        }
    }

    /// The summary of the run.
    pub fn into_summary(self) -> (r: SyncSummary)
        requires
            self.wf(),
        ensures
            r == self.summary_view(),
            r.open_issues_total == self.open_view().len(),
            r.created == r.created_titles@.len(),
            r.created + r.skipped_existing == self.position(),
    {
        self.summary
    }
}

} // verus!
