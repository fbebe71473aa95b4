use vstd::prelude::*;

use crate::error::SyncError;
use crate::issue::Issue;
use crate::urls::{join_url, joined_url, normalize_base_url, normalized_base};

verus! {

/// How many issues one page request asks for.
pub const PAGE_SIZE: usize = 100;

/// The fields that a page request selects for each issue.
pub const ISSUE_FIELDS: &'static str = "idReadable,summary,description,customFields(name,value(name))";

/// The path, relative to the tracker base URL, of a sprint's issues.
pub open spec fn issues_path(agile_id: Seq<char>, sprint_id: Seq<char>) -> Seq<char> {
    "api/agiles/"@ + agile_id + "/sprints/"@ + sprint_id + "/issues"@
}

/// One request for a page of issues: `top` issues from offset `skip`.
#[derive(Clone, Debug)]
pub struct PageRequest {
    pub url: String,
    pub skip: usize,
    pub top: usize,
}

/// Walks the pages of a sprint's issues: it hands out one request at a
/// time and stops after the first page shorter than [`PAGE_SIZE`].
pub struct IssuePager {
    url: String,
    skip: usize,
    done: bool,
    issues: Vec<Issue>,
}

impl IssuePager {
    /// The URL of the issues endpoint.
    pub closed spec fn url_view(&self) -> Seq<char> {
        self.url@
    }

    /// The offset of the next page.
    pub closed spec fn skip_view(&self) -> nat {
        self.skip as nat
    }

    /// A short page has come in: no more requests.
    pub closed spec fn is_done(&self) -> bool {
        self.done
    }

    /// The issues received so far, in order.
    pub closed spec fn received(&self) -> Seq<Issue> {
        self.issues@
    }

    pub closed spec fn wf(&self) -> bool {
        !self.done ==> self.skip <= self.issues@.len()
    }

    /// A pager for the issues of sprint `sprint_id` of board `agile_id`
    /// under the tracker base URL `base_url`, which is normalized first.
    pub fn new(base_url: &str, agile_id: &str, sprint_id: &str) -> (r: Result<
        IssuePager,
        SyncError,
    >)
        ensures
            match normalized_base(base_url@) {
                Err(e) => r == Err::<IssuePager, SyncError>(e),
                Ok(b) => match joined_url(b, issues_path(agile_id@, sprint_id@)) {
                    Some(u) => r matches Ok(p) && p.wf() && p.url_view() == u && p.skip_view()
                        == 0 && !p.is_done() && p.received().len() == 0,
                    None => r == Err::<IssuePager, SyncError>(SyncError::RequestUrl),
                },
            },
    {
        let base = match normalize_base_url(base_url) {
            Ok(b) => b,
            Err(e) => return Err(e),
        };
        let mut path = String::from_str("api/agiles/");
        path.append(agile_id);
        path.append("/sprints/");
        path.append(sprint_id);
        path.append("/issues");
        match join_url(base.as_str(), path.as_str()) {
            Some(url) => Ok(IssuePager { url, skip: 0, done: false, issues: Vec::new() }),
            None => Err(SyncError::RequestUrl),
        }
    }

    /// The next request to make, or `None` once a short page has come in.
    pub fn next_request(&self) -> (r: Option<PageRequest>)
        ensures
            match r {
                Some(q) => !self.is_done() && q.url@ == self.url_view() && q.skip
                    == self.skip_view() && q.top == PAGE_SIZE,
                None => self.is_done(),
            },
    {
        if self.done {
            None
        } else {
            Some(PageRequest { url: self.url.clone(), skip: self.skip, top: PAGE_SIZE })
        }
    }

    /// Takes in the page answering the last request: its issues are added
    /// in order; a page shorter than [`PAGE_SIZE`] ends the walk, a full one
    /// moves the offset on by [`PAGE_SIZE`].
    pub fn receive_page(&mut self, page: Vec<Issue>)
        requires
            old(self).wf(),
            !old(self).is_done(),
            old(self).received().len() + page@.len() <= usize::MAX,
        ensures
            final(self).wf(),
            final(self).url_view() == old(self).url_view(),
            final(self).received() == old(self).received() + page@,
            final(self).is_done() == (page@.len() < PAGE_SIZE),
            final(self).skip_view() == if page@.len() < PAGE_SIZE {
                old(self).skip_view() as int
            } else {
                old(self).skip_view() + PAGE_SIZE
            },
    {
        let n = page.len();
        let mut page = page;
        self.issues.append(&mut page);
        if n < PAGE_SIZE {
            self.done = true;
        } else {
            self.skip = self.skip + PAGE_SIZE;
        }
    }

    /// The issues received, in order.
    pub fn into_issues(self) -> (r: Vec<Issue>)
        ensures
            r@ == self.received(),
    {
        self.issues
    }
}

} // verus!
