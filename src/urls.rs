use vstd::prelude::*;

use crate::error::SyncError;
use crate::text::{caseless_eq, eq_ignore_ascii_case};

verus! {

/// The serialization of `s` parsed as an absolute URL, if it parses.
pub uninterp spec fn parsed_url(s: Seq<char>) -> Option<Seq<char>>;

/// The path segments of `s` parsed as an absolute URL: `None` where it does
/// not parse, `Some(None)` where the URL cannot be a base.
pub uninterp spec fn url_path_segments(s: Seq<char>) -> Option<Option<Seq<Seq<char>>>>;

/// The serialization of `s` parsed as a URL, with its path set to `path` and
/// its query and fragment removed.
pub uninterp spec fn rebased_url(s: Seq<char>, path: Seq<char>) -> Option<Seq<char>>;

/// The serialization of `rel` resolved against the URL `base`.
pub uninterp spec fn joined_url(base: Seq<char>, rel: Seq<char>) -> Option<Seq<char>>;

pub open spec fn views(v: Seq<String>) -> Seq<Seq<char>> {
    v.map_values(|s: String| s@)
}

pub open spec fn opt_view(o: Option<String>) -> Option<Seq<char>> {
    match o {
        Some(s) => Some(s@),
        None => None,
    }
}

pub open spec fn segments_view(r: Option<Option<Vec<String>>>) -> Option<Option<Seq<Seq<char>>>> {
    match r {
        None => None,
        Some(None) => Some(None),
        Some(Some(v)) => Some(Some(views(v@))),
    }
}

/// Relies on `url::Url::parse` and `Url::as_str`.
#[verifier::external_body]
fn parse_url(s: &str) -> (r: Option<String>)
    ensures
        opt_view(r) == parsed_url(s@),
{
    url::Url::parse(s).ok().map(|u| u.as_str().to_string())
}

/// Relies on `url::Url::parse` and `Url::path_segments`, each segment kept
/// as it appears in the serialization.
#[verifier::external_body]
fn path_segments_of(s: &str) -> (r: Option<Option<Vec<String>>>)
    ensures
        segments_view(r) == url_path_segments(s@),
{
    url::Url::parse(s).ok().map(|u| u.path_segments().map(|p| p.map(|x| x.to_string()).collect()))
}

/// Relies on `url::Url::set_path`, `Url::set_query(None)` and
/// `Url::set_fragment(None)`, applied to `s` parsed by `url::Url::parse`.
#[verifier::external_body]
fn rebase_url(s: &str, path: &str) -> (r: Option<String>)
    ensures
        opt_view(r) == rebased_url(s@, path@),
{
    url::Url::parse(s).ok().map(|mut u| {
        u.set_path(path);
        u.set_query(None);
        u.set_fragment(None);
        u.as_str().to_string()
    })
}

/// Relies on `url::Url::join`, applied to `base` parsed by `url::Url::parse`.
#[verifier::external_body]
pub(crate) fn join_url(base: &str, rel: &str) -> (r: Option<String>)
    ensures
        opt_view(r) == joined_url(base@, rel@),
{
    url::Url::parse(base).ok().and_then(|u| u.join(rel).ok()).map(|u| u.as_str().to_string())
}

pub open spec fn str_result(r: Result<String, SyncError>) -> Result<Seq<char>, SyncError> {
    match r {
        Ok(s) => Ok(s@),
        Err(e) => Err(e),
    }
}

pub open spec fn location_result(r: Result<(String, String, String), SyncError>) -> Result<
    (Seq<char>, Seq<char>, Seq<char>),
    SyncError,
> {
    match r {
        Ok((b, a, s)) => Ok((b@, a@, s@)),
        Err(e) => Err(e),
    }
}

/// A URL serialization `t`, made to end with a slash.
pub open spec fn finished_base(t: Seq<char>) -> Result<Seq<char>, SyncError> {
    if t.len() > 0 && t.last() == '/' {
        Ok(t)
    } else {
        match parsed_url(t + seq!['/']) {
            Some(u) => Ok(u),
            None => Err(SyncError::InvalidUrl),
        }
    }
}

/// The tracker base URL given as `s`, parsed and made to end with a slash.
pub open spec fn normalized_base(s: Seq<char>) -> Result<Seq<char>, SyncError> {
    match parsed_url(s) {
        Some(t) => finished_base(t),
        None => Err(SyncError::InvalidUrl),
    }
}

pub open spec fn is_agiles(s: Seq<char>) -> bool {
    caseless_eq(s, seq!['a', 'g', 'i', 'l', 'e', 's'])
}

/// The first index from `i` on whose segment is `agiles`, ignoring case.
pub open spec fn agiles_from(segs: Seq<Seq<char>>, i: int) -> Option<int>
    decreases segs.len() - i,
{
    if i < 0 || i >= segs.len() {
        None
    } else if is_agiles(segs[i]) {
        Some(i)
    } else {
        agiles_from(segs, i + 1)
    }
}

/// Each segment preceded by a slash.
pub open spec fn slash_path(segs: Seq<Seq<char>>) -> Seq<char>
    decreases segs.len(),
{
    if segs.len() == 0 {
        seq![]
    } else {
        slash_path(segs.drop_last()) + seq!['/'] + segs.last()
    }
}

/// The absolute path made of `segs`, ending with a slash.
pub open spec fn base_path(segs: Seq<Seq<char>>) -> Seq<char> {
    slash_path(segs) + seq!['/']
}

/// The base path, agile id and sprint id that the path segments of a board
/// URL name: the path before the first `agiles` segment (ignoring case) and
/// the two segments after it.
pub open spec fn board_path_parts(segs: Seq<Seq<char>>) -> Result<
    (Seq<char>, Seq<char>, Seq<char>),
    SyncError,
> {
    match agiles_from(segs, 0) {
        None => Err(SyncError::MissingAgilesSegment),
        Some(k) => if k + 1 >= segs.len() {
            Err(SyncError::MissingAgileId)
        } else if k + 2 >= segs.len() {
            Err(SyncError::MissingSprintId)
        } else {
            Ok((base_path(segs.take(k)), segs[k + 1], segs[k + 2]))
        },
    }
}

/// The base URL, agile id and sprint id that a board URL names.
pub open spec fn board_location(board: Seq<char>) -> Result<
    (Seq<char>, Seq<char>, Seq<char>),
    SyncError,
> {
    match url_path_segments(board) {
        None => Err(SyncError::InvalidUrl),
        Some(o) => {
            let segs = match o {
                Some(v) => v,
                None => seq![],
            };
            match board_path_parts(segs) {
                Err(e) => Err(e),
                Ok((path, agile, sprint)) => match rebased_url(board, path) {
                    None => Err(SyncError::InvalidUrl),
                    Some(t) => match finished_base(t) {
                        Ok(b) => Ok((b, agile, sprint)),
                        Err(e) => Err(e),
                    },
                },
            }
        },
    }
}

fn finish_base(t: String) -> (r: Result<String, SyncError>)
    ensures
        str_result(r) == finished_base(t@),
{
    let n = t.as_str().unicode_len();
    if n > 0 && t.as_str().get_char(n - 1) == '/' {
        return Ok(t);
    }
    let mut u = t.clone();
    u.append("/");
    proof {
        reveal_strlit("/");
        assert(u@ =~= t@ + seq!['/']);
    }
    match parse_url(u.as_str()) {
        Some(v) => Ok(v),
        None => Err(SyncError::InvalidUrl),
    }
}

/// Parses a tracker base URL and makes it end with a slash.
pub fn normalize_base_url(base: &str) -> (r: Result<String, SyncError>)
    ensures
        str_result(r) == normalized_base(base@),
{
    match parse_url(base) {
        Some(t) => finish_base(t),
        None => Err(SyncError::InvalidUrl),
    }
}

fn find_agiles(segs: &Vec<String>) -> (r: Option<usize>)
    ensures
        agiles_from(views(segs@), 0) == match r {
            Some(k) => Some(k as int),
            None => None::<int>,
        },
        match r {
            Some(k) => k < segs@.len(),
            None => true,
        },
{
    let n = segs.len();
    let mut i: usize = 0;
    proof {
        reveal_strlit("agiles");
        assert("agiles"@ =~= seq!['a', 'g', 'i', 'l', 'e', 's']);
    }
    while i < n
        invariant
            n == segs@.len(),
            i <= n,
            "agiles"@ == seq!['a', 'g', 'i', 'l', 'e', 's'],
            agiles_from(views(segs@), 0) == agiles_from(views(segs@), i as int),
        decreases n - i,
    {
        if eq_ignore_ascii_case(segs[i].as_str(), "agiles") {
            return Some(i);
        }
        i = i + 1;
    }
    None
}

fn base_path_of(segs: &Vec<String>, k: usize) -> (r: String)
    requires
        k <= segs@.len(),
    ensures
        r@ == base_path(views(segs@).take(k as int)),
{
    proof {
        reveal_strlit("/");
        assert("/"@ =~= seq!['/']);
    }
    let mut p = String::new();
    let mut i: usize = 0;
    while i < k
        invariant
            i <= k,
            k <= segs@.len(),
            "/"@ == seq!['/'],
            p@ == slash_path(views(segs@).take(i as int)),
        decreases k - i,
    {
        p.append("/");
        p.append(segs[i].as_str());
        proof {
            let t = views(segs@).take(i + 1);
            assert(t.drop_last() =~= views(segs@).take(i as int));
        }
        i = i + 1;
    }
    p.append("/");
    p
}

/// Splits the path segments of a board URL at its first `agiles` segment
/// (ignoring case): the absolute path before it, ending with a slash, and
/// the agile id and sprint id after it.
pub fn split_board_path(segments: &Vec<String>) -> (r: Result<(String, String, String), SyncError>)
    ensures
        location_result(r) == board_path_parts(views(segments@)),
{
    let k = match find_agiles(segments) {
        None => return Err(SyncError::MissingAgilesSegment),
        Some(k) => k,
    };
    let after = segments.len() - k;
    if after <= 1 {
        return Err(SyncError::MissingAgileId);
    }
    if after <= 2 {
        return Err(SyncError::MissingSprintId);
    }
    let path = base_path_of(segments, k);
    Ok((path, segments[k + 1].clone(), segments[k + 2].clone()))
}

/// Reads the tracker base URL, agile id and sprint id out of a board URL of
/// the form `.../agiles/{agileId}/{sprintId}`. The base URL is everything
/// before the `agiles` segment, without query or fragment, ending with a
/// slash.
pub fn parse_board_url(board_url: &str) -> (r: Result<(String, String, String), SyncError>)
    ensures
        location_result(r) == board_location(board_url@),
{
    let segs: Vec<String> = match path_segments_of(board_url) {
        None => return Err(SyncError::InvalidUrl),
        Some(None) => Vec::new(),
        Some(Some(v)) => v,
    };
    proof {
        assert(views(Seq::<String>::empty()) =~= Seq::<Seq<char>>::empty());
    }
    let (path, agile_id, sprint_id) = match split_board_path(&segs) {
        Ok(t) => t,
        Err(e) => return Err(e),
    };
    let rebased = match rebase_url(board_url, path.as_str()) {
        None => return Err(SyncError::InvalidUrl),
        Some(t) => t,
    };
    let base = match finish_base(rebased) {
        Ok(b) => b,
        Err(e) => return Err(e),
    };
    Ok((base, agile_id, sprint_id))
}

/// Picks where the sprint lives: from `board_url` where one is given, else
/// from the three explicit parts, of which the base URL is normalized.
pub fn resolve_location(
    board_url: Option<String>,
    base_url: Option<String>,
    agile_id: Option<String>,
    sprint_id: Option<String>,
) -> (r: Result<(String, String, String), SyncError>)
    ensures
        location_result(r) == match board_url {
            Some(b) => board_location(b@),
            None => match (base_url, agile_id, sprint_id) {
                (None, _, _) => Err(SyncError::MissingBaseUrl),
                (Some(_), None, _) => Err(SyncError::MissingAgileIdField),
                (Some(_), Some(_), None) => Err(SyncError::MissingSprintIdField),
                (Some(b), Some(a), Some(s)) => match normalized_base(b@) {
                    Ok(n) => Ok((n, a@, s@)),
                    Err(e) => Err(e),
                },
            },
        },
{
    if let Some(b) = board_url {
        return parse_board_url(b.as_str());
    }
    let b = match base_url {
        None => return Err(SyncError::MissingBaseUrl),
        Some(b) => b,
    };
    let a = match agile_id {
        None => return Err(SyncError::MissingAgileIdField),
        Some(a) => a,
    };
    let s = match sprint_id {
        None => return Err(SyncError::MissingSprintIdField),
        Some(s) => s,
    };
    match normalize_base_url(b.as_str()) {
        Ok(n) => Ok((n, a, s)),
        Err(e) => Err(e),
    }
}

} // verus!
