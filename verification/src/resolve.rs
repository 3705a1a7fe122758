//! From a project reference to a directory on disk: the repository's URL, the
//! directory it is cloned into, and the build description beneath it.

use vstd::prelude::*;
use vstd::string::*;
use crate::config::{opt_chars, ProjectInfo, ProjectInfoView};

verus! {

/// Why a source cannot be resolved.
#[derive(Debug, Clone, PartialEq, Eq)]
pub enum ResolveError {
    /// The URL has no path segment that can name a directory.
    NoPathSegment { url: String },
    /// A relative reference in a collection without a base URL.
    MissingGitBase { git_rel: String },
    /// A git command for the repository did not succeed.
    GitFailed { url: String },
}

pub enum ResolveErrorView {
    NoPathSegment { url: Seq<char> },
    MissingGitBase { git_rel: Seq<char> },
    GitFailed { url: Seq<char> },
}

impl ResolveErrorView {
    /// The text shown for the error.
    pub open spec fn message(self) -> Seq<char> {
        match self {
            ResolveErrorView::NoPathSegment { url } => url + " is not a valid git_url"@,
            ResolveErrorView::MissingGitBase { git_rel } => "the relative git `"@ + git_rel
                + "` could no be resolved you need to set the `git_base` url"@,
            ResolveErrorView::GitFailed { url } => "git failed for "@ + url,
        }
    }
}

impl View for ResolveError {
    type V = ResolveErrorView;

    open spec fn view(&self) -> ResolveErrorView {
        match *self {
            ResolveError::NoPathSegment { url } => ResolveErrorView::NoPathSegment { url: url@ },
            ResolveError::MissingGitBase { git_rel } => ResolveErrorView::MissingGitBase {
                git_rel: git_rel@,
            },
            ResolveError::GitFailed { url } => ResolveErrorView::GitFailed { url: url@ },
        }
    }
}

impl ResolveError {
    /// A copy of the error.
    pub fn duplicate(&self) -> (e: ResolveError)
        ensures
            e@ == self@,
    {
        match self {
            ResolveError::NoPathSegment { url } => ResolveError::NoPathSegment { url: url.clone() },
            ResolveError::MissingGitBase { git_rel } => ResolveError::MissingGitBase {
                git_rel: git_rel.clone(),
            },
            ResolveError::GitFailed { url } => ResolveError::GitFailed { url: url.clone() },
        }
    }

    /// The human-readable text of the error.
    pub fn message(&self) -> (s: String)
        ensures
            s@ == self@.message(),
    {
        match self {
            ResolveError::NoPathSegment { url } => {
                let mut s = url.clone();
                s.append(" is not a valid git_url");
                s
            },
            ResolveError::MissingGitBase { git_rel } => {
                let mut s = String::from_str("the relative git `");
                s.append(git_rel.as_str());
                s.append("` could no be resolved you need to set the `git_base` url");
                s
            },
            ResolveError::GitFailed { url } => {
                let mut s = String::from_str("git failed for ");
                s.append(url.as_str());
                s
            },
        }
    }
}

/// `s` ends in a path separator.
pub open spec fn ends_with_sep(s: Seq<char>) -> bool {
    s.len() > 0 && s.last() == '/'
}

/// `s` begins with a path separator.
pub open spec fn starts_with_sep(s: Seq<char>) -> bool {
    s.len() > 0 && s[0] == '/'
}

/// `s` without one trailing separator.
pub open spec fn trim_trailing_sep(s: Seq<char>) -> Seq<char> {
    if ends_with_sep(s) {
        s.drop_last()
    } else {
        s
    }
}

/// `s` without one leading separator.
pub open spec fn trim_leading_sep(s: Seq<char>) -> Seq<char> {
    if starts_with_sep(s) {
        s.drop_first()
    } else {
        s
    }
}

/// `left`, one separator, `right`.
pub open spec fn spec_join_path(left: Seq<char>, right: Seq<char>) -> Seq<char> {
    left + seq!['/'] + right
}

/// The URL of `rel` under `base`: a separator that either side brings at the
/// junction is taken for the one that joins them.
pub open spec fn spec_join_url(base: Seq<char>, rel: Seq<char>) -> Seq<char> {
    spec_join_path(trim_trailing_sep(base), trim_leading_sep(rel))
}

/// Joins two path pieces with a separator between them.
pub fn join_path(left: &str, right: &str) -> (path: String)
    ensures
        path@ == spec_join_path(left@, right@),
{
    let mut path = String::from_str(left);
    path.append("/");
    path.append(right);
    proof {
        reveal_strlit("/");
        assert("/"@ =~= seq!['/']);
    }
    path
}

/// Resolves a relative repository path against the base URL.
pub fn join_url(base: &str, rel: &str) -> (url: String)
    ensures
        url@ == spec_join_url(base@, rel@),
{
    let base_len: usize = base.unicode_len();
    let rel_len: usize = rel.unicode_len();
    let base_end: usize = if base_len > 0 && base.get_char(base_len - 1) == '/' {
        base_len - 1
    } else {
        base_len
    };
    let rel_start: usize = if rel_len > 0 && rel.get_char(0) == '/' {
        1
    } else {
        0
    };
    let left = base.substring_char(0, base_end);
    let right = rel.substring_char(rel_start, rel_len);
    assert(left@ =~= trim_trailing_sep(base@));
    assert(right@ =~= trim_leading_sep(rel@));
    join_path(left, right)
}

/// Joining puts exactly one separator between the two sides, whether the
/// base ends in one, the relative path begins with one, both or neither.
pub proof fn lemma_join_url_separators(a: Seq<char>, b: Seq<char>)
    requires
        !ends_with_sep(a),
        !starts_with_sep(b),
    ensures
        spec_join_url(a, b) == a + seq!['/'] + b,
        spec_join_url(a + seq!['/'], b) == a + seq!['/'] + b,
        spec_join_url(a, seq!['/'] + b) == a + seq!['/'] + b,
        spec_join_url(a + seq!['/'], seq!['/'] + b) == a + seq!['/'] + b,
{
    let sep = seq!['/'];
    assert((a + sep).drop_last() =~= a);
    assert((sep + b).drop_first() =~= b);
    assert(ends_with_sep(a + sep));
    assert(starts_with_sep(sep + b));
}

/// A joined URL is the same whether or not its sides were trimmed first.
pub proof fn lemma_join_url_trimmed(base: Seq<char>, rel: Seq<char>)
    requires
        !ends_with_sep(trim_trailing_sep(base)),
        !starts_with_sep(trim_leading_sep(rel)),
    ensures
        spec_join_url(trim_trailing_sep(base), trim_leading_sep(rel)) == spec_join_url(base, rel),
{
}

/// The index at which the last segment of `s` begins: just behind the last
/// separator, or 0 where there is none.
pub open spec fn last_segment_start(s: Seq<char>) -> int
    decreases s.len(),
{
    if s.len() == 0 {
        0
    } else if s.last() == '/' {
        s.len() as int
    } else {
        last_segment_start(s.drop_last())
    }
}

/// What follows the last separator of `s`: all of `s` where it has none.
pub open spec fn last_segment(s: Seq<char>) -> Seq<char> {
    s.subrange(last_segment_start(s), s.len() as int)
}

/// `s` ends in `.git`.
pub open spec fn has_git_suffix(s: Seq<char>) -> bool {
    &&& s.len() >= 4
    &&& s[s.len() - 4] == '.'
    &&& s[s.len() - 3] == 'g'
    &&& s[s.len() - 2] == 'i'
    &&& s[s.len() - 1] == 't'
}

/// `s` without a trailing `.git`.
pub open spec fn strip_git_suffix(s: Seq<char>) -> Seq<char> {
    if has_git_suffix(s) {
        s.subrange(0, s.len() - 4)
    } else {
        s
    }
}

/// The directory name that a repository URL gives: its last path segment,
/// looking past one trailing separator, without a trailing `.git`.
pub open spec fn spec_clone_dir_name(url: Seq<char>) -> Seq<char> {
    strip_git_suffix(last_segment(trim_trailing_sep(url)))
}

/// The last segment begins at `k` when no separator follows `k` and one
/// stands just before it, or `k` is the start.
pub proof fn lemma_last_segment_start(s: Seq<char>, k: int)
    requires
        0 <= k <= s.len(),
        k == 0 || s[k - 1] == '/',
        forall|j: int| k <= j < s.len() ==> s[j] != '/',
    ensures
        last_segment_start(s) == k,
    decreases s.len(),
{
    if s.len() > k {
        lemma_last_segment_start(s.drop_last(), k);
    }
}

/// The last segment holds no separator, and is all of `s` or what follows a
/// separator.
pub proof fn lemma_last_segment_bounds(s: Seq<char>)
    ensures
        0 <= last_segment_start(s) <= s.len(),
        last_segment_start(s) == 0 || s[last_segment_start(s) - 1] == '/',
        forall|j: int| last_segment_start(s) <= j < s.len() ==> #[trigger] s[j] != '/',
        forall|j: int| 0 <= j < last_segment(s).len() ==> #[trigger] last_segment(s)[j] != '/',
    decreases s.len(),
{
    if s.len() > 0 && s.last() != '/' {
        let t = s.drop_last();
        lemma_last_segment_bounds(t);
        assert forall|j: int| last_segment_start(s) <= j < s.len() implies #[trigger] s[j]
            != '/' by {
            if j < t.len() {
                assert(t[j] != '/');
            }
        }
    }
}

/// A directory name is a single path segment: it holds no separator.
pub proof fn lemma_clone_dir_name_is_one_segment(url: Seq<char>)
    ensures
        forall|j: int|
            0 <= j < spec_clone_dir_name(url).len() ==> #[trigger] spec_clone_dir_name(url)[j]
                != '/',
{
    let segment = last_segment(trim_trailing_sep(url));
    lemma_last_segment_bounds(trim_trailing_sep(url));
    assert forall|j: int| 0 <= j < spec_clone_dir_name(url).len() implies #[trigger]
        spec_clone_dir_name(url)[j] != '/' by {
        assert(spec_clone_dir_name(url)[j] == segment[j]);
    }
}

/// A URL that is empty or made of separators alone names no directory.
pub proof fn lemma_separators_name_nothing(url: Seq<char>)
    requires
        forall|j: int| 0 <= j < url.len() ==> url[j] == '/',
    ensures
        spec_clone_dir_name(url).len() == 0,
{
    let t = trim_trailing_sep(url);
    lemma_last_segment_bounds(t);
    if last_segment_start(t) < t.len() {
        assert(t[last_segment_start(t)] == url[last_segment_start(t)]);
    }
}

/// Derives the name of the directory that a repository is cloned into.
///
/// Fails exactly when that name would be empty.
pub fn clone_dir_name(url: &str) -> (r: Result<String, ResolveError>)
    ensures
        r is Err <==> spec_clone_dir_name(url@).len() == 0,
        match r {
            Ok(name) => name@ == spec_clone_dir_name(url@),
            Err(e) => e@ == (ResolveErrorView::NoPathSegment { url: url@ }),
        },
{
    let n: usize = url.unicode_len();
    let end: usize = if n > 0 && url.get_char(n - 1) == '/' {
        n - 1
    } else {
        n
    };
    let ghost trimmed = url@.subrange(0, end as int);
    assert(trimmed =~= trim_trailing_sep(url@));
    let mut k: usize = end;
    while k > 0 && url.get_char(k - 1) != '/'
        invariant
            k <= end <= n,
            n == url@.len(),
            forall|j: int| k <= j < end ==> url@[j] != '/',
        decreases k,
    {
        k -= 1;
    }
    proof {
        lemma_last_segment_start(trimmed, k as int);
    }
    let ghost segment = last_segment(trimmed);
    assert(segment =~= url@.subrange(k as int, end as int));
    let mut stop: usize = end;
    if end - k >= 4 && url.get_char(end - 4) == '.' && url.get_char(end - 3) == 'g' && url.get_char(
        end - 2,
    ) == 'i' && url.get_char(end - 1) == 't' {
        stop = end - 4;
    }
    assert(url@.subrange(k as int, stop as int) =~= strip_git_suffix(segment));
    if stop == k {
        Err(ResolveError::NoPathSegment { url: String::from_str(url) })
    } else {
        Ok(String::from_str(url.substring_char(k, stop)))
    }
}

/// A project's source, resolved to paths on disk.
#[derive(Debug, Clone, PartialEq, Eq)]
pub struct ResolvedSource {
    /// The repository to clone or refresh; `None` for a local project.
    pub url: Option<String>,
    /// The directory that holds the source.
    pub source_dir: String,
    /// The project's build description.
    pub build_file: String,
}

pub struct ResolvedSourceView {
    pub url: Option<Seq<char>>,
    pub source_dir: Seq<char>,
    pub build_file: Seq<char>,
}

impl View for ResolvedSource {
    type V = ResolvedSourceView;

    open spec fn view(&self) -> ResolvedSourceView {
        ResolvedSourceView {
            url: opt_chars(self.url),
            source_dir: self.source_dir@,
            build_file: self.build_file@,
        }
    }
}

/// The repository that a reference names: none for a local path, and an
/// error for a relative reference without a base.
pub open spec fn spec_source_url(p: ProjectInfoView, git_base: Option<Seq<char>>) -> Result<
    Option<Seq<char>>,
    ResolveErrorView,
> {
    match p {
        ProjectInfoView::GitRel { git_rel, .. } => match git_base {
            Some(base) => Ok(Some(spec_join_url(base, git_rel))),
            None => Err(ResolveErrorView::MissingGitBase { git_rel }),
        },
        ProjectInfoView::GitUrl { git_url, .. } => Ok(Some(git_url)),
        ProjectInfoView::LocalPath { .. } => Ok(None),
    }
}

/// Where a reference resolves to. A local project stays where it is; a
/// repository goes to a directory of its own under `temp_dir`, and its build
/// description is looked for beneath that directory.
pub open spec fn spec_resolve(
    p: ProjectInfoView,
    git_base: Option<Seq<char>>,
    temp_dir: Seq<char>,
) -> Result<ResolvedSourceView, ResolveErrorView> {
    match spec_source_url(p, git_base) {
        Err(e) => Err(e),
        Ok(None) => Ok(
            ResolvedSourceView { url: None, source_dir: seq!['.'], build_file: p.build_file() },
        ),
        Ok(Some(url)) => if spec_clone_dir_name(url).len() == 0 {
            Err(ResolveErrorView::NoPathSegment { url })
        } else {
            let dir = spec_join_path(temp_dir, spec_clone_dir_name(url));
            Ok(
                ResolvedSourceView {
                    url: Some(url),
                    source_dir: dir,
                    build_file: spec_join_path(dir, p.build_file()),
                },
            )
        },
    }
}

/// The repository URL of a reference.
pub fn source_url(project: &ProjectInfo, git_base: &Option<String>) -> (r: Result<
    Option<String>,
    ResolveError,
>)
    ensures
        match r {
            Ok(u) => spec_source_url(project@, opt_chars(*git_base)) == Ok::<
                Option<Seq<char>>,
                ResolveErrorView,
            >(opt_chars(u)),
            Err(e) => spec_source_url(project@, opt_chars(*git_base)) == Err::<
                Option<Seq<char>>,
                ResolveErrorView,
            >(e@),
        },
{
    match project {
        ProjectInfo::GitRel { git_rel, .. } => match git_base {
            Some(base) => Ok(Some(join_url(base.as_str(), git_rel.as_str()))),
            None => Err(ResolveError::MissingGitBase { git_rel: git_rel.clone() }),
        },
        ProjectInfo::GitUrl { git_url, .. } => Ok(Some(git_url.clone())),
        ProjectInfo::LocalPath { .. } => Ok(None),
    }
}

/// Resolves a reference to its source directory and build description,
/// without touching the disk or the network.
pub fn resolve_source(project: &ProjectInfo, git_base: &Option<String>, temp_dir: &str) -> (r:
    Result<ResolvedSource, ResolveError>)
    ensures
        match r {
            Ok(s) => spec_resolve(project@, opt_chars(*git_base), temp_dir@) == Ok::<
                ResolvedSourceView,
                ResolveErrorView,
            >(s@),
            Err(e) => spec_resolve(project@, opt_chars(*git_base), temp_dir@) == Err::<
                ResolvedSourceView,
                ResolveErrorView,
            >(e@),
        },
{
    match source_url(project, git_base) {
        Err(e) => Err(e),
        Ok(None) => {
            proof {
                reveal_strlit(".");
                assert("."@ =~= seq!['.']);
            }
            Ok(
                ResolvedSource {
                    url: None,
                    source_dir: String::from_str("."),
                    build_file: project.build_file().clone(),
                },
            )
        },
        Ok(Some(url)) => match clone_dir_name(url.as_str()) {
            Err(e) => Err(e),
            Ok(name) => {
                let dir = join_path(temp_dir, name.as_str());
                let build_file = join_path(dir.as_str(), project.build_file().as_str());
                Ok(ResolvedSource { url: Some(url), source_dir: dir, build_file })
            },
        },
    }
}

} // verus!
