//! The build of a collection: its projects in order, each resolved to a
//! source directory, brought up to date, and built.
//!
//! A [`CollectionRun`] decides and its caller acts, as with a single build.
//! It exists only for a valid collection, so no action is ever named for one
//! that is not.

use vstd::prelude::*;
use vstd::string::*;
use crate::command::{spec_git_clone, spec_git_fetch, spec_git_reset, Command, CommandView};
use crate::config::{Collection, CollectionView, ConfigError, ConfigErrorView};
use crate::resolve::{
    join_path, resolve_source, spec_join_path, spec_resolve, ResolveError, ResolveErrorView,
    ResolvedSource, ResolvedSourceView,
};

verus! {

/// The repositories that were brought up to date during this run.
#[derive(Debug, Clone, PartialEq, Eq)]
pub struct SeenUrls {
    pub urls: Vec<String>,
}

impl View for SeenUrls {
    type V = Set<Seq<char>>;

    open spec fn view(&self) -> Set<Seq<char>> {
        Set::new(|u: Seq<char>| exists|i: int| 0 <= i < self.urls@.len() && self.urls@[i]@ == u)
    }
}

impl SeenUrls {
    /// No repository is recorded twice.
    pub open spec fn wf(&self) -> bool {
        forall|i: int, j: int|
            0 <= i < j < self.urls@.len() ==> (#[trigger] self.urls@[i])@ != (
            #[trigger] self.urls@[j])@
    }

    /// No repository yet.
    pub fn new() -> (seen: SeenUrls)
        ensures
            seen@ == Set::<Seq<char>>::empty(),
            seen.wf(),
    {
        let seen = SeenUrls { urls: Vec::new() };
        assert(seen@ =~= Set::<Seq<char>>::empty());
        seen
    }

    /// Whether `url` was seen.
    pub fn contains(&self, url: &str) -> (b: bool)
        ensures
            b == self@.contains(url@),
    {
        let wanted = String::from_str(url);
        let n: usize = self.urls.len();
        let mut i: usize = 0;
        while i < n
            invariant
                i <= n,
                n == self.urls@.len(),
                wanted@ == url@,
                forall|j: int| 0 <= j < i ==> (#[trigger] self.urls@[j])@ != url@,
            decreases n - i,
        {
            if self.urls[i] == wanted {
                return true;
            }
            i += 1;
        }
        false
    }

    /// Records `url` as seen.
    pub fn insert(&mut self, url: String)
        requires
            old(self).wf(),
        ensures
            final(self).wf(),
            final(self)@ == old(self)@.insert(url@),
    {
        if !self.contains(url.as_str()) {
            self.urls.push(url);
            assert forall|u: Seq<char>| final(self)@.contains(u) == old(self)@.insert(
                url@,
            ).contains(u) by {
                if old(self)@.contains(u) {
                    let i = choose|i: int| 0 <= i < old(self).urls@.len() && old(self).urls@[i]@ == u;
                    assert(final(self).urls@[i]@ == u);
                }
                if u == url@ {
                    assert(final(self).urls@[old(self).urls@.len() as int]@ == u);
                }
            }
        }
        assert(final(self)@ =~= old(self)@.insert(url@));
    }
}

/// The step that a collection's build is at. A number is the index of the
/// project that the step belongs to.
#[derive(Debug, Clone, Copy, PartialEq, Eq, Structural)]
pub enum CollectionStage {
    /// The output directory is to be created.
    PrepareOutput,
    /// The working directory is to be created.
    PrepareTemp,
    /// The caller is asked whether the project's clone directory exists.
    Probe(usize),
    /// The project's repository is to be cloned.
    Clone(usize),
    /// The project's clone is to fetch the remote head.
    Fetch(usize),
    /// The project's clone is to be reset to the fetched head.
    Reset(usize),
    /// The project is to be built.
    Build(usize),
    /// Nothing is left to do.
    Done,
}

/// Why the build of a collection was given up.
#[derive(Debug, Clone, PartialEq, Eq)]
pub enum CollectionError {
    /// A project's source could not be resolved or brought up to date.
    Resolve(ResolveError),
    /// The output or the working directory could not be created.
    Directory,
    /// The build of the project with this index failed.
    Build { index: usize },
}

pub enum CollectionErrorView {
    Resolve(ResolveErrorView),
    Directory,
    Build { index: usize },
}

impl View for CollectionError {
    type V = CollectionErrorView;

    open spec fn view(&self) -> CollectionErrorView {
        match *self {
            CollectionError::Resolve(e) => CollectionErrorView::Resolve(e@),
            CollectionError::Directory => CollectionErrorView::Directory,
            CollectionError::Build { index } => CollectionErrorView::Build { index },
        }
    }
}

impl CollectionError {
    /// A copy of the error.
    pub fn duplicate(&self) -> (e: CollectionError)
        ensures
            e@ == self@,
    {
        match self {
            CollectionError::Resolve(e) => CollectionError::Resolve(e.duplicate()),
            CollectionError::Directory => CollectionError::Directory,
            CollectionError::Build { index } => CollectionError::Build { index: *index },
        }
    }

    /// The human-readable text of the error.
    pub fn message(&self) -> (s: String)
        ensures
            s@ == match self@ {
                CollectionErrorView::Resolve(e) => e.message(),
                CollectionErrorView::Directory => "Failed to create a directory"@,
                CollectionErrorView::Build { .. } => "Failed to build a project"@,
            },
    {
        match self {
            CollectionError::Resolve(e) => e.message(),
            CollectionError::Directory => String::from_str("Failed to create a directory"),
            CollectionError::Build { .. } => String::from_str("Failed to build a project"),
        }
    }
}

/// The characters of an optional error.
pub open spec fn opt_error(e: Option<CollectionError>) -> Option<CollectionErrorView> {
    match e {
        Some(e) => Some(e@),
        None => None,
    }
}

/// What a collection's build asks its caller to do next.
#[derive(Debug, PartialEq, Eq)]
pub enum CollectionAction {
    /// Create this directory, and its parents, unless it exists.
    CreateDir(String),
    /// Report whether this path is an existing directory.
    Probe(String),
    /// Run this command, wait for it, and report whether it succeeded.
    Run(Command),
    /// Build the project described by `build_file` into `out_path`, and
    /// report whether the build succeeded.
    Build { build_file: String, out_path: String },
    /// Stop: the run has ended, with this error if it failed.
    Finish(Option<CollectionError>),
}

pub enum CollectionActionView {
    CreateDir(Seq<char>),
    Probe(Seq<char>),
    Run(CommandView),
    Build { build_file: Seq<char>, out_path: Seq<char> },
    Finish(Option<CollectionErrorView>),
}

impl View for CollectionAction {
    type V = CollectionActionView;

    open spec fn view(&self) -> CollectionActionView {
        match *self {
            CollectionAction::CreateDir(d) => CollectionActionView::CreateDir(d@),
            CollectionAction::Probe(d) => CollectionActionView::Probe(d@),
            CollectionAction::Run(c) => CollectionActionView::Run(c@),
            CollectionAction::Build { build_file, out_path } => CollectionActionView::Build {
                build_file: build_file@,
                out_path: out_path@,
            },
            CollectionAction::Finish(e) => CollectionActionView::Finish(opt_error(e)),
        }
    }
}

/// What a run is given and never changes.
pub struct CollectionPlan {
    pub collection: CollectionView,
    pub out_path: Seq<char>,
    pub temp_dir: Seq<char>,
}

/// What changes during a run.
pub struct CollectionState {
    pub stage: CollectionStage,
    pub seen: Set<Seq<char>>,
    pub error: Option<CollectionErrorView>,
}

impl CollectionPlan {
    /// Where project `i` resolves to.
    pub open spec fn source(self, i: int) -> Result<ResolvedSourceView, ResolveErrorView> {
        spec_resolve(self.collection.projects[i], self.collection.git_base, self.temp_dir)
    }

    /// Project `i` comes from a repository, and its directory can be named.
    pub open spec fn has_repository(self, i: int) -> bool {
        &&& 0 <= i < self.collection.projects.len()
        &&& self.source(i) is Ok
        &&& self.source(i)->Ok_0.url is Some
    }

    /// The repository of project `i`.
    pub open spec fn url(self, i: int) -> Seq<char> {
        self.source(i)->Ok_0.url->Some_0
    }

    /// The state in which work on project `i` begins, or in which the run
    /// ends where no project `i` is left. A project whose source cannot be
    /// resolved ends the run. A local project is built at once, and so is
    /// one whose repository was already brought up to date in this run.
    pub open spec fn enter(self, seen: Set<Seq<char>>, i: int) -> CollectionState {
        if i >= self.collection.projects.len() {
            CollectionState { stage: CollectionStage::Done, seen, error: None }
        } else {
            match self.source(i) {
                Err(e) => CollectionState {
                    stage: CollectionStage::Done,
                    seen,
                    error: Some(CollectionErrorView::Resolve(e)),
                },
                Ok(src) => if src.url is Some && !seen.contains(src.url->Some_0) {
                    CollectionState { stage: CollectionStage::Probe(i as usize), seen, error: None }
                } else {
                    CollectionState { stage: CollectionStage::Build(i as usize), seen, error: None }
                },
            }
        }
    }

    /// The state in which the run ends with `error`.
    pub open spec fn failed(self, s: CollectionState, error: CollectionErrorView)
        -> CollectionState {
        CollectionState { stage: CollectionStage::Done, seen: s.seen, error: Some(error) }
    }

    /// The state that follows `s` once its action has ended. For a probe,
    /// `ok` says that the directory exists; for everything else, that the
    /// action succeeded.
    pub open spec fn next(self, s: CollectionState, ok: bool) -> CollectionState {
        match s.stage {
            CollectionStage::PrepareOutput => if ok {
                CollectionState { stage: CollectionStage::PrepareTemp, seen: s.seen, error: s.error }
            } else {
                self.failed(s, CollectionErrorView::Directory)
            },
            CollectionStage::PrepareTemp => if ok {
                self.enter(s.seen, 0)
            } else {
                self.failed(s, CollectionErrorView::Directory)
            },
            CollectionStage::Probe(i) => if ok {
                CollectionState { stage: CollectionStage::Fetch(i), seen: s.seen, error: s.error }
            } else {
                CollectionState { stage: CollectionStage::Clone(i), seen: s.seen, error: s.error }
            },
            CollectionStage::Fetch(i) => if ok {
                CollectionState { stage: CollectionStage::Reset(i), seen: s.seen, error: s.error }
            } else {
                self.failed(
                    s,
                    CollectionErrorView::Resolve(
                        ResolveErrorView::GitFailed { url: self.url(i as int) },
                    ),
                )
            },
            CollectionStage::Clone(i) | CollectionStage::Reset(i) => if ok {
                CollectionState {
                    stage: CollectionStage::Build(i),
                    seen: s.seen.insert(self.url(i as int)),
                    error: s.error,
                }
            } else {
                self.failed(
                    s,
                    CollectionErrorView::Resolve(
                        ResolveErrorView::GitFailed { url: self.url(i as int) },
                    ),
                )
            },
            CollectionStage::Build(i) => if ok {
                self.enter(s.seen, i + 1)
            } else {
                self.failed(s, CollectionErrorView::Build { index: i })
            },
            CollectionStage::Done => s,
        }
    }

    /// The state after a series of actions, of which `oks` tells how each ended.
    pub open spec fn run(self, s: CollectionState, oks: Seq<bool>) -> CollectionState
        decreases oks.len(),
    {
        if oks.len() == 0 {
            s
        } else {
            self.run(self.next(s, oks[0]), oks.drop_first())
        }
    }

    /// The action of state `s`.
    pub open spec fn action(self, s: CollectionState) -> CollectionActionView {
        match s.stage {
            CollectionStage::PrepareOutput => CollectionActionView::CreateDir(self.out_path),
            CollectionStage::PrepareTemp => CollectionActionView::CreateDir(self.temp_dir),
            CollectionStage::Probe(i) => CollectionActionView::Probe(
                self.source(i as int)->Ok_0.source_dir,
            ),
            CollectionStage::Clone(i) => CollectionActionView::Run(
                spec_git_clone(self.url(i as int), self.source(i as int)->Ok_0.source_dir),
            ),
            CollectionStage::Fetch(i) => CollectionActionView::Run(
                spec_git_fetch(self.source(i as int)->Ok_0.source_dir),
            ),
            CollectionStage::Reset(i) => CollectionActionView::Run(
                spec_git_reset(self.source(i as int)->Ok_0.source_dir),
            ),
            CollectionStage::Build(i) => CollectionActionView::Build {
                build_file: self.source(i as int)->Ok_0.build_file,
                out_path: spec_join_path(
                    self.out_path,
                    self.collection.projects[i as int].out_path(),
                ),
            },
            CollectionStage::Done => CollectionActionView::Finish(s.error),
        }
    }

    /// `s` is a state that a run of this plan can be in: the project it
    /// works on exists and has resolved, with a repository where the step
    /// needs one, and only a finished run has an error.
    pub open spec fn admits(self, s: CollectionState) -> bool {
        &&& self.collection.valid()
        &&& self.collection.projects.len() <= usize::MAX
        &&& s.error is Some ==> s.stage == CollectionStage::Done
        &&& match s.stage {
            CollectionStage::Probe(i) | CollectionStage::Clone(i) | CollectionStage::Fetch(i)
            | CollectionStage::Reset(i) => self.has_repository(i as int),
            CollectionStage::Build(i) => i < self.collection.projects.len() && self.source(
                i as int,
            ) is Ok,
            _ => true,
        }
    }
}

/// A collection's build in progress.
#[derive(Debug)]
pub struct CollectionRun {
    pub collection: Collection,
    /// The directory under which each project gets its output directory.
    pub out_path: String,
    /// The directory under which repositories are cloned.
    pub temp_dir: String,
    pub seen: SeenUrls,
    pub stage: CollectionStage,
    pub error: Option<CollectionError>,
}

impl CollectionRun {
    pub open spec fn plan(&self) -> CollectionPlan {
        CollectionPlan {
            collection: self.collection@,
            out_path: self.out_path@,
            temp_dir: self.temp_dir@,
        }
    }

    pub open spec fn state(&self) -> CollectionState {
        CollectionState { stage: self.stage, seen: self.seen@, error: opt_error(self.error) }
    }

    /// The run is in a state that its plan admits, and has recorded no
    /// repository twice.
    pub open spec fn wf(&self) -> bool {
        self.plan().admits(self.state()) && self.seen.wf()
    }

    /// Begins the build of `collection`, which is validated first: there is
    /// a run exactly when the collection is valid.
    pub fn new(collection: Collection, out_path: String, temp_dir: String) -> (r: Result<
        CollectionRun,
        ConfigError,
    >)
        ensures
            r is Ok <==> collection@.valid(),
            match r {
                Ok(run) => {
                    &&& run.wf()
                    &&& run.collection == collection
                    &&& run.out_path == out_path
                    &&& run.temp_dir == temp_dir
                    &&& run.state() == (CollectionState {
                        stage: CollectionStage::PrepareOutput,
                        seen: Set::<Seq<char>>::empty(),
                        error: None,
                    })
                },
                Err(e) => exists|i: int| #[trigger]
                    collection@.offends_at(i) && e@ == (ConfigErrorView::MissingGitBase {
                        git_rel: collection@.projects[i]->GitRel_git_rel,
                    }),
            },
    {
        let count: usize = collection.projects.len();
        assert(collection@.projects.len() == count);
        match collection.validate() {
            Err(e) => Err(e),
            Ok(_) => Ok(
                CollectionRun {
                    collection,
                    out_path,
                    temp_dir,
                    seen: SeenUrls::new(),
                    stage: CollectionStage::PrepareOutput,
                    error: None,
                },
            ),
        }
    }

    /// Resolves project `i`.
    fn source(&self, i: usize) -> (r: Result<ResolvedSource, ResolveError>)
        requires
            i < self.collection.projects@.len(),
        ensures
            match r {
                Ok(s) => self.plan().source(i as int) == Ok::<ResolvedSourceView, ResolveErrorView>(
                    s@,
                ),
                Err(e) => self.plan().source(i as int) == Err::<
                    ResolvedSourceView,
                    ResolveErrorView,
                >(e@),
            },
    {
        resolve_source(&self.collection.projects[i], &self.collection.git_base, self.temp_dir.as_str())
    }

    /// Moves on to project `i`, or ends the run where there is none.
    fn enter(&mut self, i: usize)
        requires
            old(self).plan().collection.valid(),
            old(self).seen.wf(),
            i <= old(self).collection.projects@.len(),
            old(self).error is None,
        ensures
            final(self).state() == old(self).plan().enter(old(self).seen@, i as int),
            final(self).wf(),
            final(self).collection == old(self).collection,
            final(self).out_path == old(self).out_path,
            final(self).temp_dir == old(self).temp_dir,
    {
        if i >= self.collection.projects.len() {
            self.stage = CollectionStage::Done;
        } else {
            match self.source(i) {
                Err(e) => {
                    self.stage = CollectionStage::Done;
                    self.error = Some(CollectionError::Resolve(e));
                },
                Ok(src) => {
                    let fresh = match &src.url {
                        Some(u) => !self.seen.contains(u.as_str()),
                        None => false,
                    };
                    if fresh {
                        self.stage = CollectionStage::Probe(i);
                    } else {
                        self.stage = CollectionStage::Build(i);
                    }
                },
            }
        }
    }

    /// Ends the run with `error`.
    fn fail(&mut self, error: CollectionError)
        requires
            old(self).plan().collection.valid(),
            old(self).seen.wf(),
            old(self).collection.projects@.len() <= usize::MAX,
        ensures
            final(self).state() == old(self).plan().failed(old(self).state(), error@),
            final(self).wf(),
            final(self).collection == old(self).collection,
            final(self).out_path == old(self).out_path,
            final(self).temp_dir == old(self).temp_dir,
    {
        self.stage = CollectionStage::Done;
        self.error = Some(error);
    }

    /// The action to perform next.
    pub fn action(&self) -> (a: CollectionAction)
        requires
            self.wf(),
        ensures
            a@ == self.plan().action(self.state()),
    {
        // A well-formed run works on a project that has resolved: the arms
        // below that find no source are never taken.
        match self.stage {
            CollectionStage::PrepareOutput => CollectionAction::CreateDir(self.out_path.clone()),
            CollectionStage::PrepareTemp => CollectionAction::CreateDir(self.temp_dir.clone()),
            CollectionStage::Probe(i) => match self.source(i) {
                Ok(src) => CollectionAction::Probe(src.source_dir),
                Err(_) => CollectionAction::Finish(None),
            },
            CollectionStage::Clone(i) => match self.source(i) {
                Ok(ResolvedSource { url: Some(url), source_dir, .. }) => CollectionAction::Run(
                    Command::git_clone(url.as_str(), source_dir.as_str()),
                ),
                _ => CollectionAction::Finish(None),
            },
            CollectionStage::Fetch(i) => match self.source(i) {
                Ok(src) => CollectionAction::Run(Command::git_fetch(src.source_dir.as_str())),
                Err(_) => CollectionAction::Finish(None),
            },
            CollectionStage::Reset(i) => match self.source(i) {
                Ok(src) => CollectionAction::Run(Command::git_reset(src.source_dir.as_str())),
                Err(_) => CollectionAction::Finish(None),
            },
            CollectionStage::Build(i) => match self.source(i) {
                Ok(src) => {
                    let out_path = join_path(
                        self.out_path.as_str(),
                        self.collection.projects[i].out_path().as_str(),
                    );
                    CollectionAction::Build { build_file: src.build_file, out_path }
                },
                Err(_) => CollectionAction::Finish(None),
            },
            CollectionStage::Done => CollectionAction::Finish(
                match &self.error {
                    Some(e) => Some(e.duplicate()),
                    None => None,
                },
            ),
        }
    }

    /// Takes in how the current action ended and moves to the next state.
    ///
    /// For a probe, `ok` says that the directory exists; for everything
    /// else, that the action succeeded.
    pub fn advance(&mut self, ok: bool)
        requires
            old(self).wf(),
        ensures
            final(self).wf(),
            final(self).state() == old(self).plan().next(old(self).state(), ok),
            final(self).collection == old(self).collection,
            final(self).out_path == old(self).out_path,
            final(self).temp_dir == old(self).temp_dir,
    {
        // A git step belongs to a project with a repository: the arms below
        // that find none are never taken.
        match self.stage {
            CollectionStage::PrepareOutput => {
                if ok {
                    self.stage = CollectionStage::PrepareTemp;
                } else {
                    self.fail(CollectionError::Directory);
                }
            },
            CollectionStage::PrepareTemp => {
                if ok {
                    self.enter(0);
                } else {
                    self.fail(CollectionError::Directory);
                }
            },
            CollectionStage::Probe(i) => {
                if ok {
                    self.stage = CollectionStage::Fetch(i);
                } else {
                    self.stage = CollectionStage::Clone(i);
                }
            },
            CollectionStage::Fetch(i) => {
                if ok {
                    self.stage = CollectionStage::Reset(i);
                } else {
                    match self.source(i) {
                        Ok(ResolvedSource { url: Some(url), .. }) => {
                            self.fail(CollectionError::Resolve(ResolveError::GitFailed { url }));
                        },
                        _ => {},
                    }
                }
            },
            CollectionStage::Clone(i) | CollectionStage::Reset(i) => {
                match self.source(i) {
                    Ok(ResolvedSource { url: Some(url), .. }) => {
                        if ok {
                            self.seen.insert(url);
                            self.stage = CollectionStage::Build(i);
                        } else {
                            self.fail(CollectionError::Resolve(ResolveError::GitFailed { url }));
                        }
                    },
                    _ => {},
                }
            },
            CollectionStage::Build(i) => {
                if ok {
                    self.enter(i + 1);
                } else {
                    self.fail(CollectionError::Build { index: i });
                }
            },
            CollectionStage::Done => {},
        }
    }

    /// Whether the run has ended.
    pub fn is_done(&self) -> (b: bool)
        ensures
            b == (self.stage == CollectionStage::Done),
    {
        match self.stage {
            CollectionStage::Done => true,
            _ => false,
        }
    }
}

/// A finished run stays finished, with the result it had.
pub proof fn lemma_done_is_final(plan: CollectionPlan, s: CollectionState, oks: Seq<bool>)
    requires
        s.stage == CollectionStage::Done,
    ensures
        plan.run(s, oks) == s,
    decreases oks.len(),
{
    if oks.len() > 0 {
        lemma_done_is_final(plan, s, oks.drop_first());
    }
}

/// A project whose build fails ends the run with that project's error:
/// whatever is reported afterwards, no later project is begun and the only
/// action left is to stop.
pub proof fn lemma_build_failure_stops(
    plan: CollectionPlan,
    s: CollectionState,
    i: usize,
    oks: Seq<bool>,
)
    requires
        s.stage == CollectionStage::Build(i),
        oks.len() > 0,
        !oks[0],
    ensures
        plan.run(s, oks) == plan.failed(s, (CollectionErrorView::Build { index: i })),
        plan.action(plan.run(s, oks)) == CollectionActionView::Finish(
            Some((CollectionErrorView::Build { index: i })),
        ),
{
    lemma_done_is_final(plan, plan.next(s, false), oks.drop_first());
}

/// A git command that fails ends the run with an error that names the
/// repository.
pub proof fn lemma_git_failure_stops(
    plan: CollectionPlan,
    s: CollectionState,
    i: usize,
    oks: Seq<bool>,
)
    requires
        s.stage == CollectionStage::Clone(i) || s.stage == CollectionStage::Fetch(i) || s.stage
            == CollectionStage::Reset(i),
        oks.len() > 0,
        !oks[0],
    ensures
        plan.run(s, oks) == plan.failed(
            s,
            CollectionErrorView::Resolve((ResolveErrorView::GitFailed { url: plan.url(i as int) })),
        ),
{
    lemma_done_is_final(plan, plan.next(s, false), oks.drop_first());
}

/// The projects are taken in order: when the build of project `i` has
/// succeeded the run turns to project `i + 1`, or ends where `i` was the
/// last or the next source cannot be resolved.
pub proof fn lemma_projects_in_order(plan: CollectionPlan, s: CollectionState, i: usize)
    requires
        plan.admits(s),
        s.stage == CollectionStage::Build(i),
    ensures
        ({
            let stage = plan.next(s, true).stage;
            let last = i + 1 == plan.collection.projects.len();
            &&& last ==> stage == CollectionStage::Done && plan.next(s, true).error is None
            &&& !last ==> stage == CollectionStage::Done || stage == CollectionStage::Probe(
                (i + 1) as usize,
            ) || stage == CollectionStage::Build((i + 1) as usize)
        }),
        plan.admits(plan.next(s, true)),
{
}

/// No step forgets a repository that was brought up to date.
pub proof fn lemma_seen_grows(plan: CollectionPlan, s: CollectionState, oks: Seq<bool>)
    ensures
        s.seen.subset_of(plan.run(s, oks).seen),
    decreases oks.len(),
{
    if oks.len() > 0 {
        lemma_seen_grows(plan, plan.next(s, oks[0]), oks.drop_first());
    }
}

/// A repository is cloned at most once in a run. A directory that exists
/// is refreshed instead of cloned; and once the clone or the refresh of
/// project `i` has succeeded, a later project `j` with the same repository
/// is built from that directory without another git command, whatever
/// happened in between.
pub proof fn lemma_repository_fetched_once(
    plan: CollectionPlan,
    s: CollectionState,
    i: usize,
    between: Seq<bool>,
    j: int,
)
    requires
        s.stage == CollectionStage::Clone(i) || s.stage == CollectionStage::Reset(i),
        plan.has_repository(i as int),
        plan.has_repository(j),
        j <= usize::MAX,
        plan.url(j) == plan.url(i as int),
    ensures
        plan.next((CollectionState { stage: CollectionStage::Probe(i), ..s }), true).stage
            == CollectionStage::Fetch(i),
        plan.next(s, true).seen.contains(plan.url(i as int)),
        plan.enter(plan.run(plan.next(s, true), between).seen, j).stage == CollectionStage::Build(
            j as usize,
        ),
{
    lemma_seen_grows(plan, plan.next(s, true), between);
}

} // verus!
