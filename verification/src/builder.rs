//! The build of one project, as a sequence of decisions: prepare the output
//! directory, build the image, create a container, copy each export out of
//! it, and remove it again.
//!
//! A [`BuildRun`] never runs anything. It names the next action, is told how
//! that action ended, and moves on.

use vstd::prelude::*;
use vstd::string::*;
use crate::command::{
    spec_docker_build, spec_docker_copy, spec_docker_create, spec_docker_remove, Command,
    CommandView,
};
use crate::config::{ConfigError, ConfigErrorView, Project, ProjectView};
use crate::document::{parse_project, spec_project, toml_document};
use crate::resolve::{join_path, last_segment_start, lemma_last_segment_start, spec_join_path};

verus! {

/// The step that a build is at.
#[derive(Debug, Clone, Copy, PartialEq, Eq, Structural)]
pub enum BuildStage {
    /// The output directory is to be created.
    PrepareOutput,
    /// The image is to be built.
    BuildImage,
    /// A container is to be created from the image.
    CreateContainer,
    /// The export with this index is to be copied out.
    Extract(usize),
    /// The container is to be removed.
    Teardown,
    /// Nothing is left to do.
    Done,
}

/// Why a build was given up.
#[derive(Debug, Clone, Copy, PartialEq, Eq, Structural)]
pub enum BuildError {
    /// The output directory could not be created.
    OutputDir,
    /// The image build did not succeed.
    ImageBuild,
    /// No container could be created from the image.
    ContainerCreate,
}

/// A failure that is reported and does not end the build.
#[derive(Debug, Clone, Copy, PartialEq, Eq, Structural)]
pub enum Warning {
    /// The export with this index could not be copied.
    ExportFailed(usize),
    /// The container could not be removed.
    TeardownFailed,
}

/// Where a build stands: its step, and the error it ended with, if any.
#[derive(Debug, Clone, Copy, PartialEq, Eq, Structural)]
pub struct BuildState {
    pub stage: BuildStage,
    pub error: Option<BuildError>,
}

/// The state that follows `state` once its action has ended, successfully or
/// not, in a build with `exports` exports.
///
/// A failure before the container exists ends the build with an error. From
/// then on nothing does: every export is tried, then the container is
/// removed, whatever came of the steps before.
pub open spec fn spec_next(state: BuildState, exports: nat, ok: bool) -> BuildState {
    match state.stage {
        BuildStage::PrepareOutput => if ok {
            BuildState { stage: BuildStage::BuildImage, error: state.error }
        } else {
            BuildState { stage: BuildStage::Done, error: Some(BuildError::OutputDir) }
        },
        BuildStage::BuildImage => if ok {
            BuildState { stage: BuildStage::CreateContainer, error: state.error }
        } else {
            BuildState { stage: BuildStage::Done, error: Some(BuildError::ImageBuild) }
        },
        BuildStage::CreateContainer => if !ok {
            BuildState { stage: BuildStage::Done, error: Some(BuildError::ContainerCreate) }
        } else if exports > 0 {
            BuildState { stage: BuildStage::Extract(0), error: state.error }
        } else {
            BuildState { stage: BuildStage::Teardown, error: state.error }
        },
        BuildStage::Extract(i) => if i + 1 < exports {
            BuildState { stage: BuildStage::Extract((i + 1) as usize), error: state.error }
        } else {
            BuildState { stage: BuildStage::Teardown, error: state.error }
        },
        BuildStage::Teardown => BuildState { stage: BuildStage::Done, error: state.error },
        BuildStage::Done => state,
    }
}

/// What is reported when the action of `stage` has ended.
pub open spec fn spec_warning(stage: BuildStage, ok: bool) -> Option<Warning> {
    match stage {
        BuildStage::Extract(i) => if ok {
            None
        } else {
            Some(Warning::ExportFailed(i))
        },
        BuildStage::Teardown => if ok {
            None
        } else {
            Some(Warning::TeardownFailed)
        },
        _ => None,
    }
}

/// The state after a series of actions, of which `oks` tells how each ended.
pub open spec fn spec_run(state: BuildState, exports: nat, oks: Seq<bool>) -> BuildState
    decreases oks.len(),
{
    if oks.len() == 0 {
        state
    } else {
        spec_run(spec_next(state, exports, oks[0]), exports, oks.drop_first())
    }
}

/// The state in which every build begins.
pub open spec fn spec_initial() -> BuildState {
    BuildState { stage: BuildStage::PrepareOutput, error: None }
}

/// The directory that holds `path`: what stands before its last separator,
/// and nothing where it has none.
pub open spec fn spec_parent_dir(path: Seq<char>) -> Seq<char> {
    if last_segment_start(path) == 0 {
        Seq::<char>::empty()
    } else {
        path.subrange(0, last_segment_start(path) - 1)
    }
}

/// The directory that holds `path`, as the root of the build context.
pub fn parent_dir(path: &str) -> (dir: String)
    ensures
        dir@ == spec_parent_dir(path@),
{
    let n: usize = path.unicode_len();
    let mut k: usize = n;
    while k > 0 && path.get_char(k - 1) != '/'
        invariant
            k <= n,
            n == path@.len(),
            forall|j: int| k <= j < n ==> path@[j] != '/',
        decreases k,
    {
        k -= 1;
    }
    proof {
        lemma_last_segment_start(path@, k as int);
    }
    if k == 0 {
        String::new()
    } else {
        String::from_str(path.substring_char(0, k - 1))
    }
}

/// What `str::trim` makes of a text.
pub uninterp spec fn spec_trimmed(text: Seq<char>) -> Seq<char>;

/// Calls `str::trim`, which returns the text without the white space at its
/// two ends, and copies the result. Claimed: the result depends on the text
/// alone.
#[verifier::external_body]
fn trimmed(text: &str) -> (r: String)
    ensures
        r@ == spec_trimmed(text@),
{
    text.trim().to_string()
}

/// What a build asks its caller to do next.
#[derive(Debug, PartialEq, Eq)]
pub enum BuildAction {
    /// Create this directory, and its parents, unless it exists.
    CreateDir(String),
    /// Run this command and wait for it.
    Run(Command),
    /// Stop: the build has ended, with this result.
    Finish(Result<(), BuildError>),
}

pub enum BuildActionView {
    CreateDir(Seq<char>),
    Run(CommandView),
    Finish(Result<(), BuildError>),
}

impl View for BuildAction {
    type V = BuildActionView;

    open spec fn view(&self) -> BuildActionView {
        match *self {
            BuildAction::CreateDir(d) => BuildActionView::CreateDir(d@),
            BuildAction::Run(c) => BuildActionView::Run(c@),
            BuildAction::Finish(r) => BuildActionView::Finish(r),
        }
    }
}

/// One project's build in progress.
#[derive(Debug)]
pub struct BuildRun {
    /// The project's build description.
    pub project: Project,
    /// The path that the description was read from.
    pub config_file: String,
    /// The directory that takes the exports.
    pub out_path: String,
    /// The tag of the image that is built.
    pub image_name: String,
    /// The container that was created; empty before that.
    pub container_id: String,
    pub state: BuildState,
}

impl BuildRun {
    /// An export that is being copied exists, and only a finished build has
    /// an error.
    pub open spec fn wf(&self) -> bool {
        &&& self.state.stage matches BuildStage::Extract(i) ==> i < self.project.exports@.len()
        &&& self.state.error is Some ==> self.state.stage == BuildStage::Done
    }

    /// The action of the current state.
    pub open spec fn spec_action(&self) -> BuildActionView {
        match self.state.stage {
            BuildStage::PrepareOutput => BuildActionView::CreateDir(self.out_path@),
            BuildStage::BuildImage => BuildActionView::Run(
                spec_docker_build(
                    self.image_name@,
                    self.project.docker@,
                    spec_parent_dir(self.config_file@),
                ),
            ),
            BuildStage::CreateContainer => BuildActionView::Run(
                spec_docker_create(self.image_name@),
            ),
            BuildStage::Extract(i) => BuildActionView::Run(
                spec_docker_copy(
                    self.container_id@,
                    self.project.exports@[i as int].path@,
                    spec_join_path(self.out_path@, self.project.exports@[i as int].name@),
                ),
            ),
            BuildStage::Teardown => BuildActionView::Run(spec_docker_remove(self.container_id@)),
            BuildStage::Done => BuildActionView::Finish(
                match self.state.error {
                    Some(e) => Err(e),
                    None => Ok(()),
                },
            ),
        }
    }

    /// A build of `project`, which was read from `config_file`, before its
    /// first action.
    pub fn new(project: Project, config_file: String, out_path: String, image_name: String) -> (run:
        BuildRun)
        ensures
            run.wf(),
            run.state == spec_initial(),
            run.project == project,
            run.config_file == config_file,
            run.out_path == out_path,
            run.image_name == image_name,
            run.container_id@.len() == 0,
    {
        BuildRun {
            project,
            config_file,
            out_path,
            image_name,
            container_id: String::new(),
            state: BuildState { stage: BuildStage::PrepareOutput, error: None },
        }
    }

    /// Loads the build description from `text`, the content of `config_file`,
    /// and begins its build. A text that is no build description ends the
    /// build before its first action.
    pub fn load(text: &str, config_file: String, out_path: String, image_name: String) -> (r: Result<
        BuildRun,
        ConfigError,
    >)
        ensures
            match r {
                Ok(run) => {
                    &&& toml_document(text@) is Some
                    &&& spec_project(toml_document(text@)->Some_0) == Ok::<ProjectView, ConfigErrorView>(
                        run.project@,
                    )
                    &&& run.wf()
                    &&& run.state == spec_initial()
                    &&& run.config_file == config_file
                    &&& run.out_path == out_path
                    &&& run.image_name == image_name
                    &&& run.container_id@.len() == 0
                },
                Err(e) => match toml_document(text@) {
                    Some(doc) => spec_project(doc) == Err::<ProjectView, ConfigErrorView>(e@),
                    None => e@ is Syntax,
                },
            },
    {
        match parse_project(text) {
            Err(e) => Err(e),
            Ok(project) => Ok(BuildRun::new(project, config_file, out_path, image_name)),
        }
    }

    /// The action to perform next.
    pub fn action(&self) -> (a: BuildAction)
        requires
            self.wf(),
        ensures
            a@ == self.spec_action(),
    {
        match self.state.stage {
            BuildStage::PrepareOutput => BuildAction::CreateDir(self.out_path.clone()),
            BuildStage::BuildImage => {
                let context = parent_dir(self.config_file.as_str());
                BuildAction::Run(
                    Command::docker_build(
                        self.image_name.as_str(),
                        self.project.docker.as_str(),
                        context.as_str(),
                    ),
                )
            },
            BuildStage::CreateContainer => BuildAction::Run(
                Command::docker_create(self.image_name.as_str()),
            ),
            BuildStage::Extract(i) => {
                let export = &self.project.exports[i];
                let destination = join_path(self.out_path.as_str(), export.name.as_str());
                BuildAction::Run(
                    Command::docker_copy(
                        self.container_id.as_str(),
                        export.path.as_str(),
                        destination.as_str(),
                    ),
                )
            },
            BuildStage::Teardown => BuildAction::Run(
                Command::docker_remove(self.container_id.as_str()),
            ),
            BuildStage::Done => BuildAction::Finish(
                match self.state.error {
                    Some(e) => Err(e),
                    None => Ok(()),
                },
            ),
        }
    }

    /// Takes in how the current action ended and moves to the next state.
    ///
    /// `ok` says whether the action succeeded; `stdout` is what a command
    /// printed. The output of the container's creation, trimmed, is from
    /// then on the container's id. The result is the warning to report.
    pub fn advance(&mut self, ok: bool, stdout: &str) -> (w: Option<Warning>)
        requires
            old(self).wf(),
        ensures
            final(self).wf(),
            final(self).state == spec_next(old(self).state, old(self).project.exports@.len(), ok),
            w == spec_warning(old(self).state.stage, ok),
            final(self).container_id@ == if old(self).state.stage == BuildStage::CreateContainer
                && ok {
                spec_trimmed(stdout@)
            } else {
                old(self).container_id@
            },
            final(self).project == old(self).project,
            final(self).config_file == old(self).config_file,
            final(self).out_path == old(self).out_path,
            final(self).image_name == old(self).image_name,
    {
        let n: usize = self.project.exports.len();
        match self.state.stage {
            BuildStage::PrepareOutput => {
                if ok {
                    self.state.stage = BuildStage::BuildImage;
                } else {
                    self.state = BuildState {
                        stage: BuildStage::Done,
                        error: Some(BuildError::OutputDir),
                    };
                }
                None
            },
            BuildStage::BuildImage => {
                if ok {
                    self.state.stage = BuildStage::CreateContainer;
                } else {
                    self.state = BuildState {
                        stage: BuildStage::Done,
                        error: Some(BuildError::ImageBuild),
                    };
                }
                None
            },
            BuildStage::CreateContainer => {
                if !ok {
                    self.state = BuildState {
                        stage: BuildStage::Done,
                        error: Some(BuildError::ContainerCreate),
                    };
                } else {
                    self.container_id = trimmed(stdout);
                    if n > 0 {
                        self.state.stage = BuildStage::Extract(0);
                    } else {
                        self.state.stage = BuildStage::Teardown;
                    }
                }
                None
            },
            BuildStage::Extract(i) => {
                if i + 1 < n {
                    self.state.stage = BuildStage::Extract(i + 1);
                } else {
                    self.state.stage = BuildStage::Teardown;
                }
                if ok {
                    None
                } else {
                    Some(Warning::ExportFailed(i))
                }
            },
            BuildStage::Teardown => {
                self.state.stage = BuildStage::Done;
                if ok {
                    None
                } else {
                    Some(Warning::TeardownFailed)
                }
            },
            BuildStage::Done => None,
        }
    }

    /// Whether the build has ended.
    pub fn is_done(&self) -> (b: bool)
        ensures
            b == (self.state.stage == BuildStage::Done),
    {
        match self.state.stage {
            BuildStage::Done => true,
            _ => false,
        }
    }
}

impl BuildError {
    /// The human-readable text of the error.
    pub fn message(&self) -> (s: String)
        ensures
            s@ == match *self {
                BuildError::OutputDir => "Failed to create the output directory"@,
                BuildError::ImageBuild => "Docker build failed"@,
                BuildError::ContainerCreate => "Failed to start the container"@,
            },
    {
        match self {
            BuildError::OutputDir => String::from_str("Failed to create the output directory"),
            BuildError::ImageBuild => String::from_str("Docker build failed"),
            BuildError::ContainerCreate => String::from_str("Failed to start the container"),
        }
    }
}

/// A finished build stays finished, with the result it had.
pub proof fn lemma_done_is_final(state: BuildState, exports: nat, oks: Seq<bool>)
    requires
        state.stage == BuildStage::Done,
    ensures
        spec_run(state, exports, oks) == state,
    decreases oks.len(),
{
    if oks.len() > 0 {
        lemma_done_is_final(state, exports, oks.drop_first());
    }
}

/// A failed image build or container creation ends the build at once, with
/// its error, and nothing that follows changes that.
pub proof fn lemma_failure_is_terminal(stage: BuildStage, exports: nat, oks: Seq<bool>)
    requires
        stage == BuildStage::PrepareOutput || stage == BuildStage::BuildImage || stage
            == BuildStage::CreateContainer,
        oks.len() > 0,
        !oks[0],
    ensures
        spec_run((BuildState { stage, error: None }), exports, oks).stage == BuildStage::Done,
        spec_run((BuildState { stage, error: None }), exports, oks).error == Some(
            match stage {
                BuildStage::PrepareOutput => BuildError::OutputDir,
                BuildStage::BuildImage => BuildError::ImageBuild,
                _ => BuildError::ContainerCreate,
            },
        ),
{
    let first = spec_next(BuildState { stage, error: None }, exports, false);
    lemma_done_is_final(first, exports, oks.drop_first());
}

/// Once the container exists the build succeeds: whatever comes of the
/// copies that are left and of the removal, every one of them is tried, the
/// container is removed, and the build ends without an error.
pub proof fn lemma_extraction_never_fails(i: usize, exports: nat, oks: Seq<bool>)
    requires
        i < exports <= usize::MAX,
        oks.len() == exports - i + 1,
    ensures
        spec_run((BuildState { stage: BuildStage::Extract(i), error: None }), exports, oks)
            == (BuildState { stage: BuildStage::Done, error: None }),
        spec_run(
            (BuildState { stage: BuildStage::Extract(i), error: None }),
            exports,
            oks.drop_last(),
        ) == (BuildState { stage: BuildStage::Teardown, error: None }),
    decreases exports - i,
{
    let start = BuildState { stage: BuildStage::Extract(i), error: None };
    let teardown = BuildState { stage: BuildStage::Teardown, error: None };
    let rest = oks.drop_first();
    let firsts = oks.drop_last();
    assert(firsts.drop_first() =~= rest.drop_last());
    assert(firsts[0] == oks[0]);
    assert(spec_run(start, exports, oks) == spec_run(
        spec_next(start, exports, oks[0]),
        exports,
        rest,
    ));
    assert(spec_run(start, exports, firsts) == spec_run(
        spec_next(start, exports, oks[0]),
        exports,
        rest.drop_last(),
    ));
    if i + 1 < exports {
        lemma_extraction_never_fails((i + 1) as usize, exports, rest);
    } else {
        assert(spec_next(start, exports, oks[0]) == teardown);
        assert(rest.len() == 1);
        assert(rest.drop_first().len() == 0);
        assert(spec_run(teardown, exports, rest) == spec_run(
            spec_next(teardown, exports, rest[0]),
            exports,
            rest.drop_first(),
        ));
        assert(rest.drop_last().len() == 0);
    }
}

/// A project without exports is built all the same: the image, the
/// container, then straight to the removal, and the build succeeds.
pub proof fn lemma_no_exports_still_builds(removed: bool)
    ensures
        spec_run(spec_initial(), 0, seq![true, true, true]) == (BuildState {
            stage: BuildStage::Teardown,
            error: None,
        }),
        spec_run(spec_initial(), 0, seq![true, true, true, removed]) == (BuildState {
            stage: BuildStage::Done,
            error: None,
        }),
{
    reveal_with_fuel(spec_run, 6);
    let a = seq![true, true, true];
    assert(a.drop_first() =~= seq![true, true]);
    assert(a.drop_first().drop_first() =~= seq![true]);
    assert(a.drop_first().drop_first().drop_first() =~= Seq::<bool>::empty());
    let b = seq![true, true, true, removed];
    assert(b.drop_first() =~= seq![true, true, removed]);
    assert(b.drop_first().drop_first() =~= seq![true, removed]);
    assert(b.drop_first().drop_first().drop_first() =~= seq![removed]);
    assert(b.drop_first().drop_first().drop_first().drop_first() =~= Seq::<bool>::empty());
}

/// The state after two series of actions is the state after the second
/// series, begun where the first one ended.
pub proof fn lemma_run_split(state: BuildState, exports: nat, first: Seq<bool>, then: Seq<bool>)
    ensures
        spec_run(state, exports, first + then) == spec_run(
            spec_run(state, exports, first),
            exports,
            then,
        ),
    decreases first.len(),
{
    if first.len() == 0 {
        assert(first + then =~= then);
    } else {
        assert((first + then).drop_first() =~= first.drop_first() + then);
        lemma_run_split(spec_next(state, exports, first[0]), exports, first.drop_first(), then);
    }
}

/// A build succeeds as soon as its directory, its image and its container
/// were made: what the copies and the removal come to does not matter.
pub proof fn lemma_build_succeeds(exports: nat, rest: Seq<bool>)
    requires
        exports <= usize::MAX,
        rest.len() == exports + 1,
    ensures
        spec_run(spec_initial(), exports, seq![true, true, true] + rest) == (BuildState {
            stage: BuildStage::Done,
            error: None,
        }),
{
    let made = seq![true, true, true];
    lemma_run_split(spec_initial(), exports, made, rest);
    reveal_with_fuel(spec_run, 5);
    assert(made.drop_first() =~= seq![true, true]);
    assert(made.drop_first().drop_first() =~= seq![true]);
    assert(made.drop_first().drop_first().drop_first() =~= Seq::<bool>::empty());
    if exports > 0 {
        lemma_extraction_never_fails(0, exports, rest);
    } else {
        assert(rest.drop_first() =~= Seq::<bool>::empty());
    }
}

} // verus!
