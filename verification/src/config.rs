//! The typed configuration: one project's build description, a collection of
//! project references, and the rules that make a collection usable.

use vstd::prelude::*;
use vstd::string::*;

verus! {

/// One artifact to take out of a finished container.
#[derive(Debug, Clone, PartialEq, Eq)]
pub struct Export {
    /// Where the artifact lies inside the container.
    pub path: String,
    /// The name it gets in the output directory.
    pub name: String,
}

pub struct ExportView {
    pub path: Seq<char>,
    pub name: Seq<char>,
}

impl View for Export {
    type V = ExportView;

    open spec fn view(&self) -> ExportView {
        ExportView { path: self.path@, name: self.name@ }
    }
}

/// The build description of a single project.
#[derive(Debug, Clone, PartialEq, Eq)]
pub struct Project {
    /// The container definition, relative to the directory of the description.
    pub docker: String,
    /// The artifacts to extract, in order. May be empty.
    pub exports: Vec<Export>,
}

pub struct ProjectView {
    pub docker: Seq<char>,
    pub exports: Seq<ExportView>,
}

impl View for Project {
    type V = ProjectView;

    open spec fn view(&self) -> ProjectView {
        ProjectView {
            docker: self.docker@,
            exports: exports_view(self.exports@),
        }
    }
}

/// Where a project of a collection comes from.
#[derive(Debug, Clone, PartialEq, Eq)]
pub enum ProjectInfo {
    /// A git repository named relative to the collection's base URL.
    GitRel { git_rel: String, build_file: String, out_path: String },
    /// A git repository named by its full URL.
    GitUrl { git_url: String, build_file: String, out_path: String },
    /// A build description that is already on disk.
    LocalPath { build_file: String, out_path: String },
}

pub enum ProjectInfoView {
    GitRel { git_rel: Seq<char>, build_file: Seq<char>, out_path: Seq<char> },
    GitUrl { git_url: Seq<char>, build_file: Seq<char>, out_path: Seq<char> },
    LocalPath { build_file: Seq<char>, out_path: Seq<char> },
}

impl ProjectInfoView {
    pub open spec fn build_file(self) -> Seq<char> {
        match self {
            ProjectInfoView::GitRel { build_file, .. } => build_file,
            ProjectInfoView::GitUrl { build_file, .. } => build_file,
            ProjectInfoView::LocalPath { build_file, .. } => build_file,
        }
    }

    pub open spec fn out_path(self) -> Seq<char> {
        match self {
            ProjectInfoView::GitRel { out_path, .. } => out_path,
            ProjectInfoView::GitUrl { out_path, .. } => out_path,
            ProjectInfoView::LocalPath { out_path, .. } => out_path,
        }
    }
}

impl View for ProjectInfo {
    type V = ProjectInfoView;

    open spec fn view(&self) -> ProjectInfoView {
        match *self {
            ProjectInfo::GitRel { git_rel, build_file, out_path } => ProjectInfoView::GitRel {
                git_rel: git_rel@,
                build_file: build_file@,
                out_path: out_path@,
            },
            ProjectInfo::GitUrl { git_url, build_file, out_path } => ProjectInfoView::GitUrl {
                git_url: git_url@,
                build_file: build_file@,
                out_path: out_path@,
            },
            ProjectInfo::LocalPath { build_file, out_path } => ProjectInfoView::LocalPath {
                build_file: build_file@,
                out_path: out_path@,
            },
        }
    }
}

/// Why a configuration is rejected.
#[derive(Debug, Clone, PartialEq, Eq)]
pub enum ConfigError {
    /// A reference is relative to a base URL that the collection does not set.
    MissingGitBase { git_rel: String },
    /// A reference names both a relative and a full git source.
    ConflictingSource,
    /// The text is not a well-formed document.
    Syntax { message: String },
    /// A field that must be there is not.
    MissingField { field: String },
    /// A field holds something else than the text it must hold.
    WrongType { field: String },
}

pub enum ConfigErrorView {
    MissingGitBase { git_rel: Seq<char> },
    ConflictingSource,
    Syntax { message: Seq<char> },
    MissingField { field: Seq<char> },
    WrongType { field: Seq<char> },
}

impl ConfigErrorView {
    /// The text shown for the error.
    pub open spec fn message(self) -> Seq<char> {
        match self {
            ConfigErrorView::MissingGitBase { git_rel } => "the relative git `"@ + git_rel
                + "` could no be resolved you need to set the `git_base` url"@,
            ConfigErrorView::ConflictingSource =>
                "A project can have either `git_rel` or `git_url`, but not both"@,
            ConfigErrorView::Syntax { message } => message,
            ConfigErrorView::MissingField { field } => "missing field `"@ + field + "`"@,
            ConfigErrorView::WrongType { field } => "invalid type for field `"@ + field + "`"@,
        }
    }
}

impl View for ConfigError {
    type V = ConfigErrorView;

    open spec fn view(&self) -> ConfigErrorView {
        match *self {
            ConfigError::MissingGitBase { git_rel } => ConfigErrorView::MissingGitBase {
                git_rel: git_rel@,
            },
            ConfigError::ConflictingSource => ConfigErrorView::ConflictingSource,
            ConfigError::Syntax { message } => ConfigErrorView::Syntax { message: message@ },
            ConfigError::MissingField { field } => ConfigErrorView::MissingField { field: field@ },
            ConfigError::WrongType { field } => ConfigErrorView::WrongType { field: field@ },
        }
    }
}

impl ConfigError {
    /// A copy of the error.
    pub fn duplicate(&self) -> (e: ConfigError)
        ensures
            e@ == self@,
    {
        match self {
            ConfigError::MissingGitBase { git_rel } => ConfigError::MissingGitBase {
                git_rel: git_rel.clone(),
            },
            ConfigError::ConflictingSource => ConfigError::ConflictingSource,
            ConfigError::Syntax { message } => ConfigError::Syntax { message: message.clone() },
            ConfigError::MissingField { field } => ConfigError::MissingField {
                field: field.clone(),
            },
            ConfigError::WrongType { field } => ConfigError::WrongType { field: field.clone() },
        }
    }

    /// The human-readable text of the error.
    pub fn message(&self) -> (s: String)
        ensures
            s@ == self@.message(),
    {
        match self {
            ConfigError::MissingGitBase { git_rel } => {
                let mut s = String::from_str("the relative git `");
                s.append(git_rel.as_str());
                s.append("` could no be resolved you need to set the `git_base` url");
                s
            },
            ConfigError::ConflictingSource => String::from_str(
                "A project can have either `git_rel` or `git_url`, but not both",
            ),
            ConfigError::Syntax { message } => message.clone(),
            ConfigError::MissingField { field } => {
                let mut s = String::from_str("missing field `");
                s.append(field.as_str());
                s.append("`");
                s
            },
            ConfigError::WrongType { field } => {
                let mut s = String::from_str("invalid type for field `");
                s.append(field.as_str());
                s.append("`");
                s
            },
        }
    }
}

/// The views of a list of exports.
pub open spec fn exports_view(exports: Seq<Export>) -> Seq<ExportView> {
    Seq::new(exports.len(), |i: int| exports[i]@)
}

/// The views of a list of references.
pub open spec fn projects_view(projects: Seq<ProjectInfo>) -> Seq<ProjectInfoView> {
    Seq::new(projects.len(), |i: int| projects[i]@)
}

/// The characters of an optional string.
pub open spec fn opt_chars(s: Option<String>) -> Option<Seq<char>> {
    match s {
        Some(s) => Some(s@),
        None => None,
    }
}

/// The reference that a set of raw fields denotes: the two git fields exclude
/// each other, and a reference with neither is a local path.
pub open spec fn spec_from_fields(
    git_rel: Option<Seq<char>>,
    git_url: Option<Seq<char>>,
    build_file: Seq<char>,
    out_path: Seq<char>,
) -> Result<ProjectInfoView, ConfigErrorView> {
    match (git_rel, git_url) {
        (Some(git_rel), None) => Ok(ProjectInfoView::GitRel { git_rel, build_file, out_path }),
        (None, Some(git_url)) => Ok(ProjectInfoView::GitUrl { git_url, build_file, out_path }),
        (None, None) => Ok(ProjectInfoView::LocalPath { build_file, out_path }),
        (Some(_), Some(_)) => Err(ConfigErrorView::ConflictingSource),
    }
}

impl ProjectInfo {
    /// Builds a reference from the fields of one `projects` entry.
    ///
    /// Fails exactly when both `git_rel` and `git_url` are given.
    pub fn from_fields(
        git_rel: Option<String>,
        git_url: Option<String>,
        build_file: String,
        out_path: String,
    ) -> (r: Result<ProjectInfo, ConfigError>)
        ensures
            r is Err <==> (git_rel is Some && git_url is Some),
            match r {
                Ok(p) => spec_from_fields(opt_chars(git_rel), opt_chars(git_url), build_file@, out_path@)
                    == Ok::<ProjectInfoView, ConfigErrorView>(p@),
                Err(e) => spec_from_fields(
                    opt_chars(git_rel),
                    opt_chars(git_url),
                    build_file@,
                    out_path@,
                ) == Err::<ProjectInfoView, ConfigErrorView>(e@),
            },
    {
        match (git_rel, git_url) {
            (Some(git_rel), None) => Ok(ProjectInfo::GitRel { git_rel, build_file, out_path }),
            (None, Some(git_url)) => Ok(ProjectInfo::GitUrl { git_url, build_file, out_path }),
            (None, None) => Ok(ProjectInfo::LocalPath { build_file, out_path }),
            (Some(_), Some(_)) => Err(ConfigError::ConflictingSource),
        }
    }

    /// The path of the project's build description.
    pub fn build_file(&self) -> (s: &String)
        ensures
            s@ == self@.build_file(),
    {
        match self {
            ProjectInfo::GitRel { build_file, .. } => build_file,
            ProjectInfo::GitUrl { build_file, .. } => build_file,
            ProjectInfo::LocalPath { build_file, .. } => build_file,
        }
    }

    /// The subdirectory of the output directory that takes the project's artifacts.
    pub fn out_path(&self) -> (s: &String)
        ensures
            s@ == self@.out_path(),
    {
        match self {
            ProjectInfo::GitRel { out_path, .. } => out_path,
            ProjectInfo::GitUrl { out_path, .. } => out_path,
            ProjectInfo::LocalPath { out_path, .. } => out_path,
        }
    }
}

/// A set of projects that are built together.
#[derive(Debug, Clone, PartialEq, Eq)]
pub struct Collection {
    /// The URL that relative git references are resolved against.
    pub git_base: Option<String>,
    /// The projects, in the order in which they are built.
    pub projects: Vec<ProjectInfo>,
}

pub struct CollectionView {
    pub git_base: Option<Seq<char>>,
    pub projects: Seq<ProjectInfoView>,
}

impl CollectionView {
    /// Every relative reference has a base to be resolved against.
    pub open spec fn valid(self) -> bool {
        self.git_base is Some || forall|i: int|
            0 <= i < self.projects.len() ==> !(#[trigger] self.projects[i] is GitRel)
    }

    /// `i` is the first relative reference of a collection without a base.
    pub open spec fn offends_at(self, i: int) -> bool {
        &&& self.git_base is None
        &&& 0 <= i < self.projects.len()
        &&& self.projects[i] is GitRel
        &&& forall|j: int| 0 <= j < i ==> !(#[trigger] self.projects[j] is GitRel)
    }
}

impl View for Collection {
    type V = CollectionView;

    open spec fn view(&self) -> CollectionView {
        CollectionView {
            git_base: opt_chars(self.git_base),
            projects: projects_view(self.projects@),
        }
    }
}

impl Collection {
    /// Checks that every relative git reference can be resolved.
    ///
    /// Succeeds exactly when the collection is valid; otherwise the error
    /// names the first relative reference.
    pub fn validate(&self) -> (r: Result<(), ConfigError>)
        ensures
            r is Ok <==> self@.valid(),
            match r {
                Ok(_) => true,
                Err(e) => exists|i: int| #[trigger]
                    self@.offends_at(i) && e@ == (ConfigErrorView::MissingGitBase {
                        git_rel: self@.projects[i]->GitRel_git_rel,
                    }),
            },
    {
        if self.git_base.is_some() {
            return Ok(());
        }
        let n: usize = self.projects.len();
        let mut i: usize = 0;
        while i < n
            invariant
                i <= n,
                n == self.projects@.len(),
                self.git_base is None,
                forall|j: int| 0 <= j < i ==> !(#[trigger] self@.projects[j] is GitRel),
            decreases n - i,
        {
            match &self.projects[i] {
                ProjectInfo::GitRel { git_rel, .. } => {
                    let e = ConfigError::MissingGitBase { git_rel: git_rel.clone() };
                    proof {
                        assert(self@.projects[i as int] is GitRel);
                        assert(self@.offends_at(i as int));
                        assert(!self@.valid());
                    }
                    return Err(e);
                },
                _ => {},
            }
            i += 1;
        }
        Ok(())
    }
}

/// A collection that sets a base URL is valid whatever it refers to.
pub proof fn lemma_base_makes_valid(c: CollectionView)
    requires
        c.git_base is Some,
    ensures
        c.valid(),
{
}

/// A collection without a base URL is invalid as soon as one of its
/// references is relative.
pub proof fn lemma_relative_needs_base(c: CollectionView, i: int)
    requires
        c.git_base is None,
        0 <= i < c.projects.len(),
        c.projects[i] is GitRel,
    ensures
        !c.valid(),
        exists|k: int| 0 <= k <= i && #[trigger] c.offends_at(k),
    decreases i,
{
    if exists|j: int| 0 <= j < i && #[trigger] c.projects[j] is GitRel {
        let j = choose|j: int| 0 <= j < i && #[trigger] c.projects[j] is GitRel;
        lemma_relative_needs_base(c, j);
    } else {
        assert(c.offends_at(i));
    }
}

} // verus!
