use jonah::config::{Collection, ConfigError, Export, Project, ProjectInfo};

fn s(text: &str) -> String {
    text.to_string()
}

fn relative(path: &str) -> ProjectInfo {
    ProjectInfo::GitRel { git_rel: s(path), build_file: s("jonah.toml"), out_path: s("out") }
}

fn local(file: &str) -> ProjectInfo {
    ProjectInfo::LocalPath { build_file: s(file), out_path: s("out") }
}

#[test]
fn reference_with_both_git_fields_is_rejected() {
    let r = ProjectInfo::from_fields(Some(s("org/repo")), Some(s("https://h/org/repo")), s("b"), s("o"));
    assert_eq!(r, Err(ConfigError::ConflictingSource));
}

#[test]
fn reference_with_neither_git_field_is_local() {
    let r = ProjectInfo::from_fields(None, None, s("b.toml"), s("o"));
    assert_eq!(r, Ok(ProjectInfo::LocalPath { build_file: s("b.toml"), out_path: s("o") }));
}

#[test]
fn reference_with_relative_field_is_relative() {
    let r = ProjectInfo::from_fields(Some(s("org/repo")), None, s("b.toml"), s("o"));
    assert_eq!(
        r,
        Ok(ProjectInfo::GitRel { git_rel: s("org/repo"), build_file: s("b.toml"), out_path: s("o") })
    );
}

#[test]
fn reference_with_url_field_is_url() {
    let r = ProjectInfo::from_fields(None, Some(s("https://h/r.git")), s("b.toml"), s("o"));
    assert_eq!(
        r,
        Ok(ProjectInfo::GitUrl {
            git_url: s("https://h/r.git"),
            build_file: s("b.toml"),
            out_path: s("o")
        })
    );
}

#[test]
fn reference_accessors_return_the_fields() {
    let p = ProjectInfo::GitUrl { git_url: s("u"), build_file: s("bf"), out_path: s("op") };
    assert_eq!(p.build_file(), "bf");
    assert_eq!(p.out_path(), "op");
    let q = local("x.toml");
    assert_eq!(q.build_file(), "x.toml");
    assert_eq!(q.out_path(), "out");
}

#[test]
fn validate_fails_without_base_and_names_the_reference() {
    let c = Collection { git_base: None, projects: vec![relative("org/repo")] };
    assert_eq!(c.validate(), Err(ConfigError::MissingGitBase { git_rel: s("org/repo") }));
}

#[test]
fn validate_passes_with_a_base() {
    let c = Collection { git_base: Some(s("https://example.com")), projects: vec![relative("org/repo")] };
    assert_eq!(c.validate(), Ok(()));
}

#[test]
fn validate_names_the_first_relative_reference() {
    let c = Collection {
        git_base: None,
        projects: vec![local("a.toml"), relative("first"), relative("second")],
    };
    assert_eq!(c.validate(), Err(ConfigError::MissingGitBase { git_rel: s("first") }));
}

#[test]
fn validate_passes_without_relative_references() {
    let c = Collection {
        git_base: None,
        projects: vec![
            local("a.toml"),
            ProjectInfo::GitUrl { git_url: s("https://h/r"), build_file: s("b"), out_path: s("o") },
        ],
    };
    assert_eq!(c.validate(), Ok(()));
    let empty = Collection { git_base: None, projects: vec![] };
    assert_eq!(empty.validate(), Ok(()));
}

#[test]
fn config_error_messages() {
    let e = ConfigError::MissingGitBase { git_rel: s("org/repo") };
    assert_eq!(
        e.message(),
        "the relative git `org/repo` could no be resolved you need to set the `git_base` url"
    );
    assert_eq!(
        ConfigError::ConflictingSource.message(),
        "A project can have either `git_rel` or `git_url`, but not both"
    );
    assert_eq!(e.duplicate(), e);
}

#[test]
fn project_may_have_no_exports() {
    let p = Project { docker: s("Dockerfile"), exports: vec![] };
    assert!(p.exports.is_empty());
    let q = Project {
        docker: s("Dockerfile"),
        exports: vec![Export { path: s("/app/bin"), name: s("bin") }],
    };
    assert_eq!(q.exports[0].name, "bin");
}
