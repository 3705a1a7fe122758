use jonah::config::ProjectInfo;
use jonah::resolve::{
    clone_dir_name, join_path, join_url, resolve_source, source_url, ResolveError, ResolvedSource,
};

fn s(text: &str) -> String {
    text.to_string()
}

#[test]
fn join_url_yields_one_separator_in_all_four_cases() {
    assert_eq!(join_url("a/", "/b"), "a/b");
    assert_eq!(join_url("a", "/b"), "a/b");
    assert_eq!(join_url("a/", "b"), "a/b");
    assert_eq!(join_url("a", "b"), "a/b");
}

#[test]
fn join_url_on_real_urls() {
    assert_eq!(join_url("https://example.com/", "/org/repo.git"), "https://example.com/org/repo.git");
    assert_eq!(join_url("https://example.com", "org/repo.git"), "https://example.com/org/repo.git");
}

#[test]
fn join_url_takes_off_one_separator_only() {
    assert_eq!(join_url("a//", "b"), "a//b");
    assert_eq!(join_url("a", "//b"), "a//b");
    assert_eq!(join_url("", ""), "/");
    assert_eq!(join_url("/", "/"), "/");
}

#[test]
fn join_url_counts_characters_not_bytes() {
    assert_eq!(join_url("ä/", "/ö"), "ä/ö");
}

#[test]
fn join_path_always_adds_a_separator() {
    assert_eq!(join_path("out", "bin"), "out/bin");
    assert_eq!(join_path("out/", "bin"), "out//bin");
    assert_eq!(join_path("", ""), "/");
}

#[test]
fn clone_dir_name_of_three_spellings_is_repo() {
    assert_eq!(clone_dir_name("https://example.com/org/repo.git"), Ok(s("repo")));
    assert_eq!(clone_dir_name("https://example.com/org/repo"), Ok(s("repo")));
    assert_eq!(clone_dir_name("https://example.com/org/repo/"), Ok(s("repo")));
}

#[test]
fn clone_dir_name_without_separator_is_the_whole_text() {
    assert_eq!(clone_dir_name("repo"), Ok(s("repo")));
    assert_eq!(clone_dir_name("repo.git"), Ok(s("repo")));
    assert_eq!(clone_dir_name("repo.git/"), Ok(s("repo")));
    assert_eq!(clone_dir_name("a.gitx"), Ok(s("a.gitx")));
    assert_eq!(clone_dir_name("git"), Ok(s("git")));
    assert_eq!(clone_dir_name("x/répo.git"), Ok(s("répo")));
}

#[test]
fn clone_dir_name_fails_without_a_usable_segment() {
    for url in ["", "/", "//", "a//", ".git", "https://example.com/.git", "x/.git/"] {
        assert_eq!(clone_dir_name(url), Err(ResolveError::NoPathSegment { url: s(url) }));
    }
}

#[test]
fn source_url_by_kind() {
    let rel = ProjectInfo::GitRel { git_rel: s("/org/repo"), build_file: s("b"), out_path: s("o") };
    assert_eq!(source_url(&rel, &Some(s("https://h/"))), Ok(Some(s("https://h/org/repo"))));
    assert_eq!(source_url(&rel, &None), Err(ResolveError::MissingGitBase { git_rel: s("/org/repo") }));
    let url = ProjectInfo::GitUrl { git_url: s("https://h/r.git"), build_file: s("b"), out_path: s("o") };
    assert_eq!(source_url(&url, &None), Ok(Some(s("https://h/r.git"))));
    let local = ProjectInfo::LocalPath { build_file: s("b"), out_path: s("o") };
    assert_eq!(source_url(&local, &Some(s("https://h/"))), Ok(None));
}

#[test]
fn resolve_local_path_is_unchanged() {
    let local = ProjectInfo::LocalPath { build_file: s("dir/jonah.toml"), out_path: s("o") };
    assert_eq!(
        resolve_source(&local, &None, "/tmp/jonah"),
        Ok(ResolvedSource { url: None, source_dir: s("."), build_file: s("dir/jonah.toml") })
    );
}

#[test]
fn resolve_git_url_goes_under_the_working_directory() {
    let p = ProjectInfo::GitUrl {
        git_url: s("https://example.com/org/repo.git"),
        build_file: s("ci/jonah.toml"),
        out_path: s("o"),
    };
    assert_eq!(
        resolve_source(&p, &None, "/tmp/jonah"),
        Ok(ResolvedSource {
            url: Some(s("https://example.com/org/repo.git")),
            source_dir: s("/tmp/jonah/repo"),
            build_file: s("/tmp/jonah/repo/ci/jonah.toml"),
        })
    );
}

#[test]
fn resolve_relative_joins_with_the_base() {
    let p = ProjectInfo::GitRel { git_rel: s("/org/tool/"), build_file: s("j.toml"), out_path: s("o") };
    assert_eq!(
        resolve_source(&p, &Some(s("https://example.com/")), "work"),
        Ok(ResolvedSource {
            url: Some(s("https://example.com/org/tool/")),
            source_dir: s("work/tool"),
            build_file: s("work/tool/j.toml"),
        })
    );
    assert_eq!(
        resolve_source(&p, &None, "work"),
        Err(ResolveError::MissingGitBase { git_rel: s("/org/tool/") })
    );
}

#[test]
fn resolve_fails_on_a_url_without_segment() {
    let p = ProjectInfo::GitUrl { git_url: s("/"), build_file: s("j.toml"), out_path: s("o") };
    assert_eq!(resolve_source(&p, &None, "work"), Err(ResolveError::NoPathSegment { url: s("/") }));
}

#[test]
fn resolve_error_messages() {
    let e = ResolveError::NoPathSegment { url: s("x/") };
    assert_eq!(e.message(), "x/ is not a valid git_url");
    assert_eq!(e.duplicate(), e);
    assert_eq!(
        ResolveError::MissingGitBase { git_rel: s("r") }.message(),
        "the relative git `r` could no be resolved you need to set the `git_base` url"
    );
    assert_eq!(ResolveError::GitFailed { url: s("u") }.message(), "git failed for u");
}
