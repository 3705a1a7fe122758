use jonah::config::{Collection, ConfigError, Export, Project, ProjectInfo};
use jonah::document::{
    collection_from_document, export_from_value, parse_collection, parse_project,
    project_from_document, reference_from_value,
};

fn s(text: &str) -> String {
    text.to_string()
}

fn document(text: &str) -> toml::Value {
    toml::Value::Table(text.parse::<toml::Table>().unwrap())
}

fn missing(field: &str) -> ConfigError {
    ConfigError::MissingField { field: s(field) }
}

fn wrong(field: &str) -> ConfigError {
    ConfigError::WrongType { field: s(field) }
}

#[test]
fn parse_project_with_exports() {
    let text = "docker = \"Dockerfile\"\n\n[[exports]]\npath = \"/app/bin\"\nname = \"bin\"\n\n[[exports]]\npath = \"/app/doc\"\nname = \"doc\"\n";
    assert_eq!(
        parse_project(text),
        Ok(Project {
            docker: s("Dockerfile"),
            exports: vec![
                Export { path: s("/app/bin"), name: s("bin") },
                Export { path: s("/app/doc"), name: s("doc") },
            ],
        })
    );
}

#[test]
fn parse_project_without_exports() {
    assert_eq!(
        parse_project("docker = \"D\"\nexports = []\n"),
        Ok(Project { docker: s("D"), exports: vec![] })
    );
}

#[test]
fn parse_project_passes_over_other_fields() {
    assert_eq!(
        parse_project("docker = \"D\"\nexports = []\nextra = 3\n"),
        Ok(Project { docker: s("D"), exports: vec![] })
    );
}

#[test]
fn parse_project_missing_fields() {
    assert_eq!(parse_project("exports = []\n"), Err(missing("docker")));
    assert_eq!(parse_project("docker = \"D\"\n"), Err(missing("exports")));
    assert_eq!(parse_project(""), Err(missing("docker")));
    assert_eq!(
        parse_project("docker = \"D\"\n[[exports]]\npath = \"p\"\n"),
        Err(missing("name"))
    );
    assert_eq!(
        parse_project("docker = \"D\"\n[[exports]]\nname = \"n\"\n"),
        Err(missing("path"))
    );
}

#[test]
fn parse_project_wrong_types() {
    assert_eq!(parse_project("docker = 1\nexports = []\n"), Err(wrong("docker")));
    assert_eq!(parse_project("docker = \"D\"\nexports = \"x\"\n"), Err(wrong("exports")));
    assert_eq!(
        parse_project("docker = \"D\"\n[[exports]]\npath = 1\nname = \"n\"\n"),
        Err(wrong("path"))
    );
}

#[test]
fn parse_project_first_bad_export_decides() {
    let text = "docker = \"D\"\n[[exports]]\npath = \"p\"\nname = 2\n[[exports]]\nname = \"n\"\n";
    assert_eq!(parse_project(text), Err(wrong("name")));
}

#[test]
fn parse_project_syntax_error() {
    match parse_project("docker = ") {
        Err(ConfigError::Syntax { message }) => assert!(!message.is_empty()),
        other => panic!("expected a syntax error, got {:?}", other),
    }
    assert!(matches!(parse_collection("[[projects"), Err(ConfigError::Syntax { .. })));
}

#[test]
fn parse_collection_with_all_kinds() {
    let text = "git_base = \"https://example.com/\"\n\n[[projects]]\ngit_rel = \"org/a\"\nbuild_file = \"a.toml\"\nout_path = \"a\"\n\n[[projects]]\ngit_url = \"https://h/b.git\"\nbuild_file = \"b.toml\"\nout_path = \"b\"\n\n[[projects]]\nbuild_file = \"c/c.toml\"\nout_path = \"c\"\n";
    assert_eq!(
        parse_collection(text),
        Ok(Collection {
            git_base: Some(s("https://example.com/")),
            projects: vec![
                ProjectInfo::GitRel { git_rel: s("org/a"), build_file: s("a.toml"), out_path: s("a") },
                ProjectInfo::GitUrl {
                    git_url: s("https://h/b.git"),
                    build_file: s("b.toml"),
                    out_path: s("b")
                },
                ProjectInfo::LocalPath { build_file: s("c/c.toml"), out_path: s("c") },
            ],
        })
    );
}

#[test]
fn parse_collection_without_base() {
    assert_eq!(
        parse_collection("projects = []\n"),
        Ok(Collection { git_base: None, projects: vec![] })
    );
}

#[test]
fn parse_collection_rejects_both_git_fields() {
    let text = "[[projects]]\ngit_rel = \"org/a\"\ngit_url = \"https://h/a\"\nbuild_file = \"a.toml\"\nout_path = \"a\"\n";
    assert_eq!(parse_collection(text), Err(ConfigError::ConflictingSource));
}

#[test]
fn parse_collection_field_errors() {
    assert_eq!(parse_collection(""), Err(missing("projects")));
    assert_eq!(parse_collection("git_base = 1\nprojects = []\n"), Err(wrong("git_base")));
    assert_eq!(parse_collection("projects = 1\n"), Err(wrong("projects")));
    assert_eq!(
        parse_collection("[[projects]]\nout_path = \"a\"\n"),
        Err(missing("build_file"))
    );
    assert_eq!(
        parse_collection("[[projects]]\nbuild_file = \"a\"\n"),
        Err(missing("out_path"))
    );
    assert_eq!(
        parse_collection("[[projects]]\ngit_rel = 1\nbuild_file = \"a\"\nout_path = \"a\"\n"),
        Err(wrong("git_rel"))
    );
    assert_eq!(
        parse_collection("[[projects]]\ngit_url = []\nbuild_file = \"a\"\nout_path = \"a\"\n"),
        Err(wrong("git_url"))
    );
}

#[test]
fn documents_are_read_field_by_field() {
    let doc = document("docker = \"D\"\nexports = [{ path = \"p\", name = \"n\" }]\n");
    assert_eq!(
        project_from_document(&doc),
        Ok(Project { docker: s("D"), exports: vec![Export { path: s("p"), name: s("n") }] })
    );
    let doc = document("projects = [{ build_file = \"b\", out_path = \"o\" }]\n");
    assert_eq!(
        collection_from_document(&doc),
        Ok(Collection {
            git_base: None,
            projects: vec![ProjectInfo::LocalPath { build_file: s("b"), out_path: s("o") }],
        })
    );
    let item = document("path = \"p\"\nname = \"n\"\n");
    assert_eq!(export_from_value(&item), Ok(Export { path: s("p"), name: s("n") }));
    let item = document("git_url = \"u\"\nbuild_file = \"b\"\nout_path = \"o\"\n");
    assert_eq!(
        reference_from_value(&item),
        Ok(ProjectInfo::GitUrl { git_url: s("u"), build_file: s("b"), out_path: s("o") })
    );
    assert_eq!(export_from_value(&toml::Value::Integer(1)), Err(missing("path")));
}

#[test]
fn new_config_error_messages() {
    assert_eq!(missing("docker").message(), "missing field `docker`");
    assert_eq!(wrong("exports").message(), "invalid type for field `exports`");
    assert_eq!(ConfigError::Syntax { message: s("bad") }.message(), "bad");
    assert_eq!(wrong("x").duplicate(), wrong("x"));
}
