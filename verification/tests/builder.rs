use jonah::builder::{
    parent_dir, BuildAction, BuildError, BuildRun, BuildStage, BuildState, Warning,
};
use jonah::command::Command;
use jonah::config::{ConfigError, Export, Project};

fn s(text: &str) -> String {
    text.to_string()
}

fn project(exports: &[(&str, &str)]) -> Project {
    Project {
        docker: s("Dockerfile"),
        exports: exports.iter().map(|(p, n)| Export { path: s(p), name: s(n) }).collect(),
    }
}

fn run_of(exports: &[(&str, &str)]) -> BuildRun {
    BuildRun::new(project(exports), s("proj/sub/jonah.toml"), s("out"), s("img"))
}

#[test]
fn parent_dir_is_what_precedes_the_last_separator() {
    assert_eq!(parent_dir("a/b/c.toml"), "a/b");
    assert_eq!(parent_dir("c.toml"), "");
    assert_eq!(parent_dir("/c.toml"), "");
    assert_eq!(parent_dir("a/"), "a");
    assert_eq!(parent_dir(""), "");
    assert_eq!(parent_dir("ä/ö/c"), "ä/ö");
}

#[test]
fn build_starts_with_the_output_directory() {
    let run = run_of(&[]);
    assert_eq!(run.state, BuildState { stage: BuildStage::PrepareOutput, error: None });
    assert_eq!(run.action(), BuildAction::CreateDir(s("out")));
    assert!(!run.is_done());
}

#[test]
fn build_without_exports_still_builds_and_succeeds() {
    let mut run = run_of(&[]);
    assert_eq!(run.advance(true, ""), None);
    assert_eq!(
        run.action(),
        BuildAction::Run(Command::docker_build("img", "Dockerfile", "proj/sub"))
    );
    assert_eq!(run.advance(true, ""), None);
    assert_eq!(run.action(), BuildAction::Run(Command::docker_create("img")));
    assert_eq!(run.advance(true, "cafe01\n"), None);
    assert_eq!(run.state.stage, BuildStage::Teardown);
    assert_eq!(run.action(), BuildAction::Run(Command::docker_remove("cafe01")));
    assert_eq!(run.advance(true, ""), None);
    assert!(run.is_done());
    assert_eq!(run.action(), BuildAction::Finish(Ok(())));
}

#[test]
fn build_copies_each_export_in_order() {
    let mut run = run_of(&[("/app/bin", "bin"), ("/app/doc", "doc")]);
    run.advance(true, "");
    run.advance(true, "");
    run.advance(true, "  id42 \n");
    assert_eq!(run.container_id, "id42");
    assert_eq!(run.state.stage, BuildStage::Extract(0));
    assert_eq!(
        run.action(),
        BuildAction::Run(Command::docker_copy("id42", "/app/bin", "out/bin"))
    );
    assert_eq!(run.advance(true, ""), None);
    assert_eq!(run.state.stage, BuildStage::Extract(1));
    assert_eq!(
        run.action(),
        BuildAction::Run(Command::docker_copy("id42", "/app/doc", "out/doc"))
    );
    assert_eq!(run.advance(true, ""), None);
    assert_eq!(run.state.stage, BuildStage::Teardown);
    assert_eq!(run.advance(true, ""), None);
    assert_eq!(run.action(), BuildAction::Finish(Ok(())));
}

#[test]
fn failed_copy_is_reported_and_teardown_still_runs() {
    let mut run = run_of(&[("/app/bin", "bin"), ("/app/doc", "doc")]);
    run.advance(true, "");
    run.advance(true, "");
    run.advance(true, "id42");
    assert_eq!(run.advance(false, ""), Some(Warning::ExportFailed(0)));
    assert_eq!(run.state.stage, BuildStage::Extract(1));
    assert_eq!(run.advance(false, ""), Some(Warning::ExportFailed(1)));
    assert_eq!(run.action(), BuildAction::Run(Command::docker_remove("id42")));
    assert_eq!(run.advance(true, ""), None);
    assert_eq!(run.action(), BuildAction::Finish(Ok(())));
}

#[test]
fn failed_teardown_is_a_warning_only() {
    let mut run = run_of(&[]);
    run.advance(true, "");
    run.advance(true, "");
    run.advance(true, "id");
    assert_eq!(run.advance(false, ""), Some(Warning::TeardownFailed));
    assert_eq!(run.action(), BuildAction::Finish(Ok(())));
}

#[test]
fn failed_output_directory_ends_the_build() {
    let mut run = run_of(&[("/a", "a")]);
    assert_eq!(run.advance(false, ""), None);
    assert_eq!(run.action(), BuildAction::Finish(Err(BuildError::OutputDir)));
}

#[test]
fn failed_image_build_ends_the_build() {
    let mut run = run_of(&[("/a", "a")]);
    run.advance(true, "");
    assert_eq!(run.advance(false, ""), None);
    assert!(run.is_done());
    assert_eq!(run.action(), BuildAction::Finish(Err(BuildError::ImageBuild)));
    run.advance(true, "late");
    assert_eq!(run.action(), BuildAction::Finish(Err(BuildError::ImageBuild)));
    assert_eq!(run.container_id, "");
}

#[test]
fn failed_container_creation_ends_the_build() {
    let mut run = run_of(&[("/a", "a")]);
    run.advance(true, "");
    run.advance(true, "");
    assert_eq!(run.advance(false, "ignored"), None);
    assert_eq!(run.action(), BuildAction::Finish(Err(BuildError::ContainerCreate)));
    assert_eq!(run.container_id, "");
}

#[test]
fn build_error_messages() {
    assert_eq!(BuildError::ImageBuild.message(), "Docker build failed");
    assert_eq!(BuildError::ContainerCreate.message(), "Failed to start the container");
    assert_eq!(BuildError::OutputDir.message(), "Failed to create the output directory");
}

#[test]
fn load_reads_the_description_and_starts() {
    let text = "docker = \"Dockerfile\"\n[[exports]]\npath = \"/app/bin\"\nname = \"bin\"\n";
    let run = BuildRun::load(text, s("p/jonah.toml"), s("out"), s("img")).unwrap();
    assert_eq!(run.project, project(&[("/app/bin", "bin")]));
    assert_eq!(run.config_file, "p/jonah.toml");
    assert_eq!(run.out_path, "out");
    assert_eq!(run.image_name, "img");
    assert_eq!(run.container_id, "");
    assert_eq!(run.action(), BuildAction::CreateDir(s("out")));
}

#[test]
fn load_fails_on_a_bad_description() {
    match BuildRun::load("exports = []\n", s("p/jonah.toml"), s("out"), s("img")) {
        Err(e) => assert_eq!(e, ConfigError::MissingField { field: s("docker") }),
        Ok(_) => panic!("a build was begun without a description"),
    }
    match BuildRun::load("docker = [", s("p/jonah.toml"), s("out"), s("img")) {
        Err(e) => assert!(matches!(e, ConfigError::Syntax { .. })),
        Ok(_) => panic!("a build was begun from a broken text"),
    }
}
