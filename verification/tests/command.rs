use jonah::command::Command;

fn cmd(program: &str, args: &[&str], cwd: Option<&str>) -> Command {
    Command {
        program: program.to_string(),
        args: args.iter().map(|a| a.to_string()).collect(),
        cwd: cwd.map(|d| d.to_string()),
    }
}

#[test]
fn git_clone_is_shallow() {
    assert_eq!(
        Command::git_clone("https://h/r.git", "/tmp/jonah/r"),
        cmd("git", &["clone", "https://h/r.git", "/tmp/jonah/r", "--depth", "1"], None)
    );
}

#[test]
fn git_fetch_and_reset_run_in_the_clone() {
    assert_eq!(
        Command::git_fetch("/tmp/jonah/r"),
        cmd("git", &["fetch", "--depth", "1", "origin"], Some("/tmp/jonah/r"))
    );
    assert_eq!(
        Command::git_reset("/tmp/jonah/r"),
        cmd("git", &["reset", "--hard", "origin/HEAD"], Some("/tmp/jonah/r"))
    );
}

#[test]
fn docker_commands() {
    assert_eq!(
        Command::docker_build("img", "Dockerfile", "proj"),
        cmd("docker", &["build", "-t", "img", "-f", "Dockerfile", "."], Some("proj"))
    );
    assert_eq!(Command::docker_create("img"), cmd("docker", &["create", "img"], None));
    assert_eq!(
        Command::docker_copy("abc", "/app/bin", "out/bin"),
        cmd("docker", &["cp", "abc:/app/bin", "out/bin"], None)
    );
    assert_eq!(Command::docker_remove("abc"), cmd("docker", &["rm", "abc"], None));
}
