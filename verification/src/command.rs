//! The external commands that a run asks its caller to execute.

use vstd::prelude::*;
use vstd::string::*;

verus! {

/// A program to run, with its arguments and the directory to run it in.
#[derive(Debug, Clone, PartialEq, Eq)]
pub struct Command {
    pub program: String,
    pub args: Vec<String>,
    /// `None` runs the program in the caller's current directory.
    pub cwd: Option<String>,
}

pub struct CommandView {
    pub program: Seq<char>,
    pub args: Seq<Seq<char>>,
    pub cwd: Option<Seq<char>>,
}

/// The characters of each string of a sequence.
pub open spec fn strings_view(v: Seq<String>) -> Seq<Seq<char>> {
    Seq::new(v.len(), |i: int| v[i]@)
}

impl View for Command {
    type V = CommandView;

    open spec fn view(&self) -> CommandView {
        CommandView {
            program: self.program@,
            args: strings_view(self.args@),
            cwd: match self.cwd {
                Some(d) => Some(d@),
                None => None,
            },
        }
    }
}

/// `git clone <url> <dir> --depth 1`
pub open spec fn spec_git_clone(url: Seq<char>, dir: Seq<char>) -> CommandView {
    CommandView {
        program: "git"@,
        args: seq!["clone"@, url, dir, "--depth"@, "1"@],
        cwd: None,
    }
}

/// `git fetch --depth 1 origin`, run inside `dir`
pub open spec fn spec_git_fetch(dir: Seq<char>) -> CommandView {
    CommandView {
        program: "git"@,
        args: seq!["fetch"@, "--depth"@, "1"@, "origin"@],
        cwd: Some(dir),
    }
}

/// `git reset --hard origin/HEAD`, run inside `dir`
pub open spec fn spec_git_reset(dir: Seq<char>) -> CommandView {
    CommandView {
        program: "git"@,
        args: seq!["reset"@, "--hard"@, "origin/HEAD"@],
        cwd: Some(dir),
    }
}

/// `docker build -t <image> -f <file> .`, run inside `context`
pub open spec fn spec_docker_build(
    image: Seq<char>,
    file: Seq<char>,
    context: Seq<char>,
) -> CommandView {
    CommandView {
        program: "docker"@,
        args: seq!["build"@, "-t"@, image, "-f"@, file, "."@],
        cwd: Some(context),
    }
}

/// `docker create <image>`
pub open spec fn spec_docker_create(image: Seq<char>) -> CommandView {
    CommandView { program: "docker"@, args: seq!["create"@, image], cwd: None }
}

/// `docker cp <container>:<path> <destination>`
pub open spec fn spec_docker_copy(
    container: Seq<char>,
    path: Seq<char>,
    destination: Seq<char>,
) -> CommandView {
    CommandView {
        program: "docker"@,
        args: seq!["cp"@, container + seq![':'] + path, destination],
        cwd: None,
    }
}

/// `docker rm <container>`
pub open spec fn spec_docker_remove(container: Seq<char>) -> CommandView {
    CommandView { program: "docker"@, args: seq!["rm"@, container], cwd: None }
}

impl Command {
    /// A shallow clone of `url` into `dir`.
    pub fn git_clone(url: &str, dir: &str) -> (c: Command)
        ensures
            c@ == spec_git_clone(url@, dir@),
    {
        let mut args: Vec<String> = Vec::new();
        args.push(String::from_str("clone"));
        args.push(String::from_str(url));
        args.push(String::from_str(dir));
        args.push(String::from_str("--depth"));
        args.push(String::from_str("1"));
        let c = Command { program: String::from_str("git"), args, cwd: None };
        assert(c@.args =~= spec_git_clone(url@, dir@).args);
        c
    }

    /// A shallow fetch of the default remote inside `dir`.
    pub fn git_fetch(dir: &str) -> (c: Command)
        ensures
            c@ == spec_git_fetch(dir@),
    {
        let mut args: Vec<String> = Vec::new();
        args.push(String::from_str("fetch"));
        args.push(String::from_str("--depth"));
        args.push(String::from_str("1"));
        args.push(String::from_str("origin"));
        let c = Command {
            program: String::from_str("git"),
            args,
            cwd: Some(String::from_str(dir)),
        };
        assert(c@.args =~= spec_git_fetch(dir@).args);
        c
    }

    /// A hard reset of the checkout in `dir` to the fetched head.
    pub fn git_reset(dir: &str) -> (c: Command)
        ensures
            c@ == spec_git_reset(dir@),
    {
        let mut args: Vec<String> = Vec::new();
        args.push(String::from_str("reset"));
        args.push(String::from_str("--hard"));
        args.push(String::from_str("origin/HEAD"));
        let c = Command {
            program: String::from_str("git"),
            args,
            cwd: Some(String::from_str(dir)),
        };
        assert(c@.args =~= spec_git_reset(dir@).args);
        c
    }

    /// An image build from the definition `file`, with `context` as its root.
    pub fn docker_build(image: &str, file: &str, context: &str) -> (c: Command)
        ensures
            c@ == spec_docker_build(image@, file@, context@),
    {
        let mut args: Vec<String> = Vec::new();
        args.push(String::from_str("build"));
        args.push(String::from_str("-t"));
        args.push(String::from_str(image));
        args.push(String::from_str("-f"));
        args.push(String::from_str(file));
        args.push(String::from_str("."));
        let c = Command {
            program: String::from_str("docker"),
            args,
            cwd: Some(String::from_str(context)),
        };
        assert(c@.args =~= spec_docker_build(image@, file@, context@).args);
        c
    }

    /// The creation of a container from `image`, without starting it.
    pub fn docker_create(image: &str) -> (c: Command)
        ensures
            c@ == spec_docker_create(image@),
    {
        let mut args: Vec<String> = Vec::new();
        args.push(String::from_str("create"));
        args.push(String::from_str(image));
        let c = Command { program: String::from_str("docker"), args, cwd: None };
        assert(c@.args =~= spec_docker_create(image@).args);
        c
    }

    /// The copy of `path` out of `container` to `destination` on the host.
    pub fn docker_copy(container: &str, path: &str, destination: &str) -> (c: Command)
        ensures
            c@ == spec_docker_copy(container@, path@, destination@),
    {
        let mut source = String::from_str(container);
        source.append(":");
        source.append(path);
        proof {
            reveal_strlit(":");
            assert(":"@ =~= seq![':']);
        }
        let mut args: Vec<String> = Vec::new();
        args.push(String::from_str("cp"));
        args.push(source);
        args.push(String::from_str(destination));
        let c = Command { program: String::from_str("docker"), args, cwd: None };
        assert(c@.args =~= spec_docker_copy(container@, path@, destination@).args);
        c
    }

    /// The removal of `container`.
    pub fn docker_remove(container: &str) -> (c: Command)
        ensures
            c@ == spec_docker_remove(container@),
    {
        let mut args: Vec<String> = Vec::new();
        args.push(String::from_str("rm"));
        args.push(String::from_str(container));
        let c = Command { program: String::from_str("docker"), args, cwd: None };
        assert(c@.args =~= spec_docker_remove(container@).args);
        c
    }
}

} // verus!
