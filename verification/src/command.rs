//! The external commands of the task, as plain data. A command names the
//! directory it runs in, so nothing depends on the directory the process
//! happens to be in.

use vstd::prelude::*;
use vstd::string::*;
use crate::paths::{join, joined};
use crate::pin::{BUILD_CACHE_FLAG, BUILD_TOOL, CHECKOUT, RELEASE, REPOSITORY};

verus! {

/// One invocation of an external program.
#[derive(Clone, Debug, PartialEq, Eq)]
pub struct Command {
    /// Directory the program is started in.
    pub dir: String,
    /// The program.
    pub program: String,
    /// Its arguments, in order.
    pub args: Vec<String>,
    /// Whether what it prints on standard output is discarded.
    pub quiet_stdout: bool,
    /// Whether what it prints on standard error is discarded.
    pub quiet_stderr: bool,
}

/// What a `Command` holds, as mathematical values.
pub struct CommandView {
    pub dir: Seq<char>,
    pub program: Seq<char>,
    pub args: Seq<Seq<char>>,
    pub quiet_stdout: bool,
    pub quiet_stderr: bool,
}

impl View for Command {
    type V = CommandView;

    open spec fn view(&self) -> CommandView {
        CommandView {
            dir: self.dir@,
            program: self.program@,
            args: self.args.deep_view(),
            quiet_stdout: self.quiet_stdout,
            quiet_stderr: self.quiet_stderr,
        }
    }
}

/// Root of the fetched tree inside `workspace`.
pub open spec fn checkout_of(workspace: Seq<char>) -> Seq<char> {
    joined(workspace, CHECKOUT@)
}

/// The fetch: a shallow clone of the pinned release, started in
/// `workspace`, with both output streams discarded.
pub open spec fn fetch_of(workspace: Seq<char>) -> CommandView {
    CommandView {
        dir: workspace,
        program: "git"@,
        args: seq![
            "clone"@,
            "--quiet"@,
            "--depth"@,
            "1"@,
            "--branch"@,
            RELEASE@,
            REPOSITORY@,
        ],
        quiet_stdout: true,
        quiet_stderr: true,
    }
}

/// One run of the fetched project's build tool for `target`, started at the
/// root `tree` of the fetched sources, with the build cache on. Standard
/// output is discarded; standard error stays visible.
pub open spec fn build_of(tree: Seq<char>, target: Seq<char>) -> CommandView {
    CommandView {
        dir: tree,
        program: BUILD_TOOL@,
        args: seq![target, BUILD_CACHE_FLAG@],
        quiet_stdout: true,
        quiet_stderr: false,
    }
}

/// The recursive copy of the directory `entry` of the fetched tree into
/// `destination`, started at the root `tree` of the fetched sources.
pub open spec fn copy_of(tree: Seq<char>, entry: Seq<char>, destination: Seq<char>) -> CommandView {
    CommandView {
        dir: tree,
        program: "cp"@,
        args: seq!["-R"@, "./"@ + entry, destination],
        quiet_stdout: true,
        quiet_stderr: false,
    }
}

/// The index listing of the fetched tree rooted at `tree`: every tracked
/// file with the hash of its content.
pub open spec fn listing_of(tree: Seq<char>) -> CommandView {
    CommandView {
        dir: tree,
        program: "git"@,
        args: seq!["ls-files"@, "-s"@, "./"@],
        quiet_stdout: false,
        quiet_stderr: false,
    }
}

/// Computes the root of the fetched tree inside `workspace`.
pub fn checkout(workspace: &str) -> (res: String)
    ensures
        res@ == checkout_of(workspace@),
{
    join(workspace, CHECKOUT)
}

/// Builds the command that fetches the pinned release into `workspace`.
pub fn fetch(workspace: &str) -> (res: Command)
    ensures
        res@ == fetch_of(workspace@),
{
    let mut args: Vec<String> = Vec::new();
    args.push(String::from_str("clone"));
    args.push(String::from_str("--quiet"));
    args.push(String::from_str("--depth"));
    args.push(String::from_str("1"));
    args.push(String::from_str("--branch"));
    args.push(String::from_str(RELEASE));
    args.push(String::from_str(REPOSITORY));
    assert(args.deep_view() =~= fetch_of(workspace@).args);
    Command {
        dir: String::from_str(workspace),
        program: String::from_str("git"),
        args,
        quiet_stdout: true,
        quiet_stderr: true,
    }
}

/// Builds the command that runs the build tool for `target` in `tree`.
pub fn build(tree: &str, target: &str) -> (res: Command)
    ensures
        res@ == build_of(tree@, target@),
{
    let mut args: Vec<String> = Vec::new();
    args.push(String::from_str(target));
    args.push(String::from_str(BUILD_CACHE_FLAG));
    assert(args.deep_view() =~= build_of(tree@, target@).args);
    Command {
        dir: String::from_str(tree),
        program: String::from_str(BUILD_TOOL),
        args,
        quiet_stdout: true,
        quiet_stderr: false,
    }
}

/// Builds the command that copies `entry` of the fetched tree `tree` into
/// `destination`.
pub fn copy(tree: &str, entry: &str, destination: &str) -> (res: Command)
    ensures
        res@ == copy_of(tree@, entry@, destination@),
{
    let mut source = String::from_str("./");
    source.append(entry);
    let mut args: Vec<String> = Vec::new();
    args.push(String::from_str("-R"));
    args.push(source);
    args.push(String::from_str(destination));
    assert(args.deep_view() =~= copy_of(tree@, entry@, destination@).args);
    Command {
        dir: String::from_str(tree),
        program: String::from_str("cp"),
        args,
        quiet_stdout: true,
        quiet_stderr: false,
    }
}

/// Builds the command that lists the index of the fetched tree `tree`.
pub fn listing(tree: &str) -> (res: Command)
    ensures
        res@ == listing_of(tree@),
{
    let mut args: Vec<String> = Vec::new();
    args.push(String::from_str("ls-files"));
    args.push(String::from_str("-s"));
    args.push(String::from_str("./"));
    assert(args.deep_view() =~= listing_of(tree@).args);
    Command {
        dir: String::from_str(tree),
        program: String::from_str("git"),
        args,
        quiet_stdout: false,
        quiet_stderr: false,
    }
}

} // verus!
