//! How the `opencode` process is started and spoken to.

use std::collections::HashMap;
use std::path::PathBuf;

use vstd::prelude::*;
use vstd::string::*;

verus! {

/// A path in the file system, which is carried through as it is.
#[verifier::external_type_specification]
#[verifier::external_body]
pub struct ExPathBuf(PathBuf);

/// What process to start.
pub struct CliSpawnConfig {
    pub executable: PathBuf,
    pub args: Vec<String>,
    pub cwd: Option<PathBuf>,
    pub env: HashMap<String, String>,
}

/// `PathBuf`'s `clone` gives the same path.
pub assume_specification[ <PathBuf as Clone>::clone ](path: &PathBuf) -> (copy: PathBuf)
    ensures
        copy == *path,
;

impl Clone for CliSpawnConfig {
    fn clone(&self) -> (copy: CliSpawnConfig)
        ensures
            copy.executable == self.executable,
            copy.args@ == self.args@,
            copy.cwd == self.cwd,
            copy.env@ == self.env@,
    {
        let args = self.args.clone();
        assert(args@ =~= self.args@);
        CliSpawnConfig {
            executable: self.executable.clone(),
            args,
            cwd: self.cwd.clone(),
            env: self.env.clone(),
        }
    }
}

/// The name of the executable.
pub const EXECUTABLE_NAME: &'static str = "opencode";

/// The process that answers `message`.
pub fn chat_config(executable: PathBuf, message: String) -> (config: CliSpawnConfig)
    ensures
        config.executable == executable,
        config.args.deep_view() == seq!["--json"@, "chat"@, message@],
        config.cwd is None,
        config.env@ == Map::<String, String>::empty(),
{
    let mut args: Vec<String> = Vec::new();
    args.push("--json".to_owned());
    args.push("chat".to_owned());
    args.push(message);
    assert(args.deep_view() =~= seq!["--json"@, "chat"@, message@]);
    CliSpawnConfig { executable, args, cwd: None, env: HashMap::new() }
}

/// The arguments that make the executable list its models.
pub fn model_listing_args() -> (args: Vec<String>)
    ensures
        args.deep_view() == seq!["--json"@, "models"@],
{
    let mut args: Vec<String> = Vec::new();
    args.push("--json".to_owned());
    args.push("models".to_owned());
    assert(args.deep_view() =~= seq!["--json"@, "models"@]);
    args
}

/// The arguments that make the executable print its version.
pub fn version_args() -> (args: Vec<String>)
    ensures
        args.deep_view() == seq!["--version"@],
{
    let mut args: Vec<String> = Vec::new();
    args.push("--version".to_owned());
    assert(args.deep_view() =~= seq!["--version"@]);
    args
}

/// What is written to the process for one line: the line and a line feed.
pub fn line_bytes(line: &str) -> (bytes: Vec<u8>)
    ensures
        bytes@ == line.spec_bytes().push(10u8),
{
    let mut bytes = line.as_bytes_vec();
    bytes.push(10u8);
    bytes
}

/// What came of running the executable to its end.
#[derive(Debug, Clone)]
pub enum CommandOutcome {
    /// There is no executable.
    NotFound,
    /// The executable, at this path, could not be run, for the reason that the system gave.
    NotExecuted { executable: String, reason: String },
    /// The executable ended, with this status, and has printed `stdout`.
    Exited { success: bool, status: String, stdout: Vec<u8> },
}

/// The contents of a [`CommandOutcome`].
pub enum OutcomeView {
    NotFound,
    NotExecuted { executable: Seq<char>, reason: Seq<char> },
    Exited { success: bool, status: Seq<char>, stdout: Seq<u8> },
}

impl DeepView for CommandOutcome {
    type V = OutcomeView;

    open spec fn deep_view(&self) -> OutcomeView {
        match *self {
            CommandOutcome::NotFound => OutcomeView::NotFound,
            CommandOutcome::NotExecuted { executable, reason } => OutcomeView::NotExecuted {
                executable: executable@,
                reason: reason@,
            },
            CommandOutcome::Exited { success, status, stdout } => OutcomeView::Exited {
                success,
                status: status@,
                stdout: stdout@,
            },
        }
    }
}

} // verus!
