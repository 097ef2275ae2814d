//! The plain values that the library and its host hand to each other.
//!
//! The host is whatever program sits around the library: it starts the
//! commands that the library describes and reports back what happened. A
//! start that fails is reported as text, the operating system's own message.

use vstd::prelude::*;

verus! {

/// A program to start, the arguments to start it with, and where.
#[derive(Debug, PartialEq, Eq)]
pub struct Command {
    /// The program's name, looked up on the search path.
    pub program: String,
    /// The arguments, in order, without the program's name.
    pub args: Vec<String>,
    /// The directory to start the program in. `None` leaves it to the
    /// process: the program starts in the working directory that the process
    /// has at that moment.
    pub working_dir: Option<String>,
}

/// What a [`Command`] is, as sequences of characters.
pub struct CommandView {
    pub program: Seq<char>,
    pub args: Seq<Seq<char>>,
    pub working_dir: Option<Seq<char>>,
}

impl View for Command {
    type V = CommandView;

    open spec fn view(&self) -> CommandView {
        CommandView {
            program: self.program@,
            args: self.args.deep_view(),
            working_dir: match self.working_dir {
                Some(dir) => Some(dir@),
                None => None,
            },
        }
    }
}

/// What a program left behind once it had been started and had run to its
/// end. Its standard error is not part of it: nothing here reads that.
#[derive(Debug, PartialEq, Eq)]
pub struct ProcessOutput {
    /// The exit code; `None` where the program was ended by a signal.
    pub exit_code: Option<i32>,
    /// Everything the program wrote to its standard output.
    pub stdout: Vec<u8>,
}

/// What a [`ProcessOutput`] is, with the output as a sequence of bytes.
pub struct ProcessOutputView {
    pub exit_code: Option<i32>,
    pub stdout: Seq<u8>,
}

impl View for ProcessOutput {
    type V = ProcessOutputView;

    open spec fn view(&self) -> ProcessOutputView {
        ProcessOutputView { exit_code: self.exit_code, stdout: self.stdout@ }
    }
}

/// What a reply to the caller is, as sequences of characters: the text of the
/// answer, or the text of the error.
pub open spec fn reply_view(reply: Result<String, String>) -> Result<Seq<char>, Seq<char>> {
    match reply {
        Ok(text) => Ok(text@),
        Err(message) => Err(message@),
    }
}

/// The command `git` with the arguments `args`, started in `working_dir`.
pub open spec fn git_command(args: Seq<Seq<char>>, working_dir: Option<Seq<char>>) -> CommandView {
    CommandView { program: "git"@, args, working_dir }
}

/// Builds the command `git` with the arguments `args`, to be started in
/// `working_dir`.
pub fn git(args: Vec<String>, working_dir: Option<String>) -> (command: Command)
    ensures
        command@ == git_command(
            args.deep_view(),
            match working_dir {
                Some(dir) => Some(dir@),
                None => None,
            },
        ),
{
    Command { program: "git".to_owned(), args, working_dir }
}

} // verus!
