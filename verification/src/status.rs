//! Reading the state of a repository with `git status --porcelain`.
//!
//! The host starts the command, waits for it, and hands over what it wrote
//! to its standard output, or the reason why it could not be started. The
//! reply is that output as text, unchanged and unparsed. The exit code plays
//! no part: a `git` that ran and reported failure still gives its output,
//! which may be empty. What it wrote to its standard error is never seen.

use vstd::prelude::*;
use vstd::utf8::{decode_utf8, valid_utf8};
use crate::host::{git, git_command, reply_view, Command, CommandView, ProcessOutput, ProcessOutputView};

verus! {

/// The text that `bytes` decode to when they are read as UTF-8 and every
/// malformed sequence among them is replaced by U+FFFD, the replacement
/// character.
pub uninterp spec fn lossy_text(bytes: Seq<u8>) -> Seq<char>;

/// Decodes `bytes` with `String::from_utf8_lossy` of the standard library.
///
/// Taken on trust: the result is the lossy decoding of the bytes, a function
/// of the bytes alone; and bytes that are well-formed UTF-8 decode to
/// exactly the text that they encode, with nothing replaced.
#[verifier::external_body]
fn decode_lossy(bytes: &Vec<u8>) -> (text: String)
    ensures
        text@ == lossy_text(bytes@),
        valid_utf8(bytes@) ==> text@ == decode_utf8(bytes@),
{
    String::from_utf8_lossy(bytes).into_owned()
}

/// What the outcome of a start is, as sequences: what the program left
/// behind, or the reason why it could not be started.
pub open spec fn outcome_view(outcome: Result<ProcessOutput, String>) -> Result<
    ProcessOutputView,
    Seq<char>,
> {
    match outcome {
        Ok(output) => Ok(output@),
        Err(reason) => Err(reason@),
    }
}

/// The command that reads the state of the repository in `folder_path`:
/// `git status --porcelain`, started in that folder.
pub open spec fn status_query(folder_path: Seq<char>) -> CommandView {
    git_command(seq!["status"@, "--porcelain"@], Some(folder_path))
}

/// The reply to a request for the state of a repository, given the outcome
/// of the command: the lossy decoding of its standard output, whatever its
/// exit code, or the reason why it could not be started.
pub open spec fn status_reply(outcome: Result<ProcessOutputView, Seq<char>>) -> Result<
    Seq<char>,
    Seq<char>,
> {
    match outcome {
        Ok(output) => Ok(lossy_text(output.stdout)),
        Err(reason) => Err(reason),
    }
}

/// The command that reads the state of the repository in `folder_path`.
/// The path is taken as it is: whether the folder exists shows when the host
/// starts the command.
pub fn status_command(folder_path: String) -> (command: Command)
    ensures
        command@ == status_query(folder_path@),
{
    let mut args: Vec<String> = Vec::new();
    args.push("status".to_owned());
    args.push("--porcelain".to_owned());
    assert(args.deep_view() =~= seq!["status"@, "--porcelain"@]);
    git(args, Some(folder_path))
}

/// Answers a request for the state of a repository from the outcome of
/// [`status_command`]. Output that is well-formed UTF-8, as `git` writes it
/// for paths in plain letters, comes back letter for letter.
pub fn check_git_status(outcome: Result<ProcessOutput, String>) -> (reply: Result<String, String>)
    ensures
        reply_view(reply) == status_reply(outcome_view(outcome)),
        outcome matches Ok(output) ==> (valid_utf8(output.stdout@) ==> reply_view(reply) == Ok::<
            Seq<char>,
            Seq<char>,
        >(decode_utf8(output.stdout@))),
{
    match outcome {
        Ok(output) => Ok(decode_lossy(&output.stdout)),
        Err(reason) => Err(reason),
    }
}

} // verus!
