use lostpixel_backend::host::ProcessOutput;
use lostpixel_backend::status::{check_git_status, status_command};

#[test]
fn status_command_is_git_status_porcelain_in_the_folder() {
    let command = status_command("/work/repo".to_string());
    assert_eq!(command.program, "git");
    assert_eq!(
        command.args,
        vec!["status".to_string(), "--porcelain".to_string()]
    );
    assert_eq!(command.working_dir, Some("/work/repo".to_string()));
}

#[test]
fn status_command_takes_the_path_as_it_is() {
    let command = status_command("".to_string());
    assert_eq!(command.working_dir, Some("".to_string()));
    let command = status_command("does/not exist".to_string());
    assert_eq!(command.working_dir, Some("does/not exist".to_string()));
}

#[test]
fn status_of_one_untracked_file() {
    let reply = check_git_status(Ok(ProcessOutput {
        exit_code: Some(0),
        stdout: b"?? a.txt\n".to_vec(),
    }));
    let text = reply.unwrap();
    assert_eq!(text, "?? a.txt\n");
    assert!(text.lines().any(|line| line == "?? a.txt"));
}

#[test]
fn status_of_a_clean_repository_is_empty_text() {
    let reply = check_git_status(Ok(ProcessOutput {
        exit_code: Some(0),
        stdout: Vec::new(),
    }));
    assert_eq!(reply, Ok(String::new()));
}

#[test]
fn status_is_returned_whatever_the_exit_code() {
    let failed = check_git_status(Ok(ProcessOutput {
        exit_code: Some(128),
        stdout: b" M src/lib.rs\n".to_vec(),
    }));
    assert_eq!(failed, Ok(" M src/lib.rs\n".to_string()));
    let killed = check_git_status(Ok(ProcessOutput {
        exit_code: None,
        stdout: Vec::new(),
    }));
    assert_eq!(killed, Ok(String::new()));
}

#[test]
fn status_is_not_parsed_or_trimmed() {
    let raw = b" M a.png\nA  b.jpg\n?? c d.jpeg\n\n".to_vec();
    let reply = check_git_status(Ok(ProcessOutput {
        exit_code: Some(0),
        stdout: raw,
    }));
    assert_eq!(reply, Ok(" M a.png\nA  b.jpg\n?? c d.jpeg\n\n".to_string()));
}

#[test]
fn status_keeps_text_beyond_ascii() {
    let reply = check_git_status(Ok(ProcessOutput {
        exit_code: Some(0),
        stdout: "?? żółw.png\n".as_bytes().to_vec(),
    }));
    assert_eq!(reply, Ok("?? żółw.png\n".to_string()));
}

#[test]
fn status_replaces_malformed_bytes() {
    let reply = check_git_status(Ok(ProcessOutput {
        exit_code: Some(0),
        stdout: vec![b'?', b'?', b' ', 0xff, b'.', b't', b'x', b't', b'\n'],
    }));
    assert_eq!(reply, Ok("?? \u{FFFD}.txt\n".to_string()));
}

#[test]
fn status_that_could_not_be_started_gives_the_reason() {
    let reply = check_git_status(Err("No such file or directory (os error 2)".to_string()));
    assert_eq!(
        reply,
        Err("No such file or directory (os error 2)".to_string())
    );
}
