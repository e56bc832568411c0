use containerization_framework::{Stdio, UNATTACHED};

#[test]
fn attaches_a_terminal_and_leaves_the_plain_streams_alone() {
    let stdio = Stdio::terminal(7, 9);

    assert!(stdio.has_terminal());
    assert_eq!(stdio.stdout, 9);
    assert_eq!(stdio.stdin, UNATTACHED);
    assert_eq!(stdio.stderr, UNATTACHED);
}

#[test]
fn leaves_out_stdin_for_a_process_that_reads_none() {
    assert_eq!(Stdio::inherit(false).stdin, UNATTACHED);
    assert_eq!(Stdio::inherit(true).stdin, libc::STDIN_FILENO);
}

#[test]
fn nothing_is_attached_to_nothing() {
    assert_eq!(
        Stdio::nothing(),
        Stdio {
            terminal: UNATTACHED,
            stdin: UNATTACHED,
            stdout: UNATTACHED,
            stderr: UNATTACHED,
        }
    );
}

#[test]
fn inherits_this_process_s_output_streams() {
    let stdio = Stdio::inherit(true);
    assert_eq!(stdio.stdout, libc::STDOUT_FILENO);
    assert_eq!(stdio.stderr, libc::STDERR_FILENO);
    assert!(!stdio.has_terminal());
    assert!(!Stdio::nothing().has_terminal());
}
