use containerization_framework::Error;

#[test]
fn says_what_was_attempted_and_what_it_said() {
    assert_eq!(
        Error::failed("boot session-one", "no kernel at /nowhere").to_string(),
        "could not boot session-one: no kernel at /nowhere"
    );
    assert_eq!(
        Error::unavailable("read the image store", "it has never been provisioned").to_string(),
        "cannot read the image store: it has never been provisioned"
    );
}

#[test]
fn names_the_action_without_its_message() {
    assert_eq!(Error::failed("boot session-one", "nope").action(), "boot session-one");
}

#[test]
fn an_unavailable_error_names_its_action_too() {
    assert_eq!(Error::unavailable("read the image store", "gone").action(), "read the image store");
}

#[test]
fn keeps_the_message_whole() {
    let error = Error::failed("exec", "exited: 137: killed");
    assert_eq!(
        error,
        Error::Failed {
            action: "exec".to_string(),
            message: "exited: 137: killed".to_string()
        }
    );
    assert_eq!(error.to_string(), "could not exec: exited: 137: killed");
}
