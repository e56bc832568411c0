use containerization_framework::{
    checked, unsupported, BootSpec, Direction, Error, ExecRequest, Index, Mount, Network, Reply,
    Resources, Session, SocketRelay, Stdio, Store,
    INITFS_REFERENCE, UNATTACHED,
};

fn failed(message: &str) -> Reply {
    Reply {
        code: -1,
        last_error: message.to_string(),
    }
}

fn answered(code: i32) -> Reply {
    Reply {
        code,
        last_error: String::new(),
    }
}

fn network() -> Network {
    Network {
        ipv4_address: "192.168.64.7/24".to_string(),
        ipv4_gateway: "192.168.64.1".to_string(),
    }
}

#[test]
fn hands_the_bridge_a_boot_spec_as_scalars() {
    let session = Session::new(Store::at("/store"));
    let mut spec = BootSpec::new(
        "example",
        "docker.io/library/debian:stable-slim",
        Resources {
            cpus: 4,
            memory_in_bytes: 4 << 30,
        },
        network(),
    );
    spec.arguments = vec!["/bin/sleep".to_string(), "infinity".to_string()];
    spec.environment = vec!["A=1".to_string(), "B=2".to_string()];
    spec.mounts = vec![Mount {
        readonly: true,
        source: "/host".to_string(),
        target: "/guest".to_string(),
    }];
    spec.sockets = vec![SocketRelay {
        direction: Direction::OutOfGuest,
        ..SocketRelay::into_guest("/h.sock", "/g.sock")
    }];

    let call = session.boot_call(&spec);
    assert_eq!(call.name, "example");
    assert_eq!(call.store_root, "/store");
    assert_eq!(call.kernel_path, "/store/kernels/default.kernel-arm64");
    assert_eq!(call.initfs_reference, INITFS_REFERENCE);
    assert_eq!(call.image_reference, "docker.io/library/debian:stable-slim");
    assert_eq!(call.cpus, 4);
    assert_eq!(call.memory_in_bytes, 4 << 30);
    assert_eq!(call.rootfs_capacity_in_bytes, BootSpec::DEFAULT_ROOTFS_CAPACITY_IN_BYTES);
    assert_eq!(call.mounts, "/host\t/guest\tro");
    assert_eq!(call.sockets, "/h.sock\t/g.sock\t666\toutof");
    assert_eq!(call.environment, "A=1\nB=2");
    assert_eq!(call.arguments, "/bin/sleep\ninfinity");
    assert_eq!(call.working_directory, "/");
    assert_eq!(call.ipv4_address, "192.168.64.7/24");
    assert_eq!(call.ipv4_gateway, "192.168.64.1");
}

#[test]
fn names_a_failed_boot_after_its_container() {
    let session = Session::new(Store::at("/store"));
    let spec = BootSpec::new(
        "session-one",
        "i",
        Resources {
            cpus: 1,
            memory_in_bytes: 1,
        },
        network(),
    );
    assert_eq!(
        session.boot(&spec, &failed("no kernel at /nowhere")).map_err(|error| error.to_string()),
        Err("could not boot session-one: no kernel at /nowhere".to_string())
    );
    assert_eq!(session.boot(&spec, &answered(0)), Ok(()));
}

#[test]
fn hands_the_bridge_an_exec_request() {
    let session = Session::new(Store::at("/store"));
    let mut request = ExecRequest::new(
        "example",
        "hello",
        vec!["/bin/echo".to_string(), "hello".to_string()],
        Stdio::terminal(5, 6),
    );
    let call = session.exec_call(&request);
    assert_eq!(call.name, "example");
    assert_eq!(call.id, "hello");
    assert_eq!(call.arguments, "/bin/echo\nhello");
    assert_eq!(call.environment, "");
    assert_eq!(call.user, "");
    assert_eq!(call.working_directory, "/");
    assert_eq!(call.term, "xterm");
    assert_eq!((call.terminal, call.stdin, call.stdout, call.stderr), (5, UNATTACHED, 6, UNATTACHED));

    request.user = Some("app".to_string());
    request.workdir = Some("/workspace".to_string());
    request.term = None;
    let call = session.exec_call(&request);
    assert_eq!(call.user, "app");
    assert_eq!(call.working_directory, "/workspace");
    assert_eq!(call.term, "");
}

#[test]
fn passes_exit_codes_through() {
    let session = Session::new(Store::at("/store"));
    for code in [0, 1, 3, 255] {
        assert_eq!(session.exec(&answered(code)), Ok(code));
        assert_eq!(checked(&answered(code)), Ok(code));
    }
    assert_eq!(session.exec(&failed("gone")), Err(Error::failed("exec", "gone")));
    assert_eq!(checked(&failed("gone")), Err("gone".to_string()));
}

#[test]
fn reads_the_other_answers() {
    let session = Session::new(Store::at("/store"));
    assert_eq!(session.is_unpacked(&answered(1)), Ok(true));
    assert_eq!(session.is_unpacked(&answered(0)), Ok(false));
    assert_eq!(
        session.is_unpacked(&failed("no index")),
        Err(Error::failed("find the image", "no index"))
    );
    assert_eq!(session.resize("tty-1", &answered(0)), Ok(()));
    assert_eq!(
        session.resize("tty-1", &failed("gone")),
        Err(Error::failed("resize tty-1", "gone"))
    );
    assert_eq!(session.images(&Index::Absent), Ok(Vec::new()));
    assert_eq!(session.store(), &Store::at("/store"));
}

#[test]
fn names_both_pinned_versions() {
    assert_eq!(Session::version(), "Containerization 0.45.0, kernel 3.17.0");
}

#[test]
fn says_why_nothing_runs_without_the_framework() {
    assert_eq!(
        unsupported().to_string(),
        "cannot use Containerization.framework: it is macOS only"
    );
    assert_eq!(unsupported().action(), "use Containerization.framework");
}

#[test]
fn boot_spec_starts_with_nothing_attached() {
    let spec = BootSpec::new(
        "n",
        "i",
        Resources {
            cpus: 2,
            memory_in_bytes: 3,
        },
        network(),
    );
    assert!(spec.arguments.is_empty() && spec.environment.is_empty());
    assert!(spec.mounts.is_empty() && spec.sockets.is_empty());
    assert_eq!(spec.workdir, None);
    assert_eq!(spec.rootfs_capacity_in_bytes, 8 * 1024 * 1024 * 1024);
}
