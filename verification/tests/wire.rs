use containerization_framework::model::{Direction, Mount, SocketRelay};
use containerization_framework::wire::{lines, mounts, sockets, working_directory};

fn strings(values: &[&str]) -> Vec<String> {
    values.iter().map(|value| value.to_string()).collect()
}

#[test]
fn writes_mounts_in_declared_order_with_their_mode() {
    let declared = vec![
        Mount {
            readonly: false,
            source: "/Users/user/workspace".to_string(),
            target: "/workspace".to_string(),
        },
        Mount {
            readonly: true,
            source: "/Users/user/.cargo/registry".to_string(),
            target: "/Users/user/.cargo/registry".to_string(),
        },
    ];

    assert_eq!(
        lines(&mounts(&declared)),
        "/Users/user/workspace\t/workspace\trw\n/Users/user/.cargo/registry\t/Users/user/.cargo/registry\tro"
    );
}

#[test]
fn writes_no_mounts_as_nothing_at_all() {
    assert_eq!(lines(&mounts(&vec![])), "");
    assert_eq!(lines(&vec![]), "");
    assert_eq!(lines(&sockets(&vec![])), "");
}

#[test]
fn works_in_the_root_unless_told_otherwise() {
    assert_eq!(working_directory(None), "/");
    assert_eq!(working_directory(Some("/workspace")), "/workspace");
}

#[test]
fn writes_a_relayed_socket_with_its_mode_and_direction() {
    let declared = vec![SocketRelay::into_guest(
        "/state/ports/7001.sock",
        "/run/session/ports/7001.sock",
    )];

    assert_eq!(
        sockets(&declared),
        ["/state/ports/7001.sock\t/run/session/ports/7001.sock\t666\tinto"]
    );
}

#[test]
fn writes_the_direction_a_socket_is_reached_from() {
    let out = SocketRelay {
        direction: Direction::OutOfGuest,
        mode: 0o600,
        ..SocketRelay::into_guest("/host.sock", "/guest.sock")
    };

    assert_eq!(sockets(&vec![out]), ["/host.sock\t/guest.sock\t600\toutof"]);
}

#[test]
fn lines_split_back_into_their_values() {
    let values = strings(&["/bin/sh", "-c", "echo hi", ""]);
    let text = lines(&values);
    assert_eq!(text.split('\n').map(str::to_string).collect::<Vec<_>>(), values);
}

#[test]
fn a_mount_line_carries_three_fields() {
    let mount = Mount {
        readonly: true,
        source: "/a b".to_string(),
        target: "/c".to_string(),
    };
    let line = &mounts(&vec![mount])[0];
    assert_eq!(line.split('\t').collect::<Vec<_>>(), ["/a b", "/c", "ro"]);
}

#[test]
fn a_socket_mode_reads_back_in_octal() {
    for mode in [0u32, 0o7, 0o10, 0o644, 0o777, u32::MAX] {
        let socket = SocketRelay {
            mode,
            ..SocketRelay::into_guest("/h", "/g")
        };
        let line = &sockets(&vec![socket])[0];
        let fields: Vec<&str> = line.split('\t').collect();
        assert_eq!(fields.len(), 4);
        assert_eq!(u32::from_str_radix(fields[2], 8).unwrap(), mode);
        assert_eq!(fields[2], format!("{:o}", mode));
    }
}
