use containerization_framework::store::{INDEX, KERNEL};
use containerization_framework::{Index, Probe, Store, StoreError, INITFS_REFERENCE};

const ROOT: &str = "/tmp/containerization-store";

/// As Foundation writes it, slashes escaped.
fn index_holding(reference: &str) -> String {
    format!("{{\"{}\":{{}}}}", reference.replace('/', "\\/"))
}

fn provisioned(index: Index) -> Probe {
    Probe {
        root_is_dir: true,
        kernel_is_file: true,
        index,
    }
}

#[test]
fn is_not_ready_before_anything_has_provisioned_it() {
    let probe = Probe {
        root_is_dir: false,
        kernel_is_file: false,
        index: Index::Absent,
    };
    assert_eq!(
        Store::at("/nonexistent/images").ready(&probe),
        Err(StoreError::Missing("/nonexistent/images".to_string()))
    );
}

#[test]
fn names_the_reference_it_could_not_find() {
    let error = Store::at(ROOT)
        .ready(&provisioned(Index::Read("{}".to_string())))
        .expect_err("an incomplete store");

    assert!(
        error.to_string().contains(INITFS_REFERENCE),
        "error should name the missing image: {}",
        error.to_string()
    );
}

/// A first run: an empty directory.
#[test]
fn holds_no_images_before_the_first_build() {
    assert_eq!(
        Store::at(ROOT)
            .images(&Index::Absent)
            .expect("an empty store is readable"),
        Vec::<String>::new()
    );
}

/// As Containerization writes it: nested objects, escaped slashes, and an
/// `annotations` key that is not an image.
#[test]
fn lists_the_references_the_index_names() {
    let index = Index::Read(
        r#"{"example\/base:latest":{"digest":"sha256:aa","annotations":{"org.opencontainers.image.ref.name":"latest"}},"docker.io\/library\/debian:stable-slim":{"digest":"sha256:bb"}}"#
            .to_string(),
    );

    assert_eq!(
        Store::at(ROOT).images(&index).expect("the index should be readable"),
        ["docker.io/library/debian:stable-slim", "example/base:latest"]
    );
}

#[test]
fn names_the_index_it_could_not_parse() {
    let store = Store::at(ROOT);
    let index = Index::Read("{\"truncated".to_string());

    assert!(matches!(
        store.images(&index),
        Err(StoreError::Unreadable { path, .. }) if path == format!("{ROOT}/{INDEX}")
    ));
    assert!(!store.holds(INITFS_REFERENCE, &index));
}

#[test]
fn finds_a_reference_whose_slashes_are_escaped() {
    let store = Store::at(ROOT);
    let index = Index::Read(index_holding(INITFS_REFERENCE));

    assert!(store.holds(INITFS_REFERENCE, &index));
    assert!(!store.holds("ghcr.io/apple/containerization/vminit:0.0.0", &index));
}

#[test]
fn is_ready_when_it_holds_the_kernel_and_the_initfs() {
    let store = Store::at(ROOT);

    store
        .ready(&provisioned(Index::Read(index_holding(INITFS_REFERENCE))))
        .expect("a complete store");
    assert_eq!(store.root(), ROOT);
    assert_eq!(store.kernel(), format!("{ROOT}/{KERNEL}"));
    assert_eq!(store.container_dir("session-cb"), format!("{ROOT}/containers/session-cb"));
}

#[test]
fn names_a_missing_kernel_before_a_missing_image() {
    let probe = Probe {
        root_is_dir: true,
        kernel_is_file: false,
        index: Index::Absent,
    };
    let error = Store::at(ROOT).ready(&probe).expect_err("no kernel");
    assert_eq!(
        error,
        StoreError::Incomplete {
            root: ROOT.to_string(),
            missing: "kernel at kernels/default.kernel-arm64".to_string(),
        }
    );
    assert_eq!(
        error.to_string(),
        format!("the image store at {ROOT} has no kernel at kernels/default.kernel-arm64")
    );
}

#[test]
fn names_what_is_missing_from_the_index() {
    let error = Store::at(ROOT)
        .ready(&provisioned(Index::Absent))
        .expect_err("no init image");
    assert_eq!(
        error.to_string(),
        format!("the image store at {ROOT} has no {INITFS_REFERENCE} in state.json")
    );
}

#[test]
fn reports_an_index_it_could_not_read() {
    let store = Store::at(ROOT);
    let index = Index::Unreadable("permission denied".to_string());
    let error = store.images(&index).expect_err("unreadable");
    assert_eq!(
        error,
        StoreError::Unreadable {
            path: format!("{ROOT}/state.json"),
            source: "permission denied".to_string(),
        }
    );
    assert_eq!(error.to_string(), format!("cannot read {ROOT}/state.json: permission denied"));
    assert!(!store.holds(INITFS_REFERENCE, &index));
    assert_eq!(
        StoreError::Missing("/x".to_string()).to_string(),
        "no image store at /x"
    );
}

#[test]
fn lists_each_reference_once_in_order() {
    let index = Index::Read(r#"{"b":1,"a":2,"b":3,"C":4}"#.to_string());
    assert_eq!(Store::at(ROOT).images(&index).expect("readable"), ["C", "a", "b"]);
}

#[test]
fn joins_paths_as_a_unix_path_does() {
    assert_eq!(Store::at("/store/").kernel(), "/store/kernels/default.kernel-arm64");
    assert_eq!(Store::at("").kernel(), "kernels/default.kernel-arm64");
    assert_eq!(Store::at("/store").container_dir("/elsewhere"), "/elsewhere");
    assert_eq!(Store::at("/store").index_file(), "/store/state.json");
}

#[test]
fn reads_a_parse_of_the_index() {
    let store = Store::at(ROOT);
    assert_eq!(
        store.index_outcome(Ok(vec!["a:1".to_string()])),
        Ok(vec!["a:1".to_string()])
    );
    assert_eq!(
        store.index_outcome(Err("EOF while parsing".to_string())),
        Err(StoreError::Unreadable {
            path: format!("{ROOT}/state.json"),
            source: "EOF while parsing".to_string(),
        })
    );
}
