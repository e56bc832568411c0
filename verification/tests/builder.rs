use containerization_framework::{
    BuildMount, BuildPlan, BuildStep, Builder, Error, Labels, Network, Reply, Resources, Shell,
    Store, FAILED, INITFS_REFERENCE,
};
use serde_json::Value;

fn plan() -> BuildPlan {
    let mut plan = BuildPlan::new(
        "builder-0123abcd",
        "docker.io/library/debian:stable-slim",
        "example/base:latest",
        Resources {
            cpus: 4,
            memory_in_bytes: 8 << 30,
        },
        Network {
            ipv4_address: "192.168.64.7/24".to_string(),
            ipv4_gateway: "192.168.64.1".to_string(),
        },
        "basekey",
    );

    plan.mounts = vec![BuildMount {
        destination: "/mnt/scripts".to_string(),
        readonly: true,
        source: "/Users/user/.cache/build/base".to_string(),
    }];
    plan.environment = vec!["CONFIG_DIR=/home/app/.config".to_string()];
    let mut labels = Labels::new();
    labels.insert("com.example.built-by".to_string(), "example".to_string());
    plan.labels = labels;
    plan.steps = vec![
        BuildStep {
            name: "packages".to_string(),
            script: "apt-get update".to_string(),
            user: None,
            cache_key: "stepkey0".to_string(),
        },
        BuildStep {
            name: "bashrc".to_string(),
            script: "echo hook >> ~/.bashrc".to_string(),
            user: Some("app".to_string()),
            cache_key: "stepkey1".to_string(),
        },
    ];
    plan.user = Some("app".to_string());
    plan.workdir = Some("/workspace".to_string());

    plan
}

fn wire(plan: &BuildPlan) -> Value {
    serde_json::from_str(&Builder::new(Store::at("/store")).build_wire(plan))
        .expect("a plan should be JSON")
}

fn strings(values: &[&str]) -> Value {
    Value::Array(values.iter().map(|value| Value::from(*value)).collect())
}

/// Swift decodes by property name; a renamed field fails only at runtime.
#[test]
fn writes_the_plan_with_the_keys_swift_decodes() {
    let json = wire(&plan());

    for key in [
        "name",
        "storeRoot",
        "kernelPath",
        "initfsReference",
        "base",
        "tag",
        "cpus",
        "memoryInBytes",
        "rootfsSizeInBytes",
        "mounts",
        "steps",
        "environment",
        "labels",
        "user",
        "workingDirectory",
        "ipv4Address",
        "ipv4Gateway",
        "baseKey",
        "cache",
        "shell",
        "keepalive",
        "reclaim",
    ] {
        assert!(json.get(key).is_some(), "the plan should carry {key}: {json}");
    }

    for key in ["source", "destination", "readonly"] {
        assert!(
            json["mounts"][0].get(key).is_some(),
            "a mount should carry {key}: {json}"
        );
    }

    assert_eq!(json["labels"]["com.example.built-by"], "example");
    assert_eq!(json["steps"][0]["user"], Value::Null);
    assert_eq!(json["steps"][1]["user"], "app");
    assert_eq!(json["steps"][1]["name"], "bashrc");
}

#[test]
fn carries_the_keys_the_caller_derived() {
    let json = wire(&plan());

    assert_eq!(json["baseKey"], "basekey");
    assert_eq!(json["steps"][0]["cacheKey"], "stepkey0");
    assert_eq!(json["steps"][1]["cacheKey"], "stepkey1");
}

#[test]
fn defaults_to_bash_with_a_step_failing_the_build() {
    assert_eq!(
        wire(&plan())["shell"],
        strings(&["/bin/bash", "-euo", "pipefail", "-c"])
    );
}

#[test]
fn carries_the_shell_a_base_without_bash_needs() {
    let mut plan = plan();
    plan.shell = Shell(vec!["/bin/sh".to_string(), "-ec".to_string()]);

    assert_eq!(wire(&plan)["shell"], strings(&["/bin/sh", "-ec"]));
}

#[test]
fn says_how_long_snapshots_are_kept() {
    let json = wire(&plan());

    assert_eq!(json["cache"]["restore"], true);
    assert_eq!(json["cache"]["keep"], 24);
    assert_eq!(json["cache"]["keepForSeconds"], 14 * 24 * 60 * 60);
}

#[test]
fn says_when_the_cache_is_not_to_be_read() {
    let mut plan = plan();
    plan.cache.restore = false;

    assert_eq!(wire(&plan)["cache"]["restore"], false);
}

#[test]
fn reclaims_unless_told_otherwise() {
    let mut plan = plan();

    assert_eq!(wire(&plan)["reclaim"], true);

    plan.reclaim = false;

    assert_eq!(wire(&plan)["reclaim"], false);
}

#[test]
fn carries_the_builders_own_resources_and_ceiling() {
    let json = wire(&plan());

    assert_eq!(json["cpus"], 4);
    assert_eq!(json["memoryInBytes"], 8u64 << 30);
    assert_eq!(json["rootfsSizeInBytes"], 8u64 << 30);
}

#[test]
fn writes_the_whole_plan_compactly_in_field_order() {
    let text = Builder::new(Store::at("/store")).build_wire(&plan());
    assert_eq!(
        text,
        [
            r#"{"name":"builder-0123abcd","storeRoot":"/store","kernelPath":"/store/kernels/default.kernel-arm64","#,
            r#""initfsReference":"ghcr.io/apple/containerization/vminit:0.45.0","base":"docker.io/library/debian:stable-slim","#,
            r#""tag":"example/base:latest","cpus":4,"memoryInBytes":8589934592,"rootfsSizeInBytes":8589934592,"#,
            r#""mounts":[{"source":"/Users/user/.cache/build/base","destination":"/mnt/scripts","readonly":true}],"#,
            r#""steps":[{"name":"packages","script":"apt-get update","user":null,"cacheKey":"stepkey0"},"#,
            r#"{"name":"bashrc","script":"echo hook >> ~/.bashrc","user":"app","cacheKey":"stepkey1"}],"#,
            r#""environment":["CONFIG_DIR=/home/app/.config"],"labels":{"com.example.built-by":"example"},"#,
            r#""user":"app","workingDirectory":"/workspace","ipv4Address":"192.168.64.7/24","ipv4Gateway":"192.168.64.1","#,
            r#""baseKey":"basekey","cache":{"restore":true,"keep":24,"keepForSeconds":1209600},"#,
            r#""shell":["/bin/bash","-euo","pipefail","-c"],"keepalive":["/bin/sh","-c","while :; do sleep 86400; done"],"#,
            r#""reclaim":true}"#,
        ]
        .concat()
    );
}

#[test]
fn escapes_what_json_must() {
    let mut plan = plan();
    plan.steps[0].script = "printf '\"%s\"\\n' \"$HOME\"\tdone".to_string();
    plan.user = None;
    plan.workdir = None;
    let json = wire(&plan);
    assert_eq!(json["steps"][0]["script"], "printf '\"%s\"\\n' \"$HOME\"\tdone");
    assert_eq!(json["user"], Value::Null);
    assert_eq!(json["workingDirectory"], Value::Null);
}

#[test]
fn writes_cpus_as_the_bridge_reads_them() {
    let mut plan = plan();
    plan.resources.cpus = u32::MAX;
    assert_eq!(wire(&plan)["cpus"], -1);
}

#[test]
fn writes_labels_in_key_order() {
    let mut plan = plan();
    let mut labels = Labels::new();
    labels.insert("z".to_string(), "last".to_string());
    labels.insert("a\"quoted".to_string(), "first".to_string());
    plan.labels = labels;
    let text = Builder::new(Store::at("/store")).build_wire(&plan);
    assert!(text.contains(r#""labels":{"a\"quoted":"first","z":"last"}"#), "{text}");
}

#[test]
fn provisions_with_the_pinned_kernel_and_initfs() {
    let json: Value =
        serde_json::from_str(&Builder::new(Store::at("/store")).provision_wire()).expect("JSON");
    assert_eq!(json["storeRoot"], "/store");
    assert_eq!(json["kernelPath"], "/store/kernels/default.kernel-arm64");
    assert_eq!(
        json["kernelUrl"],
        "https://github.com/kata-containers/kata-containers/releases/download/3.17.0/kata-static-3.17.0-arm64.tar.xz"
    );
    assert_eq!(json["kernelInArchive"], "opt/kata/share/kata-containers/vmlinux.container");
    assert_eq!(json["initfsReference"], INITFS_REFERENCE);
}

#[test]
fn names_a_failed_build_after_its_tag() {
    let builder = Builder::new(Store::at("/store"));
    let failed = Reply {
        code: FAILED,
        last_error: "no space left".to_string(),
    };
    assert_eq!(
        builder.build(&plan(), &failed),
        Err(Error::failed("build example/base:latest", "no space left"))
    );
    let done = Reply {
        code: 0,
        last_error: String::new(),
    };
    assert_eq!(builder.build(&plan(), &done), Ok(()));
    assert_eq!(
        builder.provision(&failed).map_err(|error| error.to_string()),
        Err("could not provision the image store: no space left".to_string())
    );
    assert_eq!(builder.provision(&done), Ok(()));
    assert_eq!(builder.store(), &Store::at("/store"));
}

#[test]
fn starts_a_plan_from_the_defaults() {
    let plan = BuildPlan::new(
        "n",
        "b",
        "t",
        Resources {
            cpus: 1,
            memory_in_bytes: 1,
        },
        Network {
            ipv4_address: "a".to_string(),
            ipv4_gateway: "g".to_string(),
        },
        "k",
    );
    assert_eq!(plan.keepalive, BuildPlan::default_keepalive());
    assert_eq!(plan.keepalive, ["/bin/sh", "-c", "while :; do sleep 86400; done"]);
    assert_eq!(plan.shell, Shell::default());
    assert!(plan.reclaim && plan.cache.restore);
    assert_eq!(plan.cache.keep, 24);
    assert_eq!(plan.cache.keep_for_seconds, 1209600);
    assert_eq!(plan.labels.len(), 0);
}
