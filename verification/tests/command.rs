use pocket_dimension::command::creation_outcome;
use pocket_dimension::{
    Container, ContainerInit, ContainerMount, ContainerShare, CreateError, HostUser, InitPayload,
};

fn strings(items: &[&str]) -> Vec<String> {
    items.iter().map(|s| s.to_string()).collect()
}

fn alice() -> HostUser {
    HostUser { name: "alice".to_string(), uid: 1000, gid: 100 }
}

fn minimal() -> Container {
    Container {
        name: "box".to_string(),
        image: "alpine".to_string(),
        pull: None,
        additional_args: vec![],
        init: ContainerInit {
            pre_init: vec![],
            init: vec![],
            packages: vec![],
            package_command: None,
        },
        share: ContainerShare {
            net: None,
            ipc: None,
            sec: vec![],
            dev: false,
            mnt: false,
            mounts: vec![],
        },
    }
}

fn devel() -> Container {
    Container {
        name: "c-devel-t".to_string(),
        image: "docker.io/library/debian:12".to_string(),
        pull: Some("missing".to_string()),
        additional_args: strings(&["--memory", "2g"]),
        init: ContainerInit {
            pre_init: strings(&["echo pre"]),
            init: strings(&["echo \"post\""]),
            packages: strings(&["git", "curl"]),
            package_command: Some("apk add %packages%".to_string()),
        },
        share: ContainerShare {
            net: Some("host".to_string()),
            ipc: None,
            sec: strings(&["label=disable"]),
            dev: false,
            mnt: false,
            mounts: vec![ContainerMount {
                ty: "bind".to_string(),
                src: Some("/host".to_string()),
                dst: "/ctr".to_string(),
                opts: strings(&["ro"]),
            }],
        },
    }
}

fn count(args: &[String], token: &str) -> usize {
    args.iter().filter(|a| a.as_str() == token).count()
}

#[test]
fn compile_gives_the_whole_invocation_in_order() {
    let args = devel().compile(Some("/usr/local/bin/pd"), &alice()).unwrap();
    assert_eq!(
        args,
        strings(&[
            "podman",
            "create",
            "--memory",
            "2g",
            "--hostname",
            "c-devel-t",
            "--name",
            "c-devel-t",
            "--label",
            "\"manager=pocket-dimension\"",
            "--user",
            "root:root",
            "--network",
            "host",
            "--ipc",
            "\"\"",
            "--security-opt",
            "label=disable",
            "--mount",
            "type=bind,src=/host,dst=/ctr,ro",
            "--mount",
            "type=bind,source=/usr/local/bin/pd,dst=/usr/bin/entrypoint,ro=true",
            "--entrypoint",
            "/usr/bin/entrypoint",
            "docker.io/library/debian:12",
            "--username",
            "alice",
            "--uid",
            "1000",
            "--gid",
            "100",
            "--pre-init",
            "[\"echo pre\"]",
            "--init",
            "[\"echo \\\"post\\\"\"]",
            "--packages",
            "[\"git\",\"curl\"]",
            "--package-command",
            "apk add %packages%",
        ])
    );
}

#[test]
fn compile_of_a_minimal_manifest() {
    let root = HostUser { name: "root".to_string(), uid: 0, gid: 0 };
    let args = minimal().compile(Some("/pd"), &root);
    assert_eq!(
        args,
        Ok(strings(&[
            "podman",
            "create",
            "--hostname",
            "box",
            "--name",
            "box",
            "--label",
            "\"manager=pocket-dimension\"",
            "--user",
            "root:root",
            "--network",
            "\"\"",
            "--ipc",
            "\"\"",
            "--mount",
            "type=bind,source=/pd,dst=/usr/bin/entrypoint,ro=true",
            "--entrypoint",
            "/usr/bin/entrypoint",
            "alpine",
            "--username",
            "root",
            "--uid",
            "0",
            "--gid",
            "0",
            "--pre-init",
            "[]",
            "--init",
            "[]",
            "--packages",
            "[]",
        ]))
    );
}

#[test]
fn compile_without_executable_path_fails() {
    assert_eq!(devel().compile(None, &alice()), Err(CreateError::SelfPathUnavailable));
    assert_eq!(minimal().compile(None, &alice()), Err(CreateError::SelfPathUnavailable));
}

#[test]
fn create_command_without_executable_path_fails() {
    assert_eq!(devel().create_command(None, 1000, 100), Err(CreateError::SelfPathUnavailable));
}

#[test]
fn create_command_compiles_for_the_user_the_host_reports() {
    let c = devel();
    let args = c.create_command(Some("/opt/pd"), 1234, 56).unwrap();
    let user = HostUser { name: whoami::username(), uid: 1234, gid: 56 };
    assert_eq!(Ok(args.clone()), c.compile(Some("/opt/pd"), &user));
    let at = args.iter().position(|a| a == "--username").unwrap();
    assert_eq!(args[at + 1], whoami::username());
    assert_eq!(&args[at + 2..at + 6], strings(&["--uid", "1234", "--gid", "56"]).as_slice());
}

#[test]
fn current_user_carries_the_given_ids() {
    let user = HostUser::current(4321, 65);
    assert_eq!(user.uid, 4321);
    assert_eq!(user.gid, 65);
    assert_eq!(user.name, whoami::username());
}

#[test]
fn assemble_takes_the_payload_as_it_is() {
    let payload = InitPayload {
        pre_init: "PRE".to_string(),
        init: "INIT".to_string(),
        packages: "PKG".to_string(),
    };
    let args = minimal().assemble("/pd", &alice(), &payload);
    assert_eq!(
        &args[18..],
        strings(&[
            "alpine",
            "--username",
            "alice",
            "--uid",
            "1000",
            "--gid",
            "100",
            "--pre-init",
            "PRE",
            "--init",
            "INIT",
            "--packages",
            "PKG",
        ])
        .as_slice()
    );
}

#[test]
fn unset_modes_are_passed_as_empty_quotes_not_left_out() {
    let args = minimal().compile(Some("/pd"), &alice()).unwrap();
    let net = args.iter().position(|a| a == "--network").unwrap();
    assert_eq!(net, 10);
    assert_eq!(args[net + 1], "\"\"");
    assert_eq!(args[net + 2], "--ipc");
    assert_eq!(args[net + 3], "\"\"");
}

#[test]
fn security_options_appear_once_each_in_order() {
    let mut c = minimal();
    c.share.sec = strings(&["label=disable", "seccomp=unconfined", "apparmor=unconfined"]);
    let args = c.compile(Some("/pd"), &alice()).unwrap();
    assert_eq!(count(&args, "--security-opt"), 3);
    assert_eq!(
        &args[14..20],
        strings(&[
            "--security-opt",
            "label=disable",
            "--security-opt",
            "seccomp=unconfined",
            "--security-opt",
            "apparmor=unconfined",
        ])
        .as_slice()
    );
    assert_eq!(count(&minimal().compile(Some("/pd"), &alice()).unwrap(), "--security-opt"), 0);
}

#[test]
fn additional_args_follow_the_sub_command() {
    let mut c = minimal();
    c.additional_args = strings(&["--rm", "--tty", "--env", "A=B C"]);
    let args = c.compile(Some("/pd"), &alice()).unwrap();
    assert_eq!(
        &args[..7],
        strings(&["podman", "create", "--rm", "--tty", "--env", "A=B C", "--hostname"]).as_slice()
    );
}

#[test]
fn the_executable_is_mounted_once_and_made_the_entrypoint() {
    for c in [minimal(), devel()] {
        let args = c.compile(Some("/usr/local/bin/pd"), &alice()).unwrap();
        let mount = "type=bind,source=/usr/local/bin/pd,dst=/usr/bin/entrypoint,ro=true";
        assert_eq!(count(&args, mount), 1);
        assert_eq!(count(&args, "--entrypoint"), 1);
        let at = args.iter().position(|a| a == mount).unwrap();
        assert_eq!(args[at - 1], "--mount");
        assert_eq!(args[at + 1], "--entrypoint");
        assert_eq!(args[at + 2], "/usr/bin/entrypoint");
        assert_eq!(args[at + 3], c.image);
    }
}

#[test]
fn a_supplied_token_that_spells_a_flag_is_counted_too() {
    let mut c = minimal();
    c.additional_args = strings(&["--entrypoint", "/bin/sh"]);
    let args = c.compile(Some("/pd"), &alice()).unwrap();
    assert_eq!(count(&args, "--entrypoint"), 2);
    assert_eq!(args[2], "--entrypoint");
    assert_eq!(args[18], "--entrypoint");

    let mut c = minimal();
    c.share.mounts = vec![ContainerMount {
        ty: "bind,source=/pd".to_string(),
        src: None,
        dst: "/usr/bin/entrypoint".to_string(),
        opts: strings(&["ro=true"]),
    }];
    let args = c.compile(Some("/pd"), &alice()).unwrap();
    assert_eq!(count(&args, "type=bind,source=/pd,dst=/usr/bin/entrypoint,ro=true"), 2);
}

#[test]
fn the_entrypoint_mount_follows_the_manifest_mounts() {
    let args = devel().compile(Some("/pd"), &alice()).unwrap();
    let mounts: Vec<usize> =
        args.iter().enumerate().filter(|(_, a)| *a == "--mount").map(|(i, _)| i).collect();
    assert_eq!(mounts, vec![18, 20]);
    assert_eq!(args[19], "type=bind,src=/host,dst=/ctr,ro");
    assert_eq!(args[21], "type=bind,source=/pd,dst=/usr/bin/entrypoint,ro=true");
}

#[test]
fn init_lists_are_json_arrays_that_decode_to_the_lists() {
    let mut c = minimal();
    c.init.pre_init = strings(&["echo \"a\\b\"", "printf 'x\ty\n'", ""]);
    c.init.init = strings(&["touch /tmp/ü", "echo \u{1}\u{7f}"]);
    c.init.packages = strings(&["git", "curl", "build-essential"]);
    let args = c.compile(Some("/pd"), &alice()).unwrap();
    let pre = args.iter().position(|a| a == "--pre-init").unwrap();
    assert_eq!(args[pre + 2], "--init");
    assert_eq!(args[pre + 4], "--packages");
    let lists = [&c.init.pre_init, &c.init.init, &c.init.packages];
    for (i, list) in lists.iter().enumerate() {
        let text = &args[pre + 1 + 2 * i];
        let decoded: Vec<String> = serde_json::from_str(text).unwrap();
        assert_eq!(&decoded, *list);
        assert_eq!(&serde_json::to_string(&decoded).unwrap(), text);
    }
    assert_eq!(args[pre + 5], "[\"git\",\"curl\",\"build-essential\"]");
}

#[test]
fn encode_gives_compact_json_with_escapes() {
    let init = ContainerInit {
        pre_init: strings(&["a"]),
        init: strings(&["say \"hi\"", "back\\slash", "line\nbreak"]),
        packages: vec![],
        package_command: None,
    };
    let payload = init.encode().unwrap();
    assert_eq!(payload.pre_init, "[\"a\"]");
    assert_eq!(payload.init, "[\"say \\\"hi\\\"\",\"back\\\\slash\",\"line\\nbreak\"]");
    assert_eq!(payload.packages, "[]");
}

#[test]
fn encode_treats_each_list_apart() {
    let init = ContainerInit {
        pre_init: strings(&["x", "y"]),
        init: strings(&["x", "y"]),
        packages: strings(&["y", "x"]),
        package_command: Some("ignored %packages%".to_string()),
    };
    let payload = init.encode().unwrap();
    assert_eq!(payload.pre_init, payload.init);
    assert_eq!(payload.pre_init, "[\"x\",\"y\"]");
    assert_eq!(payload.packages, "[\"y\",\"x\"]");
}

#[test]
fn package_command_is_left_out_when_absent() {
    let args = minimal().compile(Some("/pd"), &alice()).unwrap();
    assert_eq!(count(&args, "--package-command"), 0);
    assert_eq!(args[args.len() - 2], "--packages");
    assert_eq!(args.len(), 31);
}

#[test]
fn package_command_is_passed_verbatim_when_present() {
    let mut c = minimal();
    c.init.package_command = Some("xbps-install -Sy %packages% && echo \"done\"".to_string());
    let args = c.compile(Some("/pd"), &alice()).unwrap();
    assert_eq!(args.len(), 33);
    assert_eq!(args[31], "--package-command");
    assert_eq!(args[32], "xbps-install -Sy %packages% && echo \"done\"");
    assert_eq!(count(&args, "--package-command"), 1);
}

#[test]
fn package_command_without_placeholder_is_not_checked() {
    let mut c = minimal();
    c.init.package_command = Some("true".to_string());
    let args = c.compile(Some("/pd"), &alice()).unwrap();
    assert_eq!(&args[31..], strings(&["--package-command", "true"]).as_slice());
}

#[test]
fn empty_image_and_name_are_not_checked() {
    let mut c = minimal();
    c.image = String::new();
    c.name = String::new();
    let args = c.compile(Some("/pd"), &alice()).unwrap();
    assert_eq!(args[3], "");
    assert_eq!(args[5], "");
    assert_eq!(args[18], "");
}

#[test]
fn compiling_twice_gives_the_same_invocation() {
    let c = devel();
    let first = c.compile(Some("/pd"), &alice());
    let second = c.compile(Some("/pd"), &alice());
    assert!(first.is_ok());
    assert_eq!(first, second);
    assert_eq!(c.clone().compile(Some("/pd"), &alice()), first);
}

#[test]
fn the_name_is_used_for_host_name_and_name() {
    let mut c = devel();
    c.name = "renamed".to_string();
    let args = c.compile(Some("/pd"), &alice()).unwrap();
    assert_eq!(&args[4..8], strings(&["--hostname", "renamed", "--name", "renamed"]).as_slice());
}

#[test]
fn with_name_changes_the_name_only() {
    let named = devel().with_name("other".to_string());
    let mut expected = devel();
    expected.name = "other".to_string();
    assert_eq!(named.name, "other");
    assert_eq!(named.compile(Some("/pd"), &alice()), expected.compile(Some("/pd"), &alice()));
    assert_eq!(named.image, devel().image);
    assert_eq!(named.pull, devel().pull);
    assert_eq!(named.additional_args, devel().additional_args);
}

#[test]
fn pull_policy_leaves_no_trace() {
    let mut with = minimal();
    with.pull = Some("always".to_string());
    assert_eq!(with.compile(Some("/pd"), &alice()), minimal().compile(Some("/pd"), &alice()));
}

#[test]
fn ids_are_written_in_decimal() {
    let user = HostUser { name: "nobody".to_string(), uid: 65534, gid: u32::MAX };
    let args = minimal().compile(Some("/pd"), &user).unwrap();
    assert_eq!(&args[21..25], strings(&["--uid", "65534", "--gid", "4294967295"]).as_slice());
}

#[test]
fn exit_status_zero_is_success() {
    assert_eq!(creation_outcome(0), Ok(()));
}

#[test]
fn other_exit_status_is_a_failure_that_carries_it() {
    assert_eq!(creation_outcome(125), Err(CreateError::ContainerCreationFailed { code: 125 }));
    assert_eq!(creation_outcome(-1), Err(CreateError::ContainerCreationFailed { code: -1 }));
    assert_ne!(creation_outcome(1), creation_outcome(2));
}
