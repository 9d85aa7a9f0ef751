use splice_serve::oci::{
    arg_to_wasi, env_to_wasi, get_wasm_annotations, get_wasm_mounts, socket_path, Annotation,
    Mount, Process, RuntimeSpec,
};

fn spec_with_process(env: Option<Vec<String>>, args: Option<Vec<String>>) -> RuntimeSpec {
    RuntimeSpec {
        process: Some(Process { env, args }),
        mounts: None,
        annotations: None,
    }
}

#[test]
fn env_to_wasi_returns_declared_environment() {
    let s = spec_with_process(
        Some(vec!["PATH=/usr/bin".to_string(), "HOME=/root".to_string()]),
        None,
    );
    assert_eq!(
        env_to_wasi(&s),
        vec!["PATH=/usr/bin".to_string(), "HOME=/root".to_string()]
    );
}

#[test]
fn env_to_wasi_defaults_to_empty() {
    let s = spec_with_process(None, None);
    assert_eq!(env_to_wasi(&s), Vec::<String>::new());
}

#[test]
fn arg_to_wasi_returns_declared_arguments() {
    let s = spec_with_process(None, Some(vec!["app.wasm".to_string(), "--x".to_string()]));
    assert_eq!(
        arg_to_wasi(&s),
        vec!["app.wasm".to_string(), "--x".to_string()]
    );
}

#[test]
fn arg_to_wasi_defaults_to_empty() {
    let s = spec_with_process(Some(vec!["A=1".to_string()]), None);
    assert_eq!(arg_to_wasi(&s), Vec::<String>::new());
}

#[test]
fn get_wasm_mounts_keeps_bind_and_tmpfs_destinations() {
    let s = RuntimeSpec {
        process: None,
        mounts: Some(vec![
            Mount {
                typ: Some("bind".to_string()),
                destination: Some("/data".to_string()),
            },
            Mount {
                typ: Some("proc".to_string()),
                destination: Some("/proc".to_string()),
            },
            Mount {
                typ: Some("tmpfs".to_string()),
                destination: Some("/tmp".to_string()),
            },
            Mount {
                typ: None,
                destination: Some("/none".to_string()),
            },
            Mount {
                typ: Some("bind".to_string()),
                destination: None,
            },
        ]),
        annotations: None,
    };
    assert_eq!(
        get_wasm_mounts(&s),
        vec!["/data".to_string(), "/tmp".to_string()]
    );
}

#[test]
fn get_wasm_mounts_without_mounts_is_empty() {
    let s = RuntimeSpec {
        process: None,
        mounts: None,
        annotations: None,
    };
    assert_eq!(get_wasm_mounts(&s), Vec::<String>::new());
}

#[test]
fn get_wasm_annotations_finds_value() {
    let s = RuntimeSpec {
        process: None,
        mounts: None,
        annotations: Some(vec![
            Annotation {
                key: "io.kubernetes.cri.sandbox-id".to_string(),
                value: "abc123".to_string(),
            },
            Annotation {
                key: "module.wasm.image/variant".to_string(),
                value: "compat".to_string(),
            },
        ]),
    };
    assert_eq!(
        get_wasm_annotations(&s, "module.wasm.image/variant"),
        "compat".to_string()
    );
}

#[test]
fn get_wasm_annotations_missing_key_is_empty() {
    let s = RuntimeSpec {
        process: None,
        mounts: None,
        annotations: Some(vec![Annotation {
            key: "a".to_string(),
            value: "1".to_string(),
        }]),
    };
    assert_eq!(get_wasm_annotations(&s, "b"), String::new());
}

#[test]
fn get_wasm_annotations_without_annotations_is_empty() {
    let none = RuntimeSpec {
        process: None,
        mounts: None,
        annotations: None,
    };
    let empty = RuntimeSpec {
        process: None,
        mounts: None,
        annotations: Some(Vec::new()),
    };
    assert_eq!(get_wasm_annotations(&none, "a"), String::new());
    assert_eq!(get_wasm_annotations(&empty, "a"), String::new());
}

#[test]
fn socket_path_appends_sock_suffix() {
    assert_eq!(
        socket_path("/run/bundles/web"),
        "/run/bundles/web.sock".to_string()
    );
    assert_eq!(socket_path(""), ".sock".to_string());
}
