use deepresearch::sandbox::{
    DockerRuntimeUser, DockerSandboxConfig, FailureStreak, SandboxOutput, SandboxOutputKind,
    SandboxOutputSpec, SandboxRequest, SandboxResult, build_docker_args, ensure_relpath,
};

#[test]
fn build_args_includes_security_flags() {
    let config = DockerSandboxConfig {
        image: "test-image:latest".to_string(),
        docker_binary: "docker".to_string(),
        workspace_root: "/tmp".to_string(),
        memory_limit: Some("2g".to_string()),
        cpus: Some("1.5".to_string()),
        tmpfs_size: "256m".to_string(),
        cap_add: vec!["CHOWN".to_string()],
        env: vec![("MPLBACKEND".to_string(), "Agg".to_string())],
        additional_args: vec!["--pids-limit".to_string(), "128".to_string()],
        read_only_root: true,
        disable_network: true,
        python_binary: "python".to_string(),
        user: DockerRuntimeUser::Explicit("1000:1000".to_string()),
    };

    let request = SandboxRequest {
        script_name: "script.py".to_string(),
        script_contents: "print('hello')".to_string(),
        args: vec!["--foo".to_string()],
        files: Vec::new(),
        expected_outputs: Vec::new(),
        timeout_ms: 5000,
    };
    let workspace = "/tmp/workspace";
    let args = build_docker_args(&config, workspace, &request, &Some("1000:1000".to_string()));

    assert!(args.contains(&"--read-only".to_string()));
    assert!(args.contains(&"--network".to_string()));
    assert!(args.contains(&"--cap-drop".to_string()));
    assert!(args.contains(&"--cap-add".to_string()));
    assert!(args.contains(&"--security-opt".to_string()));
    assert!(args.contains(&"--tmpfs".to_string()));
    assert!(args.contains(&"--env".to_string()));
    assert!(args.contains(&"--user".to_string()));
    assert!(args.iter().any(|a| a.contains("/workspace/script.py")));
    assert!(args.ends_with(&["--foo".to_string()]));
}

#[test]
fn traversal_and_absolute_paths_are_rejected() {
    assert!(ensure_relpath("plot.png").is_ok());
    assert!(ensure_relpath("out/plot.png").is_ok());
    assert!(ensure_relpath("..").is_err());
    assert!(ensure_relpath("../escape.txt").is_err());
    assert!(ensure_relpath("a/../b").is_err());
    assert!(ensure_relpath("/etc/passwd").is_err());
    assert!(ensure_relpath("a..b").is_ok());
    assert!(ensure_relpath("...").is_ok());
}

#[test]
fn blank_scripts_are_rejected() {
    let good = SandboxRequest::new("run.py".to_string(), "print(1)".to_string());
    assert!(good.validate().is_ok());
    let blank = SandboxRequest::new("run.py".to_string(), "   \n\t".to_string());
    assert!(blank.validate().is_err());
    let mut bad = SandboxRequest::new("run.py".to_string(), "print(1)".to_string());
    bad.files.push(deepresearch::sandbox::SandboxFile::new(
        "../leak".to_string(),
        vec![1, 2],
    ));
    assert!(bad.validate().is_err());
}

#[test]
fn failure_streak_counts_and_elevates() {
    let mut streak = FailureStreak::new();
    assert!(!streak.record(false));
    assert!(!streak.record(false));
    assert!(streak.record(false));
    assert_eq!(streak.current(), 3);
    assert!(!streak.record(true));
    assert_eq!(streak.current(), 0);
}

#[test]
fn outcome_classification() {
    let timed = SandboxResult {
        exit_code: Some(0),
        stdout: String::new(),
        stderr: String::new(),
        outputs: Vec::new(),
        timed_out: true,
        duration_ms: 10,
    };
    assert_eq!(timed.status_label(), "timeout");
    let ok = SandboxResult { timed_out: false, ..timed_clone(&timed) };
    assert_eq!(ok.status_label(), "success");
    let failed = SandboxResult { exit_code: Some(2), timed_out: false, ..timed_clone(&timed) };
    assert_eq!(failed.status_label(), "failure");
}

fn timed_clone(r: &SandboxResult) -> SandboxResult {
    SandboxResult {
        exit_code: r.exit_code,
        stdout: r.stdout.clone(),
        stderr: r.stderr.clone(),
        outputs: Vec::new(),
        timed_out: r.timed_out,
        duration_ms: r.duration_ms,
    }
}

#[test]
fn text_outputs_decode() {
    let out = SandboxOutput {
        spec: SandboxOutputSpec::new("log.txt".to_string(), SandboxOutputKind::Text),
        bytes: b"hello".to_vec(),
    };
    assert_eq!(out.as_text(), Some("hello".to_string()));
    let bin = SandboxOutput {
        spec: SandboxOutputSpec::new("img.png".to_string(), SandboxOutputKind::Binary),
        bytes: vec![1, 2, 3],
    };
    assert_eq!(bin.as_text(), None);
}
