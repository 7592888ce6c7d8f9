//! Sandbox request model: validation of untrusted script requests, the
//! container argument list, outcome classification, and the consecutive
//! failure streak.
//!
//! Launching the container, draining its pipes and cleaning the workspace is
//! process and file I/O and lives with the service around this library; the
//! decisions that work rests on are all here, each with a contract.

use vstd::prelude::*;
use vstd::string::StringExecFns;

use crate::error::DeepResearchError;
use crate::strutil::{clone_opt_string, clone_string_vec, spec_is_blank, is_blank, str_chars};

verus! {

#[derive(Debug, Clone, Copy, PartialEq, Eq, Structural)]
pub enum SandboxOutputKind {
    Binary,
    Text,
}

/// An artifact the caller expects the script to produce.
#[derive(Debug)]
pub struct SandboxOutputSpec {
    pub path: String,
    pub kind: SandboxOutputKind,
}

impl SandboxOutputSpec {
    pub fn new(path: String, kind: SandboxOutputKind) -> (r: Self)
        ensures
            r.path@ == path@,
            r.kind == kind,
    {
        SandboxOutputSpec { path, kind }
    }
}

impl Clone for SandboxOutputSpec {
    fn clone(&self) -> (r: Self)
        ensures
            r == *self,
    {
        SandboxOutputSpec { path: self.path.clone(), kind: self.kind }
    }
}

/// A file materialized into the workspace before the script runs.
#[derive(Debug)]
pub struct SandboxFile {
    pub path: String,
    pub contents: Vec<u8>,
}

impl SandboxFile {
    pub fn new(path: String, contents: Vec<u8>) -> (r: Self)
        ensures
            r.path@ == path@,
            r.contents@ == contents@,
    {
        SandboxFile { path, contents }
    }
}

impl Clone for SandboxFile {
    fn clone(&self) -> (r: Self)
        ensures
            r.path@ == self.path@,
            r.contents@ == self.contents@,
    {
        let mut contents: Vec<u8> = Vec::new();
        let mut i: usize = 0;
        while i < self.contents.len()
            invariant
                i <= self.contents@.len(),
                contents@ == self.contents@.subrange(0, i as int),
            decreases self.contents@.len() - i,
        {
            contents.push(self.contents[i]);
            proof {
                assert(contents@ =~= self.contents@.subrange(0, i + 1 as int));
            }
            i = i + 1;
        }
        proof {
            assert(contents@ =~= self.contents@);
        }
        SandboxFile { path: self.path.clone(), contents }
    }
}

/// Two staged files carry the same path and bytes.
pub open spec fn sandbox_file_like(a: SandboxFile, b: SandboxFile) -> bool {
    &&& a.path@ == b.path@
    &&& a.contents@ == b.contents@
}

/// A request to run an untrusted script.
#[derive(Debug)]
pub struct SandboxRequest {
    pub script_name: String,
    pub script_contents: String,
    pub args: Vec<String>,
    pub files: Vec<SandboxFile>,
    pub expected_outputs: Vec<SandboxOutputSpec>,
    pub timeout_ms: u64,
}

/// A `..` segment starts at position `i`: it is bounded by the string ends
/// or by `/` separators on both sides.
pub open spec fn parent_segment_at(s: Seq<char>, i: int) -> bool {
    &&& 0 <= i
    &&& i + 2 <= s.len()
    &&& (i == 0 || s[i - 1] == '/')
    &&& (i + 2 == s.len() || s[i + 2] == '/')
    &&& s[i] == '.'
    &&& s[i + 1] == '.'
}

/// A relative path with no parent-directory traversal: it must not start
/// with a separator, and no `/`-delimited segment may equal `..`.
pub open spec fn has_parent_segment(s: Seq<char>) -> bool {
    exists|i: int| #[trigger] parent_segment_at(s, i)
}

pub open spec fn valid_rel_path(s: Seq<char>) -> bool {
    &&& !(s.len() > 0 && s[0] == '/')
    &&& !has_parent_segment(s)
}

/// Reject absolute paths and `..` traversal.
pub fn ensure_relpath(path: &str) -> (r: Result<(), DeepResearchError>)
    ensures
        r is Ok <==> valid_rel_path(path@),
{
    let chars = str_chars(path);
    if chars.len() > 0 && chars[0] == '/' {
        return Result::Err(
            DeepResearchError::InputValidation("path may not be absolute".to_owned()),
        );
    }
    if chars.len() >= 2 {
        let mut i: usize = 0;
        while i <= chars.len() - 2
            invariant
                chars@ == path@,
                chars@.len() >= 2,
                i <= chars@.len() - 1,
                forall|j: int| 0 <= j < i ==> !parent_segment_at(path@, j),
            decreases chars.len() - i,
        {
            let boundary_before = i == 0 || chars[i - 1] == '/';
            let boundary_after = i + 2 == chars.len() || chars[i + 2] == '/';
            if boundary_before && boundary_after && chars[i] == '.' && chars[i + 1] == '.' {
                proof {
                    assert(parent_segment_at(path@, i as int));
                }
                return Result::Err(
                    DeepResearchError::InputValidation(
                        "path may not contain parent components (..)".to_owned(),
                    ),
                );
            }
            i = i + 1;
        }
        proof {
            assert(forall|j: int| #[trigger] parent_segment_at(path@, j) ==> 0 <= j < path@.len() - 1);
            assert(!has_parent_segment(path@));
        }
    } else {
        proof {
            assert(forall|j: int| !(#[trigger] parent_segment_at(path@, j)));
            assert(!has_parent_segment(path@));
        }
    }
    Result::Ok(())
}

/// Reject blank strings, naming the offending field.
pub fn ensure_not_empty(value: &str, field: &str) -> (r: Result<(), DeepResearchError>)
    ensures
        r is Ok <==> !spec_is_blank(value@),
{
    if is_blank(value) {
        let mut m: String = field.to_owned();
        m.append(" must not be empty");
        Result::Err(DeepResearchError::InputValidation(m))
    } else {
        Result::Ok(())
    }
}

/// Every path in the request is relative and traversal-free, and the script
/// itself is not blank.
pub open spec fn spec_valid_request(r: SandboxRequest) -> bool {
    &&& valid_rel_path(r.script_name@)
    &&& !spec_is_blank(r.script_contents@)
    &&& forall|i: int| 0 <= i < r.files@.len() ==> valid_rel_path(#[trigger] r.files@[i].path@)
    &&& forall|i: int|
        0 <= i < r.expected_outputs@.len() ==> valid_rel_path(
            #[trigger] r.expected_outputs@[i].path@,
        )
}

impl SandboxRequest {
    /// A fresh request with a one-minute default timeout.
    pub fn new(script_name: String, script_contents: String) -> (r: Self)
        ensures
            r.script_name@ == script_name@,
            r.script_contents@ == script_contents@,
            r.args@.len() == 0,
            r.files@.len() == 0,
            r.expected_outputs@.len() == 0,
            r.timeout_ms == 60000,
    {
        SandboxRequest {
            script_name,
            script_contents,
            args: Vec::new(),
            files: Vec::new(),
            expected_outputs: Vec::new(),
            timeout_ms: 60000,
        }
    }

    /// Input validation for the isolation boundary: succeeds exactly when no
    /// path escapes the workspace and the script is non-blank.
    pub fn validate(&self) -> (r: Result<(), DeepResearchError>)
        ensures
            r is Ok <==> spec_valid_request(*self),
    {
        if let Result::Err(e) = ensure_relpath(self.script_name.as_str()) {
            let mut m: String = "script name '".to_owned();
            m.append(self.script_name.as_str());
            m.append("' must be relative");
            return Result::Err(DeepResearchError::InputValidation(m));
        }
        if let Result::Err(e) = ensure_not_empty(self.script_contents.as_str(), "script_contents") {
            return Result::Err(e);
        }
        let mut i: usize = 0;
        while i < self.files.len()
            invariant
                i <= self.files@.len(),
                forall|j: int| 0 <= j < i ==> valid_rel_path(#[trigger] self.files@[j].path@),
            decreases self.files@.len() - i,
        {
            if let Result::Err(e) = ensure_relpath(self.files[i].path.as_str()) {
                let mut m: String = "file path '".to_owned();
                m.append(self.files[i].path.as_str());
                m.append("' must be relative");
                return Result::Err(DeepResearchError::InputValidation(m));
            }
            i = i + 1;
        }
        let mut k: usize = 0;
        while k < self.expected_outputs.len()
            invariant
                k <= self.expected_outputs@.len(),
                forall|j: int|
                    0 <= j < k ==> valid_rel_path(#[trigger] self.expected_outputs@[j].path@),
            decreases self.expected_outputs@.len() - k,
        {
            if let Result::Err(e) = ensure_relpath(self.expected_outputs[k].path.as_str()) {
                let mut m: String = "output path '".to_owned();
                m.append(self.expected_outputs[k].path.as_str());
                m.append("' must be relative");
                return Result::Err(DeepResearchError::InputValidation(m));
            }
            k = k + 1;
        }
        Result::Ok(())
    }
}

impl Clone for SandboxRequest {
    fn clone(&self) -> (r: Self)
        ensures
            r.script_name@ == self.script_name@,
            r.script_contents@ == self.script_contents@,
            r.args@ == self.args@,
            r.files@.len() == self.files@.len(),
            forall|i: int|
                0 <= i < self.files@.len() ==> sandbox_file_like(
                    #[trigger] r.files@[i],
                    self.files@[i],
                ),
            r.expected_outputs@ == self.expected_outputs@,
            r.timeout_ms == self.timeout_ms,
    {
        let mut files: Vec<SandboxFile> = Vec::new();
        let mut i: usize = 0;
        while i < self.files.len()
            invariant
                i <= self.files@.len(),
                files@.len() == i,
                forall|j: int|
                    0 <= j < i ==> sandbox_file_like(#[trigger] files@[j], self.files@[j]),
            decreases self.files@.len() - i,
        {
            let item = self.files[i].clone();
            proof {
                assert(sandbox_file_like(item, self.files@[i as int]));
            }
            files.push(item);
            i = i + 1;
        }
        let mut outputs: Vec<SandboxOutputSpec> = Vec::new();
        let mut k: usize = 0;
        while k < self.expected_outputs.len()
            invariant
                k <= self.expected_outputs@.len(),
                outputs@ == self.expected_outputs@.subrange(0, k as int),
            decreases self.expected_outputs@.len() - k,
        {
            outputs.push(self.expected_outputs[k].clone());
            proof {
                assert(outputs@ =~= self.expected_outputs@.subrange(0, k + 1 as int));
            }
            k = k + 1;
        }
        proof {
            assert(outputs@ =~= self.expected_outputs@);
        }
        SandboxRequest {
            script_name: self.script_name.clone(),
            script_contents: self.script_contents.clone(),
            args: clone_string_vec(&self.args),
            files,
            expected_outputs: outputs,
            timeout_ms: self.timeout_ms,
        }
    }
}

/// An artifact harvested from the workspace after the run.
#[derive(Debug)]
pub struct SandboxOutput {
    pub spec: SandboxOutputSpec,
    pub bytes: Vec<u8>,
}

/// Names what `String::from_utf8_lossy` decodes from a byte sequence.
pub uninterp spec fn lossy_decoded(bytes: Seq<u8>) -> Seq<char>;

/// Relies on std's `String::from_utf8_lossy`: the characters depend on the
/// bytes alone.
#[verifier::external_body]
fn decode_lossy(bytes: &Vec<u8>) -> (r: String)
    ensures
        r@ == lossy_decoded(bytes@),
{
    String::from_utf8_lossy(bytes).into_owned()
}

impl SandboxOutput {
    /// Text artifacts decode their bytes; binary artifacts return nothing.
    pub fn as_text(&self) -> (r: Option<String>)
        ensures
            self.spec.kind == SandboxOutputKind::Text ==> r is Some && r->0@ == lossy_decoded(
                self.bytes@,
            ),
            self.spec.kind == SandboxOutputKind::Binary ==> r is None,
    {
        if self.spec.kind == SandboxOutputKind::Text {
            Option::Some(decode_lossy(&self.bytes))
        } else {
            Option::None
        }
    }
}

/// The outcome of one sandbox run.
#[derive(Debug)]
pub struct SandboxResult {
    pub exit_code: Option<i32>,
    pub stdout: String,
    pub stderr: String,
    pub outputs: Vec<SandboxOutput>,
    pub timed_out: bool,
    pub duration_ms: u64,
}

/// Success means the run finished in time with exit code zero.
pub open spec fn spec_run_success(timed_out: bool, exit_code: Option<i32>) -> bool {
    !timed_out && exit_code == Option::Some(0i32)
}

impl SandboxResult {
    pub fn is_success(&self) -> (r: bool)
        ensures
            r == spec_run_success(self.timed_out, self.exit_code),
    {
        !self.timed_out && match self.exit_code {
            Option::Some(code) => code == 0,
            Option::None => false,
        }
    }

    /// Outcome classification: timeout beats exit status; exit zero is
    /// success; everything else is failure.
    pub fn status_label(&self) -> (r: String)
        ensures
            self.timed_out ==> r@ == "timeout"@,
            !self.timed_out && self.exit_code == Option::Some(0i32) ==> r@ == "success"@,
            !self.timed_out && self.exit_code != Option::Some(0i32) ==> r@ == "failure"@,
    {
        if self.timed_out {
            "timeout".to_owned()
        } else if self.is_success() {
            "success".to_owned()
        } else {
            "failure".to_owned()
        }
    }
}

/// An executor of sandbox requests: the service implements this over its
/// container runtime and hands outcomes back to the engine as plain
/// values.
pub trait SandboxExecutor {
    /// Run a validated request to completion, or describe why it could
    /// not run.
    fn execute(&mut self, request: SandboxRequest) -> Result<SandboxResult, String>;
}

/// The process-wide count of consecutive non-success runs. It is observable,
/// never a gate: it does not refuse new work.
#[derive(Debug)]
pub struct FailureStreak {
    pub count: u64,
}

impl FailureStreak {
    pub fn new() -> (s: Self)
        ensures
            s.count == 0,
    {
        FailureStreak { count: 0 }
    }

    /// Record one run. Success resets the streak; a non-success run
    /// lengthens it. The result says whether the streak has reached the
    /// elevated-telemetry threshold of three.
    pub fn record(&mut self, success: bool) -> (elevated: bool)
        ensures
            success ==> final(self).count == 0,
            !success && old(self).count < u64::MAX ==> final(self).count == old(self).count + 1,
            !success && old(self).count == u64::MAX ==> final(self).count == u64::MAX,
            elevated == (!success && final(self).count >= 3),
    {
        if success {
            self.count = 0;
            false
        } else {
            if self.count < u64::MAX {
                self.count = self.count + 1;
            }
            self.count >= 3
        }
    }

    pub fn current(&self) -> (r: u64)
        ensures
            r == self.count,
    {
        self.count
    }
}

/// How the container runs: as the invoking user or an explicit `uid:gid`.
#[derive(Debug)]
pub enum DockerRuntimeUser {
    CurrentUser,
    Explicit(String),
}

/// Static configuration of the container runtime.
#[derive(Debug)]
pub struct DockerSandboxConfig {
    pub image: String,
    pub docker_binary: String,
    pub workspace_root: String,
    pub memory_limit: Option<String>,
    pub cpus: Option<String>,
    pub tmpfs_size: String,
    pub cap_add: Vec<String>,
    pub env: Vec<(String, String)>,
    pub additional_args: Vec<String>,
    pub read_only_root: bool,
    pub disable_network: bool,
    pub python_binary: String,
    pub user: DockerRuntimeUser,
}

impl Default for DockerSandboxConfig {
    /// Hardened defaults: capped memory, cpus and pids, a read-only root,
    /// no network, and a headless plotting backend.
    fn default() -> (c: Self)
        ensures
            c.image@ == "deepresearch-python-sandbox:latest"@,
            c.docker_binary@ == "docker"@,
            c.workspace_root@ == "/tmp/deepresearch_sandbox"@,
            c.memory_limit is Some && c.memory_limit->0@ == "2g"@,
            c.cpus is Some && c.cpus->0@ == "2"@,
            c.tmpfs_size@ == "1G"@,
            c.cap_add@.len() == 4,
            c.env@.len() == 1,
            c.additional_args@.len() == 2,
            c.read_only_root,
            c.disable_network,
            c.python_binary@ == "python"@,
            c.user is CurrentUser,
    {
        let mut cap_add: Vec<String> = Vec::new();
        cap_add.push("CHOWN".to_owned());
        cap_add.push("SETUID".to_owned());
        cap_add.push("SETGID".to_owned());
        cap_add.push("FOWNER".to_owned());
        let mut env: Vec<(String, String)> = Vec::new();
        env.push(("MPLBACKEND".to_owned(), "Agg".to_owned()));
        let mut additional_args: Vec<String> = Vec::new();
        additional_args.push("--pids-limit".to_owned());
        additional_args.push("256".to_owned());
        DockerSandboxConfig {
            image: "deepresearch-python-sandbox:latest".to_owned(),
            docker_binary: "docker".to_owned(),
            workspace_root: "/tmp/deepresearch_sandbox".to_owned(),
            memory_limit: Option::Some("2g".to_owned()),
            cpus: Option::Some("2".to_owned()),
            tmpfs_size: "1G".to_owned(),
            cap_add,
            env,
            additional_args,
            read_only_root: true,
            disable_network: true,
            python_binary: "python".to_owned(),
            user: DockerRuntimeUser::CurrentUser,
        }
    }
}

/// Append one argument.
fn push_arg(v: &mut Vec<String>, s: String)
    ensures
        final(v).deep_view() == old(v).deep_view().push(s@),
{
    v.push(s);
    proof {
        assert(v.deep_view() =~= old(v).deep_view().push(s@));
    }
}

/// `--cap-add CAP` for each whitelisted capability, in order.
pub open spec fn caps_args(a: Seq<Seq<char>>, caps: Seq<String>, n: nat) -> Seq<Seq<char>>
    decreases n,
{
    if n == 0 {
        a
    } else {
        caps_args(a, caps, (n - 1) as nat).push("--cap-add"@).push(caps[n - 1]@)
    }
}

/// `--env KEY=VALUE` for each configured pair, in order.
pub open spec fn env_args(a: Seq<Seq<char>>, env: Seq<(String, String)>, n: nat) -> Seq<Seq<char>>
    decreases n,
{
    if n == 0 {
        a
    } else {
        env_args(a, env, (n - 1) as nat).push("--env"@).push(env[n - 1].0@ + "="@ + env[n - 1].1@)
    }
}

/// The given strings, appended in order.
pub open spec fn extend_args(a: Seq<Seq<char>>, items: Seq<String>, n: nat) -> Seq<Seq<char>>
    decreases n,
{
    if n == 0 {
        a
    } else {
        extend_args(a, items, (n - 1) as nat).push(items[n - 1]@)
    }
}

/// The exact `docker run` argument list for a request: isolation flags
/// (no-new-privileges, all capabilities dropped, read-only root, tmpfs
/// mounts, optional network denial, memory/cpu caps), the workspace bind
/// mount, configured environment, user mapping, the image, and finally the
/// interpreter with the script and its arguments.
pub open spec fn docker_args_of(
    config: DockerSandboxConfig,
    workspace_dir: Seq<char>,
    request: SandboxRequest,
    uid_gid: Option<Seq<char>>,
) -> Seq<Seq<char>> {
    let a = Seq::<Seq<char>>::empty().push("run"@).push("--rm"@);
    let a = if config.disable_network {
        a.push("--network"@).push("none"@)
    } else {
        a
    };
    let a = match config.memory_limit {
        Option::Some(m) => a.push("--memory"@).push(m@),
        Option::None => a,
    };
    let a = match config.cpus {
        Option::Some(c) => a.push("--cpus"@).push(c@),
        Option::None => a,
    };
    let a = a.push("--security-opt"@).push("no-new-privileges"@).push("--cap-drop"@).push("ALL"@);
    let a = caps_args(a, config.cap_add@, config.cap_add@.len());
    let a = if config.read_only_root {
        a.push("--read-only"@)
    } else {
        a
    };
    let a = a.push("--tmpfs"@).push("/tmp:exec,mode=1777,size="@ + config.tmpfs_size@).push(
        "--tmpfs"@,
    ).push("/var/tmp:exec,mode=1777,size="@ + config.tmpfs_size@).push("--tmpfs"@).push(
        "/run:exec,mode=1777,size=64m"@,
    );
    let a = a.push("-v"@).push(workspace_dir + ":/workspace:rw"@).push("-w"@).push("/workspace"@);
    let a = env_args(a, config.env@, config.env@.len());
    let a = match uid_gid {
        Option::Some(u) => a.push("--user"@).push(u),
        Option::None => a,
    };
    let a = extend_args(a, config.additional_args@, config.additional_args@.len());
    let a = a.push(config.image@).push(config.python_binary@).push(
        "/workspace/"@ + request.script_name@,
    );
    extend_args(a, request.args@, request.args@.len())
}

/// Build the container invocation for a validated request.
pub fn build_docker_args(
    config: &DockerSandboxConfig,
    workspace_dir: &str,
    request: &SandboxRequest,
    uid_gid: &Option<String>,
) -> (args: Vec<String>)
    ensures
        args.deep_view() == docker_args_of(
            *config,
            workspace_dir@,
            *request,
            match uid_gid {
                Option::Some(u) => Option::Some(u@),
                Option::None => Option::<Seq<char>>::None,
            },
        ),
{
    let mut args: Vec<String> = Vec::new();
    proof {
        assert(args.deep_view() =~= Seq::<Seq<char>>::empty());
    }
    push_arg(&mut args, "run".to_owned());
    push_arg(&mut args, "--rm".to_owned());

    if config.disable_network {
        push_arg(&mut args, "--network".to_owned());
        push_arg(&mut args, "none".to_owned());
    }

    match &config.memory_limit {
        Option::Some(m) => {
            push_arg(&mut args, "--memory".to_owned());
            push_arg(&mut args, m.clone());
        },
        Option::None => {},
    }

    match &config.cpus {
        Option::Some(c) => {
            push_arg(&mut args, "--cpus".to_owned());
            push_arg(&mut args, c.clone());
        },
        Option::None => {},
    }

    push_arg(&mut args, "--security-opt".to_owned());
    push_arg(&mut args, "no-new-privileges".to_owned());
    push_arg(&mut args, "--cap-drop".to_owned());
    push_arg(&mut args, "ALL".to_owned());

    let ghost caps_base = args.deep_view();
    let mut i: usize = 0;
    while i < config.cap_add.len()
        invariant
            i <= config.cap_add@.len(),
            args.deep_view() == caps_args(caps_base, config.cap_add@, i as nat),
        decreases config.cap_add@.len() - i,
    {
        push_arg(&mut args, "--cap-add".to_owned());
        push_arg(&mut args, config.cap_add[i].clone());
        i = i + 1;
    }

    if config.read_only_root {
        push_arg(&mut args, "--read-only".to_owned());
    }

    push_arg(&mut args, "--tmpfs".to_owned());
    let mut tmp_a: String = "/tmp:exec,mode=1777,size=".to_owned();
    tmp_a.append(config.tmpfs_size.as_str());
    push_arg(&mut args, tmp_a);
    push_arg(&mut args, "--tmpfs".to_owned());
    let mut tmp_b: String = "/var/tmp:exec,mode=1777,size=".to_owned();
    tmp_b.append(config.tmpfs_size.as_str());
    push_arg(&mut args, tmp_b);
    push_arg(&mut args, "--tmpfs".to_owned());
    push_arg(&mut args, "/run:exec,mode=1777,size=64m".to_owned());

    push_arg(&mut args, "-v".to_owned());
    let mut mount: String = workspace_dir.to_owned();
    mount.append(":/workspace:rw");
    push_arg(&mut args, mount);
    push_arg(&mut args, "-w".to_owned());
    push_arg(&mut args, "/workspace".to_owned());

    let ghost env_base = args.deep_view();
    let mut k: usize = 0;
    while k < config.env.len()
        invariant
            k <= config.env@.len(),
            args.deep_view() == env_args(env_base, config.env@, k as nat),
        decreases config.env@.len() - k,
    {
        push_arg(&mut args, "--env".to_owned());
        let mut pair: String = config.env[k].0.clone();
        pair.append("=");
        pair.append(config.env[k].1.as_str());
        push_arg(&mut args, pair);
        k = k + 1;
    }

    match uid_gid {
        Option::Some(u) => {
            push_arg(&mut args, "--user".to_owned());
            push_arg(&mut args, u.clone());
        },
        Option::None => {},
    }

    let ghost extra_base = args.deep_view();
    let mut n: usize = 0;
    while n < config.additional_args.len()
        invariant
            n <= config.additional_args@.len(),
            args.deep_view() == extend_args(extra_base, config.additional_args@, n as nat),
        decreases config.additional_args@.len() - n,
    {
        push_arg(&mut args, config.additional_args[n].clone());
        n = n + 1;
    }

    push_arg(&mut args, config.image.clone());
    push_arg(&mut args, config.python_binary.clone());
    let mut script: String = "/workspace/".to_owned();
    script.append(request.script_name.as_str());
    push_arg(&mut args, script);

    let ghost tail_base = args.deep_view();
    let mut m: usize = 0;
    while m < request.args.len()
        invariant
            m <= request.args@.len(),
            args.deep_view() == extend_args(tail_base, request.args@, m as nat),
        decreases request.args@.len() - m,
    {
        push_arg(&mut args, request.args[m].clone());
        m = m + 1;
    }

    args
}

} // verus!
