//! The exact remote commands the deployment runs on the provisioned host.
//!
//! Each builder returns the argument vector for one remote-execution call,
//! pinned element by element. The caller hands the vector to the remote
//! command channel (`ssh`, or `scp` for the file copy) unchanged.

use vstd::prelude::*;
use crate::text::dec_rep;
use crate::text::u64_to_dec;

verus! {

/// The login target on the provisioned host.
pub open spec fn ssh_target_spec(host: Seq<char>) -> Seq<char> {
    "ec2-user@"@ + host
}

/// Builds the login target for a host address.
pub fn ssh_target(host: &str) -> (r: String)
    ensures
        r@ == ssh_target_spec(host@),
{
    let mut s: String = "ec2-user@".to_owned();
    s.append(host);
    s
}

/// The copy destination: the login target's home directory.
pub open spec fn scp_target_spec(host: Seq<char>) -> Seq<char> {
    "ec2-user@"@ + host + ":~"@
}

/// The in-place substitution that rewrites the allocator configuration's
/// memory field to `mem` megabytes.
pub open spec fn sed_memory_expr_spec(mem: u64) -> Seq<char> {
    "'s/memory_mib: .*/memory_mib: "@ + dec_rep(mem as nat) + "/g'"@
}

/// The image's path on the host once copied to the home directory.
pub open spec fn remote_image_path_spec(eif_path: Seq<char>) -> Seq<char> {
    "~/"@ + eif_path
}

/// The command that stops any currently running enclaves, unconditionally.
pub open spec fn terminate_argv_spec(ssh_key: Seq<char>, host: Seq<char>) -> Seq<Seq<char>> {
    seq![
        "-i"@,
        ssh_key,
        ssh_target_spec(host),
        "nitro-cli"@,
        "terminate-enclave"@,
        "--all"@,
    ]
}

/// Builds the terminate command.
pub fn terminate_command(ssh_key: &str, host: &str) -> (r: Vec<String>)
    ensures
        r.deep_view() == terminate_argv_spec(ssh_key@, host@),
{
    let mut r: Vec<String> = Vec::new();
    r.push("-i".to_owned());
    r.push(ssh_key.to_owned());
    r.push(ssh_target(host));
    r.push("nitro-cli".to_owned());
    r.push("terminate-enclave".to_owned());
    r.push("--all".to_owned());
    proof {
        assert(r.deep_view() =~~= terminate_argv_spec(ssh_key@, host@));
    }
    r
}

/// The command that rewrites the host-local allocator configuration's memory
/// field to `mem` megabytes in place.
pub open spec fn reconfigure_argv_spec(ssh_key: Seq<char>, host: Seq<char>, mem: u64) -> Seq<
    Seq<char>,
> {
    seq![
        "-i"@,
        ssh_key,
        ssh_target_spec(host),
        "sudo"@,
        "sed"@,
        "-i"@,
        sed_memory_expr_spec(mem),
        "/etc/nitro_enclaves/allocator.yaml"@,
    ]
}

/// Builds the allocator reconfiguration command.
pub fn reconfigure_command(ssh_key: &str, host: &str, mem: u64) -> (r: Vec<String>)
    ensures
        r.deep_view() == reconfigure_argv_spec(ssh_key@, host@, mem),
{
    let mut expr: String = "'s/memory_mib: .*/memory_mib: ".to_owned();
    let dec = u64_to_dec(mem);
    expr.append(dec.as_str());
    expr.append("/g'");
    let mut r: Vec<String> = Vec::new();
    r.push("-i".to_owned());
    r.push(ssh_key.to_owned());
    r.push(ssh_target(host));
    r.push("sudo".to_owned());
    r.push("sed".to_owned());
    r.push("-i".to_owned());
    r.push(expr);
    r.push("/etc/nitro_enclaves/allocator.yaml".to_owned());
    proof {
        assert(r.deep_view() =~~= reconfigure_argv_spec(ssh_key@, host@, mem));
    }
    r
}

/// The command that restarts the host-local allocator service so a new
/// memory budget takes effect.
pub open spec fn restart_allocator_argv_spec(ssh_key: Seq<char>, host: Seq<char>) -> Seq<
    Seq<char>,
> {
    seq![
        "-i"@,
        ssh_key,
        ssh_target_spec(host),
        "sudo"@,
        "systemctl"@,
        "restart"@,
        "nitro-enclaves-allocator.service"@,
    ]
}

/// Builds the allocator restart command.
pub fn restart_allocator_command(ssh_key: &str, host: &str) -> (r: Vec<String>)
    ensures
        r.deep_view() == restart_allocator_argv_spec(ssh_key@, host@),
{
    let mut r: Vec<String> = Vec::new();
    r.push("-i".to_owned());
    r.push(ssh_key.to_owned());
    r.push(ssh_target(host));
    r.push("sudo".to_owned());
    r.push("systemctl".to_owned());
    r.push("restart".to_owned());
    r.push("nitro-enclaves-allocator.service".to_owned());
    proof {
        assert(r.deep_view() =~~= restart_allocator_argv_spec(ssh_key@, host@));
    }
    r
}

/// The secure-copy arguments that transfer the image file to the host's home
/// directory.
pub open spec fn copy_image_argv_spec(
    ssh_key: Seq<char>,
    eif_path: Seq<char>,
    host: Seq<char>,
) -> Seq<Seq<char>> {
    seq!["-i"@, ssh_key, eif_path, scp_target_spec(host)]
}

/// Builds the image copy arguments.
pub fn copy_image_command(ssh_key: &str, eif_path: &str, host: &str) -> (r: Vec<String>)
    ensures
        r.deep_view() == copy_image_argv_spec(ssh_key@, eif_path@, host@),
{
    let mut target = ssh_target(host);
    target.append(":~");
    let mut r: Vec<String> = Vec::new();
    r.push("-i".to_owned());
    r.push(ssh_key.to_owned());
    r.push(eif_path.to_owned());
    r.push(target);
    proof {
        assert(r.deep_view() =~~= copy_image_argv_spec(ssh_key@, eif_path@, host@));
    }
    r
}

/// The command that starts the enclave from the copied image with the given
/// processor count and memory budget; debug mode adds the flag that enables
/// console log capture.
pub open spec fn run_enclave_argv_spec(
    ssh_key: Seq<char>,
    host: Seq<char>,
    eif_path: Seq<char>,
    cpu_count: u64,
    mem: u64,
    debug_mode: bool,
) -> Seq<Seq<char>> {
    let base = seq![
        "-i"@,
        ssh_key,
        ssh_target_spec(host),
        "nitro-cli"@,
        "run-enclave"@,
        "--enclave-cid"@,
        "16"@,
        "--eif-path"@,
        remote_image_path_spec(eif_path),
        "--cpu-count"@,
        dec_rep(cpu_count as nat),
        "--memory"@,
        dec_rep(mem as nat),
    ];
    if debug_mode {
        base.push("--debug-mode"@)
    } else {
        base
    }
}

/// Builds the run command.
pub fn run_enclave_command(
    ssh_key: &str,
    host: &str,
    eif_path: &str,
    cpu_count: u64,
    mem: u64,
    debug_mode: bool,
) -> (r: Vec<String>)
    ensures
        r.deep_view() == run_enclave_argv_spec(ssh_key@, host@, eif_path@, cpu_count, mem, debug_mode),
{
    let mut remote_path: String = "~/".to_owned();
    remote_path.append(eif_path);
    let mut r: Vec<String> = Vec::new();
    r.push("-i".to_owned());
    r.push(ssh_key.to_owned());
    r.push(ssh_target(host));
    r.push("nitro-cli".to_owned());
    r.push("run-enclave".to_owned());
    r.push("--enclave-cid".to_owned());
    r.push("16".to_owned());
    r.push("--eif-path".to_owned());
    r.push(remote_path);
    r.push("--cpu-count".to_owned());
    r.push(u64_to_dec(cpu_count));
    r.push("--memory".to_owned());
    r.push(u64_to_dec(mem));
    if debug_mode {
        r.push("--debug-mode".to_owned());
    }
    proof {
        assert(r.deep_view() =~~= run_enclave_argv_spec(
            ssh_key@,
            host@,
            eif_path@,
            cpu_count,
            mem,
            debug_mode,
        ));
    }
    r
}

/// The command that queries the host for the list of described enclaves.
pub open spec fn describe_enclaves_argv_spec(ssh_key: Seq<char>, host: Seq<char>) -> Seq<
    Seq<char>,
> {
    seq!["-i"@, ssh_key, ssh_target_spec(host), "nitro-cli"@, "describe-enclaves"@]
}

/// Builds the describe command.
pub fn describe_enclaves_command(ssh_key: &str, host: &str) -> (r: Vec<String>)
    ensures
        r.deep_view() == describe_enclaves_argv_spec(ssh_key@, host@),
{
    let mut r: Vec<String> = Vec::new();
    r.push("-i".to_owned());
    r.push(ssh_key.to_owned());
    r.push(ssh_target(host));
    r.push("nitro-cli".to_owned());
    r.push("describe-enclaves".to_owned());
    proof {
        assert(r.deep_view() =~~= describe_enclaves_argv_spec(ssh_key@, host@));
    }
    r
}

/// The container-tool arguments that ask the image build collaborator to
/// describe an image's measurements: the caller's container configuration and
/// build directory are mounted in, and the image is addressed under the
/// mounted build directory.
pub open spec fn describe_image_argv_spec(
    home_dir: Seq<char>,
    build_dir: Seq<char>,
    eif_path: Seq<char>,
) -> Seq<Seq<char>> {
    seq![
        "run"@,
        "-v"@,
        home_dir + "/.docker:/root/.docker"@,
        "-v"@,
        "/var/run/docker.sock:/var/run/docker.sock"@,
        "-v"@,
        build_dir + ":/root/build"@,
        "capeprivacy/eif-builder:latest"@,
        "describe-eif"@,
        "--eif-path"@,
        "/root/build/"@ + eif_path,
    ]
}

/// Builds the describe-image arguments.
pub fn describe_image_command(home_dir: &str, build_dir: &str, eif_path: &str) -> (r: Vec<String>)
    ensures
        r.deep_view() == describe_image_argv_spec(home_dir@, build_dir@, eif_path@),
{
    let mut docker_mount: String = home_dir.to_owned();
    docker_mount.append("/.docker:/root/.docker");
    let mut build_mount: String = build_dir.to_owned();
    build_mount.append(":/root/build");
    let mut image_arg: String = "/root/build/".to_owned();
    image_arg.append(eif_path);
    let mut r: Vec<String> = Vec::new();
    r.push("run".to_owned());
    r.push("-v".to_owned());
    r.push(docker_mount);
    r.push("-v".to_owned());
    r.push("/var/run/docker.sock:/var/run/docker.sock".to_owned());
    r.push("-v".to_owned());
    r.push(build_mount);
    r.push("capeprivacy/eif-builder:latest".to_owned());
    r.push("describe-eif".to_owned());
    r.push("--eif-path".to_owned());
    r.push(image_arg);
    proof {
        assert(r.deep_view() =~~= describe_image_argv_spec(home_dir@, build_dir@, eif_path@));
    }
    r
}

/// The command that attaches to a running enclave's console, available only
/// for an enclave started in debug mode.
pub open spec fn console_argv_spec(
    ssh_key: Seq<char>,
    host: Seq<char>,
    enclave_name: Seq<char>,
) -> Seq<Seq<char>> {
    seq![
        "-i"@,
        ssh_key,
        ssh_target_spec(host),
        "nitro-cli"@,
        "console"@,
        "--enclave-name"@,
        enclave_name,
    ]
}

/// Builds the console command.
pub fn console_command(ssh_key: &str, host: &str, enclave_name: &str) -> (r: Vec<String>)
    ensures
        r.deep_view() == console_argv_spec(ssh_key@, host@, enclave_name@),
{
    let mut r: Vec<String> = Vec::new();
    r.push("-i".to_owned());
    r.push(ssh_key.to_owned());
    r.push(ssh_target(host));
    r.push("nitro-cli".to_owned());
    r.push("console".to_owned());
    r.push("--enclave-name".to_owned());
    r.push(enclave_name.to_owned());
    proof {
        assert(r.deep_view() =~~= console_argv_spec(ssh_key@, host@, enclave_name@));
    }
    r
}

} // verus!
