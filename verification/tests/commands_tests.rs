use nitrogen::commands::{
    console_command, copy_image_command, describe_enclaves_command, describe_image_command,
    reconfigure_command, restart_allocator_command, run_enclave_command, terminate_command,
};
use nitrogen::text::{str_eq, u64_to_dec, usize_to_dec};

#[test]
fn decimal_rendering_is_exact() {
    assert_eq!(u64_to_dec(0), "0");
    assert_eq!(u64_to_dec(7), "7");
    assert_eq!(u64_to_dec(10), "10");
    assert_eq!(u64_to_dec(1234567890), "1234567890");
    assert_eq!(u64_to_dec(u64::MAX), "18446744073709551615");
    assert_eq!(usize_to_dec(5000), "5000");
}

#[test]
fn slice_equality_is_by_content() {
    assert!(str_eq("RUNNING", "RUNNING"));
    assert!(!str_eq("RUNNING", "running"));
    assert!(!str_eq("RUNNING", ""));
}

#[test]
fn terminate_command_is_exact() {
    assert_eq!(
        terminate_command("key.pem", "h.example"),
        ["-i", "key.pem", "ec2-user@h.example", "nitro-cli", "terminate-enclave", "--all"]
    );
}

#[test]
fn reconfigure_command_embeds_the_budget() {
    assert_eq!(
        reconfigure_command("key.pem", "h.example", 1234),
        [
            "-i",
            "key.pem",
            "ec2-user@h.example",
            "sudo",
            "sed",
            "-i",
            "'s/memory_mib: .*/memory_mib: 1234/g'",
            "/etc/nitro_enclaves/allocator.yaml",
        ]
    );
}

#[test]
fn restart_command_is_exact() {
    assert_eq!(
        restart_allocator_command("key.pem", "h.example"),
        [
            "-i",
            "key.pem",
            "ec2-user@h.example",
            "sudo",
            "systemctl",
            "restart",
            "nitro-enclaves-allocator.service",
        ]
    );
}

#[test]
fn copy_command_targets_the_home_directory() {
    assert_eq!(
        copy_image_command("key.pem", "app.eif", "h.example"),
        ["-i", "key.pem", "app.eif", "ec2-user@h.example:~"]
    );
}

#[test]
fn run_command_is_exact_without_debug() {
    assert_eq!(
        run_enclave_command("key.pem", "h.example", "app.eif", 2, 35, false),
        [
            "-i",
            "key.pem",
            "ec2-user@h.example",
            "nitro-cli",
            "run-enclave",
            "--enclave-cid",
            "16",
            "--eif-path",
            "~/app.eif",
            "--cpu-count",
            "2",
            "--memory",
            "35",
        ]
    );
}

#[test]
fn run_command_appends_the_debug_flag() {
    let argv = run_enclave_command("key.pem", "h.example", "app.eif", 4, 1024, true);
    assert_eq!(argv.len(), 14);
    assert_eq!(argv[10], "4");
    assert_eq!(argv[12], "1024");
    assert_eq!(argv[13], "--debug-mode");
}

#[test]
fn describe_command_is_exact() {
    assert_eq!(
        describe_enclaves_command("key.pem", "h.example"),
        ["-i", "key.pem", "ec2-user@h.example", "nitro-cli", "describe-enclaves"]
    );
}

#[test]
fn console_command_names_the_enclave() {
    assert_eq!(
        console_command("key.pem", "h.example", "app"),
        [
            "-i",
            "key.pem",
            "ec2-user@h.example",
            "nitro-cli",
            "console",
            "--enclave-name",
            "app",
        ]
    );
}

#[test]
fn describe_image_command_mounts_the_build_directory() {
    assert_eq!(
        describe_image_command("/home/me", "/work/build", "app.eif"),
        [
            "run",
            "-v",
            "/home/me/.docker:/root/.docker",
            "-v",
            "/var/run/docker.sock:/var/run/docker.sock",
            "-v",
            "/work/build:/root/build",
            "capeprivacy/eif-builder:latest",
            "describe-eif",
            "--eif-path",
            "/root/build/app.eif",
        ]
    );
}
