use lapdev_ws::builder::{owner_group, prepare_build_invocation};
use lapdev_ws::command::{
    build_args_string, build_command, cmd_text, cpuset_string, engine_service_command,
    pull_command, run_devcontainer_command_text, su_shell_args,
};
use lapdev_ws::model::{BuildTarget, DevContainerCmd, RepoBuildInfo};
use lapdev_ws::text::{join_strings, trim_line_end, u64_to_string};

fn workspace_info() -> RepoBuildInfo {
    RepoBuildInfo {
        target: BuildTarget::Workspace { name: "w1".to_string() },
        osuser: "alice".to_string(),
        repo_name: "proj".to_string(),
        cpus: vec![0, 1],
        memory: 4,
        env: Vec::new(),
    }
}

#[test]
fn decimal_rendering() {
    assert_eq!(u64_to_string(0), "0");
    assert_eq!(u64_to_string(7), "7");
    assert_eq!(u64_to_string(10), "10");
    assert_eq!(u64_to_string(65535), "65535");
    assert_eq!(u64_to_string(u64::MAX), "18446744073709551615");
}

#[test]
fn joining() {
    let none: Vec<String> = Vec::new();
    assert_eq!(join_strings(&none, ","), "");
    assert_eq!(join_strings(&vec!["a".to_string()], ","), "a");
    assert_eq!(join_strings(&vec!["a".to_string(), "b".to_string()], ", "), "a, b");
}

#[test]
fn line_end_trimming() {
    assert_eq!(trim_line_end("step 1/3 done\n"), "step 1/3 done");
    assert_eq!(trim_line_end("a \t\r\n"), "a");
    assert_eq!(trim_line_end("  a"), "  a");
    assert_eq!(trim_line_end(" \n"), "");
    assert_eq!(trim_line_end(""), "");
}

#[test]
fn cpuset_comma_joined() {
    assert_eq!(cpuset_string(&vec![0, 1]), "0,1");
    assert_eq!(cpuset_string(&vec![3]), "3");
    assert_eq!(cpuset_string(&Vec::new()), "");
}

#[test]
fn build_args_space_joined() {
    assert_eq!(build_args_string(&Vec::new()), "");
    assert_eq!(
        build_args_string(&vec![("A".to_string(), "1".to_string())]),
        "--build-arg A=1"
    );
    assert_eq!(
        build_args_string(&vec![
            ("A".to_string(), "1".to_string()),
            ("B".to_string(), "x=y".to_string()),
        ]),
        "--build-arg A=1 --build-arg B=x=y"
    );
}

#[test]
fn build_command_for_workspace_build() {
    let info = workspace_info();
    let cmd = build_command(
        &info,
        "/home/alice/workspaces/w1/proj",
        "/tmp/dockerfile",
        "w1",
        "/home/alice/workspaces/w1/proj",
    );
    assert_eq!(
        cmd,
        "cd /home/alice/workspaces/w1/proj && podman build --no-cache  --cpuset-cpus 0,1 \
         -m 4g -f /tmp/dockerfile -t w1 /home/alice/workspaces/w1/proj"
    );
    assert!(cmd.contains("--cpuset-cpus 0,1"));
    assert!(cmd.contains("-m 4g"));
}

#[test]
fn build_command_carries_build_args() {
    let mut info = workspace_info();
    info.env = vec![("K".to_string(), "V".to_string())];
    let cmd = build_command(&info, "/r", "/tmp/df", "w1", "/r");
    assert!(cmd.contains("podman build --no-cache --build-arg K=V --cpuset-cpus 0,1"));
}

#[test]
fn pull_and_service_commands() {
    assert_eq!(pull_command("ubuntu:22.04"), "podman pull ubuntu:22.04");
    assert_eq!(engine_service_command(), "podman system service --time=0");
}

#[test]
fn su_invocation_shape() {
    let args = su_shell_args("alice", "podman pull ubuntu");
    assert_eq!(args, vec!["-", "alice", "-c", "podman pull ubuntu"]);
}

#[test]
fn args_command_joined_by_single_spaces() {
    assert_eq!(
        cmd_text(&DevContainerCmd::Args(vec!["echo".to_string(), "hello".to_string()])),
        "echo hello"
    );
    assert_eq!(cmd_text(&DevContainerCmd::Simple("echo hi".to_string())), "echo hi");
}

#[test]
fn build_invocation_settles_everything() {
    let info = workspace_info();
    let invocation = prepare_build_invocation(
        &info,
        "/home/alice/workspaces/w1/proj",
        "/home/alice/workspaces/w1/proj",
        "FROM scratch",
        "/tmp/df",
        "w1",
    );
    assert!(invocation.dockerfile_text.starts_with("FROM scratch\nUSER root\n"));
    assert!(invocation.dockerfile_text.ends_with("RUN rm /install_guest_agent.sh\n"));
    assert_eq!(
        invocation.install_script_path,
        "/home/alice/workspaces/w1/proj/install_guest_agent.sh"
    );
    assert_eq!(
        invocation.guest_agent_path,
        "/home/alice/workspaces/w1/proj/lapdev-guest-agent"
    );
    assert_eq!(invocation.owner, "alice:alice");
    assert_eq!(
        invocation.shell_command,
        build_command(
            &info,
            "/home/alice/workspaces/w1/proj",
            "/tmp/df",
            "w1",
            "/home/alice/workspaces/w1/proj",
        )
    );
}

#[test]
fn owner_group_shape() {
    assert_eq!(owner_group("bob"), "bob:bob");
}

#[test]
fn lifecycle_run_command_shape() {
    let info = workspace_info();
    let cmd = run_devcontainer_command_text(
        &info,
        "w1:app",
        &DevContainerCmd::Simple("echo hello".to_string()),
    );
    assert_eq!(
        cmd,
        "podman run --rm --cpuset-cpus 0,1 -m 4g --security-opt label=disable \
         -v /home/alice/workspaces/w1/proj:/workspace -w /workspace --user root \
         --entrypoint \"\" w1:app echo hello"
    );
}
