use lapdev_ws::model::{AdvancedBuildStep, BuildTarget, RepoBuildInfo};
use lapdev_ws::paths::{
    build_repo_folder, compose_service_tag, devcontainer_location, devcontainer_probe_paths,
    dockerfile_location, guest_agent_path, install_script_path, path_join, podman_socket,
    prebuild_folder, repo_target_image_tag, workspace_folder,
};

fn workspace_info() -> RepoBuildInfo {
    RepoBuildInfo {
        target: BuildTarget::Workspace { name: "w1".to_string() },
        osuser: "alice".to_string(),
        repo_name: "proj".to_string(),
        cpus: vec![0, 1],
        memory: 4,
        env: Vec::new(),
    }
}

#[test]
fn workspace_folder_layout() {
    assert_eq!(workspace_folder("alice", "w1"), "/home/alice/workspaces/w1");
}

#[test]
fn prebuild_folder_layout() {
    assert_eq!(
        prebuild_folder("bob", "7b3f7e9a-0000-0000-0000-000000000001"),
        "/home/bob/workspaces/7b3f7e9a-0000-0000-0000-000000000001"
    );
}

#[test]
fn build_repo_folder_for_workspace() {
    assert_eq!(build_repo_folder(&workspace_info()), "/home/alice/workspaces/w1/proj");
}

#[test]
fn build_repo_folder_for_prebuild() {
    let mut info = workspace_info();
    info.target = BuildTarget::Prebuild { id: "7b3".to_string() };
    assert_eq!(build_repo_folder(&info), "/home/alice/workspaces/7b3/proj");
}

#[test]
fn image_tag_is_target_text() {
    assert_eq!(
        repo_target_image_tag(&BuildTarget::Workspace { name: "w1".to_string() }),
        "w1"
    );
    assert_eq!(
        repo_target_image_tag(&BuildTarget::Prebuild { id: "7b3".to_string() }),
        "7b3"
    );
}

#[test]
fn compose_tag_appends_service_name() {
    assert_eq!(compose_service_tag("w1", "app"), "w1:app");
}

#[test]
fn podman_socket_per_user() {
    assert_eq!(podman_socket("1000"), "/run/user/1000/podman/podman.sock");
}

#[test]
fn path_join_relative_and_absolute() {
    assert_eq!(path_join("/a/b", "c"), "/a/b/c");
    assert_eq!(path_join("/a/b", "/c"), "/c");
    assert_eq!(path_join("/a/b", ""), "/a/b/");
}

#[test]
fn devcontainer_prefers_folder_form() {
    let repo = "/home/alice/workspaces/w1/proj";
    let (in_folder, at_root) = devcontainer_probe_paths(repo);
    assert_eq!(in_folder, "/home/alice/workspaces/w1/proj/.devcontainer/devcontainer.json");
    assert_eq!(at_root, "/home/alice/workspaces/w1/proj/.devcontainer.json");

    let both = devcontainer_location(repo, true, true).unwrap();
    assert_eq!(both.0, "/home/alice/workspaces/w1/proj/.devcontainer");
    assert_eq!(both.1, "/home/alice/workspaces/w1/proj/.devcontainer/devcontainer.json");

    let root_only = devcontainer_location(repo, false, true).unwrap();
    assert_eq!(root_only.0, repo);
    assert_eq!(root_only.1, "/home/alice/workspaces/w1/proj/.devcontainer.json");

    assert!(devcontainer_location(repo, false, false).is_none());
}

#[test]
fn dockerfile_location_default_and_named() {
    let cwd = "/home/alice/workspaces/w1/proj/.devcontainer";
    let build = AdvancedBuildStep { context: ".".to_string(), dockerfile: None };
    let (context, dockerfile) = dockerfile_location(cwd, &build);
    assert_eq!(context, format!("{cwd}/."));
    assert_eq!(dockerfile, format!("{cwd}/./Dockerfile"));

    let named = AdvancedBuildStep {
        context: "app".to_string(),
        dockerfile: Some("Custom.Dockerfile".to_string()),
    };
    let (context, dockerfile) = dockerfile_location(cwd, &named);
    assert_eq!(context, format!("{cwd}/app"));
    assert_eq!(dockerfile, format!("{cwd}/app/Custom.Dockerfile"));
}

#[test]
fn sidecar_paths_inside_context() {
    assert_eq!(install_script_path("/ctx"), "/ctx/install_guest_agent.sh");
    assert_eq!(guest_agent_path("/ctx"), "/ctx/lapdev-guest-agent");
}
