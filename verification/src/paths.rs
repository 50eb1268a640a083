//! On-disk layout of workspaces, image tag layout, and the per-user
//! container-engine socket.

use vstd::prelude::*;

use crate::model::{target_text, BuildTarget, RepoBuildInfo};

verus! {

/// Home folder of an OS user: `/home/{osuser}`.
pub open spec fn home_folder_spec(osuser: Seq<char>) -> Seq<char> {
    "/home/"@ + osuser
}

/// Folder of a workspace: `/home/{osuser}/workspaces/{workspace_name}`.
pub open spec fn workspace_folder_spec(osuser: Seq<char>, workspace_name: Seq<char>) -> Seq<char> {
    home_folder_spec(osuser) + "/workspaces/"@ + workspace_name
}

pub fn workspace_folder(osuser: &str, workspace_name: &str) -> (r: String)
    ensures
        r@ == workspace_folder_spec(osuser@, workspace_name@),
{
    let mut r = String::from_str("/home/");
    r.append(osuser);
    r.append("/workspaces/");
    r.append(workspace_name);
    r
}

/// Folder of a prebuild: `/home/{osuser}/workspaces/{prebuild_id}`.
pub fn prebuild_folder(osuser: &str, prebuild_id: &str) -> (r: String)
    ensures
        r@ == workspace_folder_spec(osuser@, prebuild_id@),
{
    workspace_folder(osuser, prebuild_id)
}

/// Working copy of the repository under build:
/// `/home/{osuser}/workspaces/{target}/{repo_name}`, where the target is the
/// workspace name or the prebuild id.
pub open spec fn build_repo_folder_spec(info: crate::model::RepoBuildInfoView) -> Seq<char> {
    workspace_folder_spec(info.osuser, target_text(info.target)) + "/"@ + info.repo_name
}

pub fn build_repo_folder(info: &RepoBuildInfo) -> (r: String)
    ensures
        r@ == build_repo_folder_spec(info@),
{
    let target: &str = match &info.target {
        BuildTarget::Workspace { name } => name.as_str(),
        BuildTarget::Prebuild { id } => id.as_str(),
    };
    let mut r = workspace_folder(info.osuser.as_str(), target);
    r.append("/");
    r.append(info.repo_name.as_str());
    r
}

/// The image tag of a build target: the workspace name, or the prebuild id,
/// verbatim.
pub fn repo_target_image_tag(target: &BuildTarget) -> (r: String)
    ensures
        r@ == target_text(target@),
{
    match target {
        BuildTarget::Workspace { name } => name.clone(),
        BuildTarget::Prebuild { id } => id.clone(),
    }
}

/// The image tag of one compose service: `{base_tag}:{service_name}`.
pub open spec fn compose_service_tag_spec(base_tag: Seq<char>, name: Seq<char>) -> Seq<char> {
    base_tag + ":"@ + name
}

pub fn compose_service_tag(base_tag: &str, name: &str) -> (r: String)
    ensures
        r@ == compose_service_tag_spec(base_tag@, name@),
{
    let mut r = String::from_str(base_tag);
    r.append(":");
    r.append(name);
    r
}

/// The per-user container-engine socket:
/// `/run/user/{uid}/podman/podman.sock`.
pub open spec fn podman_socket_spec(uid: Seq<char>) -> Seq<char> {
    "/run/user/"@ + uid + "/podman/podman.sock"@
}

pub fn podman_socket(uid: &str) -> (r: String)
    ensures
        r@ == podman_socket_spec(uid@),
{
    let mut r = String::from_str("/run/user/");
    r.append(uid);
    r.append("/podman/podman.sock");
    r
}

/// Joining a relative path onto a base folder; an absolute right-hand side
/// stands alone, as the platform's path join has it.
pub open spec fn path_join_spec(base: Seq<char>, rel: Seq<char>) -> Seq<char> {
    if rel.len() > 0 && rel[0] == '/' {
        rel
    } else {
        base + "/"@ + rel
    }
}

pub fn path_join(base: &str, rel: &str) -> (r: String)
    ensures
        r@ == path_join_spec(base@, rel@),
{
    if rel.unicode_len() > 0 && rel.get_char(0) == '/' {
        String::from_str(rel)
    } else {
        let mut r = String::from_str(base);
        r.append("/");
        r.append(rel);
        r
    }
}

/// Where a devcontainer configuration may sit inside the repository, and the
/// working directory that goes with each spot.
///
/// The folder form wins: with `.devcontainer/devcontainer.json` present the
/// working directory is `{repo}/.devcontainer`; otherwise a root
/// `.devcontainer.json` makes the repository itself the working directory;
/// with neither present there is no devcontainer.  The callers probe the two
/// spots and hand the outcome in.
pub fn devcontainer_location(
    repo_folder: &str,
    in_folder_exists: bool,
    at_root_exists: bool,
) -> (r: Option<(String, String)>)
    ensures
        r.deep_view() == devcontainer_location_spec(
            repo_folder@,
            in_folder_exists,
            at_root_exists,
        ),
{
    if in_folder_exists {
        let mut cwd = String::from_str(repo_folder);
        cwd.append("/.devcontainer");
        let mut file = String::from_str(cwd.as_str());
        file.append("/devcontainer.json");
        Some((cwd, file))
    } else if at_root_exists {
        let cwd = String::from_str(repo_folder);
        let mut file = String::from_str(repo_folder);
        file.append("/.devcontainer.json");
        Some((cwd, file))
    } else {
        None
    }
}

/// The chosen devcontainer spot: `(working directory, configuration file)`.
pub open spec fn devcontainer_location_spec(
    repo_folder: Seq<char>,
    in_folder_exists: bool,
    at_root_exists: bool,
) -> Option<(Seq<char>, Seq<char>)> {
    if in_folder_exists {
        Some(
            (
                repo_folder + "/.devcontainer"@,
                repo_folder + "/.devcontainer"@ + "/devcontainer.json"@,
            ),
        )
    } else if at_root_exists {
        Some((repo_folder, repo_folder + "/.devcontainer.json"@))
    } else {
        None
    }
}

/// The two spots the callers must probe, in the order of preference:
/// `{repo}/.devcontainer/devcontainer.json`, then `{repo}/.devcontainer.json`.
pub fn devcontainer_probe_paths(repo_folder: &str) -> (r: (String, String))
    ensures
        r.0@ == repo_folder@ + "/.devcontainer/devcontainer.json"@,
        r.1@ == repo_folder@ + "/.devcontainer.json"@,
{
    let mut in_folder = String::from_str(repo_folder);
    in_folder.append("/.devcontainer/devcontainer.json");
    let mut at_root = String::from_str(repo_folder);
    at_root.append("/.devcontainer.json");
    (in_folder, at_root)
}

/// The install script's spot inside a build context.
pub fn install_script_path(context: &str) -> (r: String)
    ensures
        r@ == context@ + "/install_guest_agent.sh"@,
{
    let mut r = String::from_str(context);
    r.append("/install_guest_agent.sh");
    r
}

/// The guest-agent binary's spot inside a build context.
pub fn guest_agent_path(context: &str) -> (r: String)
    ensures
        r@ == context@ + "/lapdev-guest-agent"@,
{
    let mut r = String::from_str(context);
    r.append("/lapdev-guest-agent");
    r
}

/// Where a compose service's Dockerfile sits: the build context joined onto
/// the working directory, then the named Dockerfile (or `Dockerfile`) inside
/// it.  Returns `(context, dockerfile)`.
pub fn dockerfile_location(cwd: &str, build: &crate::model::AdvancedBuildStep) -> (r: (
    String,
    String,
))
    ensures
        r.0@ == path_join_spec(cwd@, build.context@),
        r.1@ == match build.dockerfile.deep_view() {
            Some(name) => path_join_spec(path_join_spec(cwd@, build.context@), name),
            None => path_join_spec(path_join_spec(cwd@, build.context@), "Dockerfile"@),
        },
{
    let context = path_join(cwd, build.context.as_str());
    let dockerfile = match &build.dockerfile {
        Some(name) => path_join(context.as_str(), name.as_str()),
        None => path_join(context.as_str(), "Dockerfile"),
    };
    (context, dockerfile)
}

} // verus!
