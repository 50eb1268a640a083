//! Everything an image build settles before any file is written: the full
//! Dockerfile text, the sidecar files' spots, their owner, and the engine
//! invocation.  The surrounding process materialises the files, runs the
//! command as the target user, and streams its output.

use vstd::prelude::*;

use crate::command::{build_command, build_command_spec};
use crate::dockerfile::{full_dockerfile, full_dockerfile_spec};
use crate::model::RepoBuildInfo;
use crate::paths::{guest_agent_path, install_script_path};

verus! {

/// `{osuser}:{osuser}`, the owner the sidecar files and the temporary
/// Dockerfile are handed to.
pub open spec fn owner_group_spec(osuser: Seq<char>) -> Seq<char> {
    osuser + ":"@ + osuser
}

pub fn owner_group(osuser: &str) -> (r: String)
    ensures
        r@ == owner_group_spec(osuser@),
{
    let mut r = String::from_str(osuser);
    r.append(":");
    r.append(osuser);
    r
}

/// One settled build invocation.
#[derive(Debug)]
pub struct BuildInvocation {
    /// The text of the temporary Dockerfile: the user's content with the
    /// guest-agent install block appended.
    pub dockerfile_text: String,
    /// Where the install script is written inside the build context.
    pub install_script_path: String,
    /// Where the guest-agent binary is written inside the build context.
    pub guest_agent_path: String,
    /// The owner the sidecars and the temporary Dockerfile get.
    pub owner: String,
    /// The shell command run as the target user.
    pub shell_command: String,
}

/// Settles a build: the Dockerfile text, the sidecars' spots inside the
/// context, their owner, and the exact engine command over the temporary
/// Dockerfile's spot.
pub fn prepare_build_invocation(
    info: &RepoBuildInfo,
    cwd: &str,
    context: &str,
    dockerfile_content: &str,
    temp_dockerfile: &str,
    tag: &str,
) -> (r: BuildInvocation)
    ensures
        r.dockerfile_text@ == full_dockerfile_spec(dockerfile_content@),
        r.install_script_path@ == context@ + "/install_guest_agent.sh"@,
        r.guest_agent_path@ == context@ + "/lapdev-guest-agent"@,
        r.owner@ == owner_group_spec(info@.osuser),
        r.shell_command@ == build_command_spec(info@, cwd@, temp_dockerfile@, tag@, context@),
{
    BuildInvocation {
        dockerfile_text: full_dockerfile(dockerfile_content),
        install_script_path: install_script_path(context),
        guest_agent_path: guest_agent_path(context),
        owner: owner_group(info.osuser.as_str()),
        shell_command: build_command(info, cwd, temp_dockerfile, tag, context),
    }
}

} // verus!
