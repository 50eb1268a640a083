//! The exact container-engine invocations the agent issues, as shell command
//! texts run through `su - {osuser} -c "..."`.

use vstd::prelude::*;

use crate::model::{DevContainerCmd, DevContainerCmdView, RepoBuildInfo};
use crate::paths::build_repo_folder_spec;
use crate::text::{dec_str, join_strings, join_with, u64_to_string};

verus! {

/// The CPU set flag's value: the CPU indices in decimal, comma-joined.
pub open spec fn cpuset_spec(cpus: Seq<u64>) -> Seq<char> {
    join_with(cpus.map_values(|c: u64| dec_str(c as nat)), ","@)
}

/// Each CPU index rendered in decimal, in order.
fn cpu_texts(cpus: &Vec<u64>) -> (r: Vec<String>)
    ensures
        r.deep_view() == cpus@.map_values(|c: u64| dec_str(c as nat)),
{
    let mut r: Vec<String> = Vec::new();
    let mut i: usize = 0;
    while i < cpus.len()
        invariant
            i <= cpus.len(),
            r.len() == i,
            forall|j: int| 0 <= j < i ==> r@[j]@ == dec_str(cpus@[j] as nat),
        decreases cpus.len() - i,
    {
        r.push(u64_to_string(cpus[i]));
        i = i + 1;
    }
    proof {
        let dv = r.deep_view();
        let mv = cpus@.map_values(|c: u64| dec_str(c as nat));
        assert forall|j: int| 0 <= j < dv.len() implies dv[j] == mv[j] by {
            assert(dv[j] == r@[j]@);
            assert(mv[j] == dec_str(cpus@[j] as nat));
        }
        assert(dv =~= mv);
    }
    r
}

pub fn cpuset_string(cpus: &Vec<u64>) -> (r: String)
    ensures
        r@ == cpuset_spec(cpus@),
{
    let texts = cpu_texts(cpus);
    join_strings(&texts, ",")
}

/// One build argument flag: `--build-arg {key}={value}`.
pub open spec fn build_arg_spec(key: Seq<char>, value: Seq<char>) -> Seq<char> {
    "--build-arg "@ + key + "="@ + value
}

/// The build argument flags of an environment, space-joined in its order.
pub open spec fn build_args_spec(env: Seq<(Seq<char>, Seq<char>)>) -> Seq<char> {
    join_with(env.map_values(|p: (Seq<char>, Seq<char>)| build_arg_spec(p.0, p.1)), " "@)
}

pub fn build_args_string(env: &Vec<(String, String)>) -> (r: String)
    ensures
        r@ == build_args_spec(env.deep_view()),
{
    let mut texts: Vec<String> = Vec::new();
    let mut i: usize = 0;
    while i < env.len()
        invariant
            i <= env.len(),
            texts.len() == i,
            forall|j: int| 0 <= j < i ==> texts@[j]@ == build_arg_spec(env@[j].0@, env@[j].1@),
        decreases env.len() - i,
    {
        let mut arg = String::from_str("--build-arg ");
        arg.append(env[i].0.as_str());
        arg.append("=");
        arg.append(env[i].1.as_str());
        texts.push(arg);
        i = i + 1;
    }
    proof {
        let dv = texts.deep_view();
        let mv = env.deep_view().map_values(
            |p: (Seq<char>, Seq<char>)| build_arg_spec(p.0, p.1),
        );
        assert forall|j: int| 0 <= j < dv.len() implies dv[j] == mv[j] by {
            assert(dv[j] == texts@[j]@);
            assert(env.deep_view()[j] == (env@[j].0@, env@[j].1@));
            assert(mv[j] == build_arg_spec(env@[j].0@, env@[j].1@));
        }
        assert(dv =~= mv);
    }
    join_strings(&texts, " ")
}

/// The image build command: changes into the working directory, then builds
/// without cache, with one build argument per environment entry, pinned to
/// the build's CPU set and memory, from the given Dockerfile, tagging the
/// result, over the given context.
pub open spec fn build_command_spec(
    info: crate::model::RepoBuildInfoView,
    cwd: Seq<char>,
    dockerfile: Seq<char>,
    tag: Seq<char>,
    context: Seq<char>,
) -> Seq<char> {
    "cd "@ + cwd + " && podman build --no-cache "@ + build_args_spec(info.env)
        + " --cpuset-cpus "@ + cpuset_spec(info.cpus) + " -m "@ + dec_str(info.memory as nat)
        + "g -f "@ + dockerfile + " -t "@ + tag + " "@ + context
}

pub fn build_command(
    info: &RepoBuildInfo,
    cwd: &str,
    dockerfile: &str,
    tag: &str,
    context: &str,
) -> (r: String)
    ensures
        r@ == build_command_spec(info@, cwd@, dockerfile@, tag@, context@),
{
    let mut r = String::from_str("cd ");
    r.append(cwd);
    r.append(" && podman build --no-cache ");
    r.append(build_args_string(&info.env).as_str());
    r.append(" --cpuset-cpus ");
    r.append(cpuset_string(&info.cpus).as_str());
    r.append(" -m ");
    r.append(u64_to_string(info.memory).as_str());
    r.append("g -f ");
    r.append(dockerfile);
    r.append(" -t ");
    r.append(tag);
    r.append(" ");
    r.append(context);
    r
}

/// The image pull command.
pub open spec fn pull_command_spec(image: Seq<char>) -> Seq<char> {
    "podman pull "@ + image
}

pub fn pull_command(image: &str) -> (r: String)
    ensures
        r@ == pull_command_spec(image@),
{
    let mut r = String::from_str("podman pull ");
    r.append(image);
    r
}

/// The command that launches the per-user engine service with no idle
/// timeout, fired when the per-user socket is absent.
pub fn engine_service_command() -> (r: String)
    ensures
        r@ == "podman system service --time=0"@,
{
    String::from_str("podman system service --time=0")
}

/// The argument list that runs a shell command as another OS user:
/// `su - {osuser} -c {command}`.
pub fn su_shell_args(osuser: &str, command: &str) -> (r: Vec<String>)
    ensures
        r.deep_view() =~~= seq!["-"@, osuser@, "-c"@, command@],
{
    let mut r: Vec<String> = Vec::new();
    r.push(String::from_str("-"));
    r.push(String::from_str(osuser));
    r.push(String::from_str("-c"));
    r.push(String::from_str(command));
    r
}

/// What a lifecycle command contributes to the shell line: the single
/// command verbatim, or the argv entries joined by single spaces.
pub open spec fn cmd_text_spec(cmd: DevContainerCmdView) -> Seq<char> {
    match cmd {
        DevContainerCmdView::Simple(s) => s,
        DevContainerCmdView::Args(v) => join_with(v, " "@),
    }
}

pub fn cmd_text(cmd: &DevContainerCmd) -> (r: String)
    ensures
        r@ == cmd_text_spec(cmd@),
{
    match cmd {
        DevContainerCmd::Simple(s) => s.clone(),
        DevContainerCmd::Args(v) => join_strings(v, " "),
    }
}

/// The lifecycle run command: a one-off container over the built image,
/// pinned to the build's CPU set and memory, with the repository mounted at
/// `/workspace` and the image's entrypoint disabled, running the command as
/// root.
pub open spec fn run_command_spec(
    info: crate::model::RepoBuildInfoView,
    image: Seq<char>,
    cmd: DevContainerCmdView,
) -> Seq<char> {
    "podman run --rm --cpuset-cpus "@ + cpuset_spec(info.cpus) + " -m "@ + dec_str(
        info.memory as nat,
    ) + "g --security-opt label=disable -v "@ + build_repo_folder_spec(info)
        + ":/workspace -w /workspace --user root --entrypoint \"\" "@ + image + " "@
        + cmd_text_spec(cmd)
}

pub fn run_devcontainer_command_text(info: &RepoBuildInfo, image: &str, cmd: &DevContainerCmd) -> (r:
    String)
    ensures
        r@ == run_command_spec(info@, image@, cmd@),
{
    let mut r = String::from_str("podman run --rm --cpuset-cpus ");
    r.append(cpuset_string(&info.cpus).as_str());
    r.append(" -m ");
    r.append(u64_to_string(info.memory).as_str());
    r.append("g --security-opt label=disable -v ");
    r.append(crate::paths::build_repo_folder(info).as_str());
    r.append(":/workspace -w /workspace --user root --entrypoint \"\" ");
    r.append(image);
    r.append(" ");
    r.append(cmd_text(cmd).as_str());
    r
}

} // verus!
