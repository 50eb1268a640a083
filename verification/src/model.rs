//! The agent's data model: build work units, devcontainer configuration,
//! compose documents, and build outputs, each with a spec-level view.

use vstd::prelude::*;

verus! {

/// What a build is for: a workspace (named) or a prebuild (keyed by the
/// prebuild id's canonical text).
pub enum BuildTargetView {
    Workspace { name: Seq<char> },
    Prebuild { id: Seq<char> },
}

/// What a build is for.  The prebuild id is the canonical text of the
/// prebuild's unique id; the surrounding process renders it once on receipt.
#[derive(Debug, Clone)]
pub enum BuildTarget {
    Workspace { name: String },
    Prebuild { id: String },
}

impl View for BuildTarget {
    type V = BuildTargetView;

    open spec fn view(&self) -> BuildTargetView {
        match self {
            BuildTarget::Workspace { name } => BuildTargetView::Workspace { name: name@ },
            BuildTarget::Prebuild { id } => BuildTargetView::Prebuild { id: id@ },
        }
    }
}

/// The text a target contributes to folders and image tags: the workspace
/// name, or the prebuild id verbatim.
pub open spec fn target_text(t: BuildTargetView) -> Seq<char> {
    match t {
        BuildTargetView::Workspace { name } => name,
        BuildTargetView::Prebuild { id } => id,
    }
}

/// Spec-level shape of a [`RepoBuildInfo`].
pub struct RepoBuildInfoView {
    pub target: BuildTargetView,
    pub osuser: Seq<char>,
    pub repo_name: Seq<char>,
    pub cpus: Seq<u64>,
    pub memory: u64,
    pub env: Seq<(Seq<char>, Seq<char>)>,
}

/// The unit of build work the Conductor dispatches: target, OS user, repo
/// name, CPU set, memory in gigabytes, and build-time environment entries.
#[derive(Debug, Clone)]
pub struct RepoBuildInfo {
    pub target: BuildTarget,
    pub osuser: String,
    pub repo_name: String,
    pub cpus: Vec<u64>,
    pub memory: u64,
    pub env: Vec<(String, String)>,
}

impl View for RepoBuildInfo {
    type V = RepoBuildInfoView;

    open spec fn view(&self) -> RepoBuildInfoView {
        RepoBuildInfoView {
            target: self.target@,
            osuser: self.osuser@,
            repo_name: self.repo_name@,
            cpus: self.cpus@,
            memory: self.memory,
            env: self.env.deep_view(),
        }
    }
}

/// Spec-level shape of a [`ContainerImageConfig`].
pub struct ContainerImageConfigView {
    pub entrypoint: Option<Seq<Seq<char>>>,
    pub cmd: Option<Seq<Seq<char>>>,
    pub exposed_ports: Option<Seq<Seq<char>>>,
}

/// The subset of an inspected image's configuration the builder reads:
/// entrypoint, default command, and exposed ports (as `port/proto` texts, in
/// the order the inspection handed them out).
#[derive(Debug, Clone)]
pub struct ContainerImageConfig {
    pub entrypoint: Option<Vec<String>>,
    pub cmd: Option<Vec<String>>,
    pub exposed_ports: Option<Vec<String>>,
}

impl View for ContainerImageConfig {
    type V = ContainerImageConfigView;

    open spec fn view(&self) -> ContainerImageConfigView {
        ContainerImageConfigView {
            entrypoint: self.entrypoint.deep_view(),
            cmd: self.cmd.deep_view(),
            exposed_ports: self.exposed_ports.deep_view(),
        }
    }
}

/// An inspected image: the configuration subset the builder acts on.
#[derive(Debug, Clone)]
pub struct ContainerImageInfo {
    pub config: ContainerImageConfig,
}

impl View for ContainerImageInfo {
    type V = ContainerImageConfigView;

    open spec fn view(&self) -> ContainerImageConfigView {
        self.config@
    }
}

/// Spec-level shape of a [`DevContainerCmd`].
pub enum DevContainerCmdView {
    Simple(Seq<char>),
    Args(Seq<Seq<char>>),
}

/// A command to run inside a container: one shell string, or an argv list.
#[derive(Debug, Clone)]
pub enum DevContainerCmd {
    Simple(String),
    Args(Vec<String>),
}

impl View for DevContainerCmd {
    type V = DevContainerCmdView;

    open spec fn view(&self) -> DevContainerCmdView {
        match self {
            DevContainerCmd::Simple(s) => DevContainerCmdView::Simple(s@),
            DevContainerCmd::Args(v) => DevContainerCmdView::Args(v.deep_view()),
        }
    }
}

impl DeepView for DevContainerCmd {
    type V = DevContainerCmdView;

    open spec fn deep_view(&self) -> DevContainerCmdView {
        self.view()
    }
}

/// Spec-level shape of a [`DevContainerLifeCycleCmd`].
pub enum DevContainerLifeCycleCmdView {
    Simple(Seq<char>),
    Args(Seq<Seq<char>>),
    Object(Seq<(Seq<char>, DevContainerCmdView)>),
}

/// A lifecycle hook: a single command, an argv list, or a mapping from
/// compose service name to a command, kept in the order it was written.
#[derive(Debug, Clone)]
pub enum DevContainerLifeCycleCmd {
    Simple(String),
    Args(Vec<String>),
    Object(Vec<(String, DevContainerCmd)>),
}

impl View for DevContainerLifeCycleCmd {
    type V = DevContainerLifeCycleCmdView;

    open spec fn view(&self) -> DevContainerLifeCycleCmdView {
        match self {
            DevContainerLifeCycleCmd::Simple(s) => DevContainerLifeCycleCmdView::Simple(s@),
            DevContainerLifeCycleCmd::Args(v) => DevContainerLifeCycleCmdView::Args(v.deep_view()),
            DevContainerLifeCycleCmd::Object(m) => DevContainerLifeCycleCmdView::Object(
                m.deep_view(),
            ),
        }
    }
}

/// Spec-level shape of a [`DevContainerConfig`].
pub struct DevContainerConfigView {
    pub service: Option<Seq<char>>,
    pub on_create_command: Option<DevContainerLifeCycleCmdView>,
    pub update_content_command: Option<DevContainerLifeCycleCmdView>,
    pub post_create_command: Option<DevContainerLifeCycleCmdView>,
}

/// The parsed devcontainer configuration the agent acts on: the main compose
/// service, and the three lifecycle hooks.
#[derive(Debug, Clone)]
pub struct DevContainerConfig {
    pub service: Option<String>,
    pub on_create_command: Option<DevContainerLifeCycleCmd>,
    pub update_content_command: Option<DevContainerLifeCycleCmd>,
    pub post_create_command: Option<DevContainerLifeCycleCmd>,
}

impl View for DevContainerConfig {
    type V = DevContainerConfigView;

    open spec fn view(&self) -> DevContainerConfigView {
        DevContainerConfigView {
            service: self.service.deep_view(),
            on_create_command: view_lifecycle_opt(&self.on_create_command),
            update_content_command: view_lifecycle_opt(&self.update_content_command),
            post_create_command: view_lifecycle_opt(&self.post_create_command),
        }
    }
}

/// The view of an optional lifecycle hook.
pub open spec fn view_lifecycle_opt(
    c: &Option<DevContainerLifeCycleCmd>,
) -> Option<DevContainerLifeCycleCmdView> {
    match c {
        Some(cmd) => Some(cmd@),
        None => None,
    }
}

/// Spec-level shape of an [`AdvancedBuildStep`].
pub struct AdvancedBuildStepView {
    pub context: Seq<char>,
    pub dockerfile: Option<Seq<char>>,
}

/// A compose build in its explicit form: a context folder and an optional
/// Dockerfile name inside it.
#[derive(Debug, Clone)]
pub struct AdvancedBuildStep {
    pub context: String,
    pub dockerfile: Option<String>,
}

impl View for AdvancedBuildStep {
    type V = AdvancedBuildStepView;

    open spec fn view(&self) -> AdvancedBuildStepView {
        AdvancedBuildStepView { context: self.context@, dockerfile: self.dockerfile.deep_view() }
    }
}

/// Spec-level shape of a [`BuildStep`].
pub enum BuildStepView {
    Simple(Seq<char>),
    Advanced(AdvancedBuildStepView),
}

/// A compose service's `build` entry: a bare context path, or the explicit
/// form.
#[derive(Debug, Clone)]
pub enum BuildStep {
    Simple(String),
    Advanced(AdvancedBuildStep),
}

impl View for BuildStep {
    type V = BuildStepView;

    open spec fn view(&self) -> BuildStepView {
        match self {
            BuildStep::Simple(s) => BuildStepView::Simple(s@),
            BuildStep::Advanced(b) => BuildStepView::Advanced(b@),
        }
    }
}

/// Spec-level shape of a [`ComposeEnvironment`].
pub enum ComposeEnvironmentView {
    List(Seq<Seq<char>>),
    KvPair(Seq<(Seq<char>, Option<Seq<char>>)>),
}

/// A compose service's environment: `KEY=VALUE` lines, or a mapping from key
/// to an optional scalar already rendered as text.
#[derive(Debug, Clone)]
pub enum ComposeEnvironment {
    List(Vec<String>),
    KvPair(Vec<(String, Option<String>)>),
}

impl View for ComposeEnvironment {
    type V = ComposeEnvironmentView;

    open spec fn view(&self) -> ComposeEnvironmentView {
        match self {
            ComposeEnvironment::List(v) => ComposeEnvironmentView::List(v.deep_view()),
            ComposeEnvironment::KvPair(v) => ComposeEnvironmentView::KvPair(v.deep_view()),
        }
    }
}

/// Spec-level shape of a [`ComposeService`].
pub struct ComposeServiceView {
    pub build: Option<BuildStepView>,
    pub image: Option<Seq<char>>,
    pub environment: ComposeEnvironmentView,
}

/// One service of a compose document: how to obtain its image, and its
/// environment.
#[derive(Debug, Clone)]
pub struct ComposeService {
    pub build: Option<BuildStep>,
    pub image: Option<String>,
    pub environment: ComposeEnvironment,
}

impl View for ComposeService {
    type V = ComposeServiceView;

    open spec fn view(&self) -> ComposeServiceView {
        ComposeServiceView {
            build: match &self.build {
                Some(b) => Some(b@),
                None => None,
            },
            image: self.image.deep_view(),
            environment: self.environment@,
        }
    }
}

impl DeepView for ComposeService {
    type V = ComposeServiceView;

    open spec fn deep_view(&self) -> ComposeServiceView {
        self.view()
    }
}

/// Spec-level shape of a [`RepoComposeService`].
pub struct RepoComposeServiceView {
    pub name: Seq<char>,
    pub image: Seq<char>,
    pub env: Seq<(Seq<char>, Seq<char>)>,
}

/// One entry of the service manifest a compose build hands back: the service
/// name, the image tag built for it, and its environment.
#[derive(Debug, Clone)]
pub struct RepoComposeService {
    pub name: String,
    pub image: String,
    pub env: Vec<(String, String)>,
}

impl View for RepoComposeService {
    type V = RepoComposeServiceView;

    open spec fn view(&self) -> RepoComposeServiceView {
        RepoComposeServiceView { name: self.name@, image: self.image@, env: self.env.deep_view() }
    }
}

impl DeepView for RepoComposeService {
    type V = RepoComposeServiceView;

    open spec fn deep_view(&self) -> RepoComposeServiceView {
        self.view()
    }
}

/// Spec-level shape of a [`RepoBuildOutput`].
pub enum RepoBuildOutputView {
    Image(Seq<char>),
    Compose(Seq<RepoComposeServiceView>),
}

/// The handoff artifact of a build: one image tag, or a service manifest.
#[derive(Debug, Clone)]
pub enum RepoBuildOutput {
    Image(String),
    Compose(Vec<RepoComposeService>),
}

impl View for RepoBuildOutput {
    type V = RepoBuildOutputView;

    open spec fn view(&self) -> RepoBuildOutputView {
        match self {
            RepoBuildOutput::Image(tag) => RepoBuildOutputView::Image(tag@),
            RepoBuildOutput::Compose(services) => RepoBuildOutputView::Compose(
                services.deep_view(),
            ),
        }
    }
}

} // verus!
