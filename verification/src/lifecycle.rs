//! Lifecycle command dispatch: which command runs against which image, for
//! the three devcontainer phases `onCreate`, `updateContent`, `postCreate`.

use vstd::prelude::*;

use crate::error::{ApiError, ApiErrorView};
use crate::model::{
    DevContainerCmd, DevContainerCmdView, DevContainerConfig, DevContainerConfigView,
    DevContainerLifeCycleCmd, DevContainerLifeCycleCmdView, RepoBuildOutput, RepoBuildOutputView,
    RepoComposeService, RepoComposeServiceView,
};

verus! {

/// Spec-level shape of a [`LifecycleRun`].
pub struct LifecycleRunView {
    pub image: Seq<char>,
    pub cmd: DevContainerCmdView,
}

/// One command execution a lifecycle phase asks for: the image to run it in,
/// and the command.
#[derive(Debug, Clone)]
pub struct LifecycleRun {
    pub image: String,
    pub cmd: DevContainerCmd,
}

impl View for LifecycleRun {
    type V = LifecycleRunView;

    open spec fn view(&self) -> LifecycleRunView {
        LifecycleRunView { image: self.image@, cmd: self.cmd@ }
    }
}

impl DeepView for LifecycleRun {
    type V = LifecycleRunView;

    open spec fn deep_view(&self) -> LifecycleRunView {
        self.view()
    }
}

/// The first service of the manifest carrying the name, if any.
pub open spec fn find_service(
    services: Seq<RepoComposeServiceView>,
    name: Seq<char>,
) -> Option<RepoComposeServiceView>
    decreases services.len(),
{
    if services.len() == 0 {
        None
    } else if services[0].name == name {
        Some(services[0])
    } else {
        find_service(services.drop_first(), name)
    }
}

proof fn lemma_find_service_at(services: Seq<RepoComposeServiceView>, name: Seq<char>, i: int)
    requires
        0 <= i < services.len(),
        services[i].name == name,
        forall|j: int| 0 <= j < i ==> services[j].name != name,
    ensures
        find_service(services, name) == Some(services[i]),
    decreases i,
{
    if i > 0 {
        lemma_find_service_at(services.drop_first(), name, i - 1);
    }
}

proof fn lemma_find_service_none(services: Seq<RepoComposeServiceView>, name: Seq<char>)
    requires
        forall|j: int| 0 <= j < services.len() ==> services[j].name != name,
    ensures
        find_service(services, name) is None,
    decreases services.len(),
{
    if services.len() > 0 {
        lemma_find_service_none(services.drop_first(), name);
    }
}

/// Looks a service up by name, first match as `find_service` says.
fn find_service_index(services: &Vec<RepoComposeService>, name: &String) -> (r: Option<usize>)
    ensures
        match r {
            Some(i) => i < services@.len() && find_service(services.deep_view(), name@) == Some(
                services@[i as int]@,
            ),
            None => find_service(services.deep_view(), name@) is None,
        },
{
    let mut i: usize = 0;
    while i < services.len()
        invariant
            i <= services.len(),
            forall|j: int| 0 <= j < i ==> services@[j]@.name != name@,
        decreases services.len() - i,
    {
        if services[i].name == *name {
            proof {
                let sv = services.deep_view();
                assert(forall|j: int| 0 <= j < i ==> sv[j] == services@[j]@);
                lemma_find_service_at(sv, name@, i as int);
            }
            return Some(i);
        }
        i = i + 1;
    }
    proof {
        let sv = services.deep_view();
        assert(forall|j: int| 0 <= j < sv.len() ==> sv[j] == services@[j]@);
        lemma_find_service_none(sv, name@);
    }
    None
}

fn clone_string_vec(v: &Vec<String>) -> (r: Vec<String>)
    ensures
        r@ == v@,
{
    let mut r: Vec<String> = Vec::new();
    let mut i: usize = 0;
    while i < v.len()
        invariant
            i <= v.len(),
            r@.len() == i,
            forall|j: int| 0 <= j < i ==> r@[j] == v@[j],
        decreases v.len() - i,
    {
        r.push(v[i].clone());
        i = i + 1;
    }
    proof {
        assert(r@ =~= v@);
    }
    r
}

fn clone_cmd(cmd: &DevContainerCmd) -> (r: DevContainerCmd)
    ensures
        r@ == cmd@,
{
    match cmd {
        DevContainerCmd::Simple(s) => DevContainerCmd::Simple(s.clone()),
        DevContainerCmd::Args(v) => DevContainerCmd::Args(clone_string_vec(v)),
    }
}

/// The runs of an object-form command against a compose manifest: one run
/// per entry whose service name the manifest carries, in the entries' order;
/// an entry naming an unknown service is skipped without complaint.
pub open spec fn object_runs_spec(
    services: Seq<RepoComposeServiceView>,
    entries: Seq<(Seq<char>, DevContainerCmdView)>,
) -> Seq<LifecycleRunView>
    decreases entries.len(),
{
    if entries.len() == 0 {
        Seq::empty()
    } else {
        let rest = object_runs_spec(services, entries.drop_last());
        match find_service(services, entries.last().0) {
            Some(s) => rest.push(LifecycleRunView { image: s.image, cmd: entries.last().1 }),
            None => rest,
        }
    }
}

/// The runs of a single (non-object) command against a compose manifest: one
/// run against the main service when the configuration names one and the
/// manifest carries it, and none otherwise.
pub open spec fn main_service_runs_spec(
    services: Seq<RepoComposeServiceView>,
    main_service: Option<Seq<char>>,
    cmd: DevContainerCmdView,
) -> Seq<LifecycleRunView> {
    match main_service {
        Some(name) => match find_service(services, name) {
            Some(s) => seq![LifecycleRunView { image: s.image, cmd }],
            None => Seq::empty(),
        },
        None => Seq::empty(),
    }
}

/// What one lifecycle command asks to run, or nothing at all when an
/// object-form command meets a single-image build.
pub open spec fn lifecycle_plan_spec(
    output: RepoBuildOutputView,
    main_service: Option<Seq<char>>,
    cmd: DevContainerLifeCycleCmdView,
) -> Option<Seq<LifecycleRunView>> {
    match output {
        RepoBuildOutputView::Image(tag) => match cmd {
            DevContainerLifeCycleCmdView::Simple(s) => Some(
                seq![LifecycleRunView { image: tag, cmd: DevContainerCmdView::Simple(s) }],
            ),
            DevContainerLifeCycleCmdView::Args(v) => Some(
                seq![LifecycleRunView { image: tag, cmd: DevContainerCmdView::Args(v) }],
            ),
            DevContainerLifeCycleCmdView::Object(_) => None,
        },
        RepoBuildOutputView::Compose(services) => match cmd {
            DevContainerLifeCycleCmdView::Simple(s) => Some(
                main_service_runs_spec(services, main_service, DevContainerCmdView::Simple(s)),
            ),
            DevContainerLifeCycleCmdView::Args(v) => Some(
                main_service_runs_spec(services, main_service, DevContainerCmdView::Args(v)),
            ),
            DevContainerLifeCycleCmdView::Object(entries) => Some(
                object_runs_spec(services, entries),
            ),
        },
    }
}

/// An object-form command has no single image to run against: on a
/// single-image build it plans nothing and is rejected.
pub proof fn lemma_object_form_needs_compose(
    tag: Seq<char>,
    main_service: Option<Seq<char>>,
    entries: Seq<(Seq<char>, DevContainerCmdView)>,
)
    ensures
        lifecycle_plan_spec(
            RepoBuildOutputView::Image(tag),
            main_service,
            DevContainerLifeCycleCmdView::Object(entries),
        ) is None,
{
}

/// One more object entry runs against its named service's image, or changes
/// nothing when the manifest does not carry the name: a missing service is
/// skipped, never an error.
pub proof fn lemma_object_entry_dispatch(
    services: Seq<RepoComposeServiceView>,
    entries: Seq<(Seq<char>, DevContainerCmdView)>,
    name: Seq<char>,
    cmd: DevContainerCmdView,
)
    ensures
        find_service(services, name) is None ==> object_runs_spec(
            services,
            entries.push((name, cmd)),
        ) == object_runs_spec(services, entries),
        find_service(services, name) matches Some(s) ==> object_runs_spec(
            services,
            entries.push((name, cmd)),
        ) == object_runs_spec(services, entries).push(
            LifecycleRunView { image: s.image, cmd },
        ),
{
    let pushed = entries.push((name, cmd));
    assert(pushed.drop_last() =~~= entries);
    assert(pushed.last() == (name, cmd));
}

/// Plans one lifecycle command, as `lifecycle_plan_spec` says; the plan that
/// does not exist is the invalid-lifecycle error.
pub fn plan_lifecycle_command(
    output: &RepoBuildOutput,
    config: &DevContainerConfig,
    cmd: &DevContainerLifeCycleCmd,
) -> (r: Result<Vec<LifecycleRun>, ApiError>)
    ensures
        match r {
            Ok(runs) => lifecycle_plan_spec(output@, config@.service, cmd@) == Some(
                runs.deep_view(),
            ),
            Err(e) => lifecycle_plan_spec(output@, config@.service, cmd@) is None && e@
                == ApiErrorView::InvalidLifecycle,
        },
{
    match output {
        RepoBuildOutput::Image(tag) => {
            match cmd {
                DevContainerLifeCycleCmd::Simple(s) => {
                    let run = LifecycleRun {
                        image: tag.clone(),
                        cmd: DevContainerCmd::Simple(s.clone()),
                    };
                    let runs = vec![run];
                    proof {
                        assert(runs.deep_view() =~~= seq![
                            LifecycleRunView { image: tag@, cmd: DevContainerCmdView::Simple(s@) },
                        ]);
                    }
                    Ok(runs)
                },
                DevContainerLifeCycleCmd::Args(v) => {
                    let run = LifecycleRun {
                        image: tag.clone(),
                        cmd: DevContainerCmd::Args(clone_string_vec(v)),
                    };
                    let runs = vec![run];
                    proof {
                        assert(runs.deep_view() =~~= seq![
                            LifecycleRunView {
                                image: tag@,
                                cmd: DevContainerCmdView::Args(v.deep_view()),
                            },
                        ]);
                    }
                    Ok(runs)
                },
                DevContainerLifeCycleCmd::Object(_) => Err(ApiError::InvalidLifecycle),
            }
        },
        RepoBuildOutput::Compose(services) => {
            match cmd {
                DevContainerLifeCycleCmd::Object(entries) => {
                    let mut runs: Vec<LifecycleRun> = Vec::new();
                    let mut i: usize = 0;
                    while i < entries.len()
                        invariant
                            i <= entries.len(),
                            runs.deep_view() == object_runs_spec(
                                services.deep_view(),
                                entries.deep_view().take(i as int),
                            ),
                        decreases entries.len() - i,
                    {
                        let ghost prev = runs.deep_view();
                        match find_service_index(services, &entries[i].0) {
                            Some(idx) => {
                                let run = LifecycleRun {
                                    image: services[idx].image.clone(),
                                    cmd: clone_cmd(&entries[i].1),
                                };
                                let ghost runv = run@;
                                runs.push(run);
                                proof {
                                    assert(runs.deep_view() =~~= prev.push(runv));
                                }
                            },
                            None => {},
                        }
                        proof {
                            let ev = entries.deep_view();
                            assert(ev.take(i + 1 as int).drop_last() =~~= ev.take(i as int));
                            assert(ev.take(i + 1 as int).last() == ev[i as int]);
                            assert(ev[i as int] == (
                                entries@[i as int].0@,
                                entries@[i as int].1.deep_view(),
                            ));
                        }
                        i = i + 1;
                    }
                    proof {
                        assert(entries.deep_view().take(entries.len() as int)
                            =~~= entries.deep_view());
                        let sv = services.deep_view();
                        if let RepoBuildOutputView::Compose(osv) = output@ {
                            assert(osv =~~= sv);
                        }
                    }
                    Ok(runs)
                },
                DevContainerLifeCycleCmd::Simple(s) => {
                    let single = DevContainerCmd::Simple(s.clone());
                    Ok(main_service_runs(services, config, single))
                },
                DevContainerLifeCycleCmd::Args(v) => {
                    let single = DevContainerCmd::Args(clone_string_vec(v));
                    Ok(main_service_runs(services, config, single))
                },
            }
        },
    }
}

/// Runs a single command against the configured main service, when the
/// manifest carries it.
fn main_service_runs(
    services: &Vec<RepoComposeService>,
    config: &DevContainerConfig,
    cmd: DevContainerCmd,
) -> (r: Vec<LifecycleRun>)
    ensures
        r.deep_view() == main_service_runs_spec(services.deep_view(), config@.service, cmd@),
{
    match &config.service {
        Some(name) => {
            match find_service_index(services, name) {
                Some(idx) => {
                    let run = LifecycleRun { image: services[idx].image.clone(), cmd };
                    let ghost runv = run@;
                    let runs = vec![run];
                    proof {
                        assert(runs.deep_view() =~~= seq![runv]);
                    }
                    runs
                },
                None => {
                    let runs: Vec<LifecycleRun> = Vec::new();
                    proof {
                        assert(runs.deep_view() =~~= Seq::<LifecycleRunView>::empty());
                    }
                    runs
                },
            }
        },
        None => {
            let runs: Vec<LifecycleRun> = Vec::new();
            proof {
                assert(runs.deep_view() =~~= Seq::<LifecycleRunView>::empty());
            }
            runs
        },
    }
}

/// What one optional phase contributes to a lifecycle's runs: its plan, or
/// nothing where the hook is absent or its plan does not exist (the phase's
/// error is suppressed so later phases still run).
pub open spec fn phase_runs_spec(
    output: RepoBuildOutputView,
    main_service: Option<Seq<char>>,
    cmd: Option<DevContainerLifeCycleCmdView>,
) -> Seq<LifecycleRunView> {
    match cmd {
        Some(c) => match lifecycle_plan_spec(output, main_service, c) {
            Some(runs) => runs,
            None => Seq::empty(),
        },
        None => Seq::empty(),
    }
}

/// A whole lifecycle's runs: `onCreate`, then `updateContent`, then
/// `postCreate`, in that order.
pub open spec fn lifecycle_all_runs_spec(
    output: RepoBuildOutputView,
    config: DevContainerConfigView,
) -> Seq<LifecycleRunView> {
    phase_runs_spec(output, config.service, config.on_create_command) + phase_runs_spec(
        output,
        config.service,
        config.update_content_command,
    ) + phase_runs_spec(output, config.service, config.post_create_command)
}

fn append_runs(acc: &mut Vec<LifecycleRun>, phase: Result<Vec<LifecycleRun>, ApiError>)
    ensures
        final(acc).deep_view() == old(acc).deep_view() + (match phase {
            Ok(runs) => runs.deep_view(),
            Err(_) => Seq::<LifecycleRunView>::empty(),
        }),
{
    match phase {
        Ok(runs) => {
            let ghost prev = acc.deep_view();
            let ghost added = runs.deep_view();
            let mut i: usize = 0;
            let n = runs.len();
            while i < n
                invariant
                    i <= n,
                    n == runs.len(),
                    runs.deep_view() == added,
                    acc.deep_view() == prev + added.take(i as int),
                decreases n - i,
            {
                let ghost before = acc.deep_view();
                let run = LifecycleRun {
                    image: runs[i].image.clone(),
                    cmd: clone_cmd(&runs[i].cmd),
                };
                let ghost runv = run@;
                acc.push(run);
                proof {
                    assert(acc.deep_view() =~~= before.push(runv));
                    assert(runv == added[i as int]);
                    assert(before.push(runv) =~~= prev + added.take(i + 1 as int));
                }
                i = i + 1;
            }
            proof {
                assert(added.take(n as int) =~~= added);
            }
        },
        Err(_) => {
            proof {
                assert(acc.deep_view() =~~= old(acc).deep_view()
                    + Seq::<LifecycleRunView>::empty());
            }
        },
    }
}

/// Plans a whole lifecycle, phases in their strict order, each phase's
/// failure suppressed, as `lifecycle_all_runs_spec` says.
pub fn plan_lifecycle_commands(output: &RepoBuildOutput, config: &DevContainerConfig) -> (r: Vec<
    LifecycleRun,
>)
    ensures
        r.deep_view() == lifecycle_all_runs_spec(output@, config@),
{
    let mut acc: Vec<LifecycleRun> = Vec::new();
    if let Some(cmd) = &config.on_create_command {
        append_runs(&mut acc, plan_lifecycle_command(output, config, cmd));
    }
    if let Some(cmd) = &config.update_content_command {
        append_runs(&mut acc, plan_lifecycle_command(output, config, cmd));
    }
    if let Some(cmd) = &config.post_create_command {
        append_runs(&mut acc, plan_lifecycle_command(output, config, cmd));
    }
    proof {
        assert(acc.deep_view() =~~= lifecycle_all_runs_spec(output@, config@));
    }
    acc
}

} // verus!
