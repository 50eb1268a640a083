//! Compose documents: environment extraction and the per-service build plan.

use vstd::prelude::*;

use crate::error::{ApiError, ApiErrorView};
use crate::model::{
    AdvancedBuildStep, AdvancedBuildStepView, BuildStep, BuildStepView, ComposeEnvironmentView,
    ComposeService, ComposeServiceView, RepoBuildOutput, RepoBuildOutputView, RepoComposeService,
    RepoComposeServiceView,
};
use crate::paths::compose_service_tag_spec;

verus! {

/// Splitting a `KEY=VALUE` entry on its first `=`: the part before it and
/// the part after it, or nothing when the entry has no `=` at all.  `"A="`
/// gives `("A", "")`; `"A=B=C"` gives `("A", "B=C")`; `"A"` gives nothing.
pub open spec fn split_env(s: Seq<char>) -> Option<(Seq<char>, Seq<char>)>
    decreases s.len(),
{
    if s.len() == 0 {
        None
    } else if s[0] == '=' {
        Some((Seq::empty(), s.drop_first()))
    } else {
        match split_env(s.drop_first()) {
            None => None,
            Some(kv) => Some((seq![s[0]] + kv.0, kv.1)),
        }
    }
}

proof fn lemma_split_env_at(s: Seq<char>, i: int)
    requires
        0 <= i < s.len(),
        s[i] == '=',
        forall|j: int| 0 <= j < i ==> s[j] != '=',
    ensures
        split_env(s) == Some((s.subrange(0, i), s.subrange(i + 1, s.len() as int))),
    decreases i,
{
    if i == 0 {
        assert(s.subrange(0, 0) =~= Seq::<char>::empty());
        assert(s.subrange(1, s.len() as int) =~= s.drop_first());
    } else {
        let t = s.drop_first();
        assert(forall|j: int| 0 <= j < i - 1 ==> t[j] != '=');
        lemma_split_env_at(t, i - 1);
        assert(seq![s[0]] + t.subrange(0, i - 1) =~= s.subrange(0, i));
        assert(t.subrange(i, t.len() as int) =~= s.subrange(i + 1, s.len() as int));
    }
}

proof fn lemma_split_env_none(s: Seq<char>)
    requires
        forall|j: int| 0 <= j < s.len() ==> s[j] != '=',
    ensures
        split_env(s) is None,
    decreases s.len(),
{
    if s.len() > 0 {
        lemma_split_env_none(s.drop_first());
    }
}

/// Splits one environment entry on its first `=`, as `split_env` says.
pub fn parse_env_entry(entry: &str) -> (r: Option<(String, String)>)
    ensures
        r.deep_view() == split_env(entry@),
{
    let n = entry.unicode_len();
    let mut i: usize = 0;
    while i < n
        invariant
            i <= n,
            n == entry@.len(),
            forall|j: int| 0 <= j < i ==> entry@[j] != '=',
        decreases n - i,
    {
        if entry.get_char(i) == '=' {
            let key = entry.substring_char(0, i);
            let value = entry.substring_char(i + 1, n);
            proof {
                lemma_split_env_at(entry@, i as int);
            }
            return Some((String::from_str(key), String::from_str(value)));
        }
        i = i + 1;
    }
    proof {
        lemma_split_env_none(entry@);
    }
    None
}

/// The environment of the list form: each entry split on its first `=`, the
/// entries without one dropped, in the list's order.
pub open spec fn env_from_list_spec(list: Seq<Seq<char>>) -> Seq<(Seq<char>, Seq<char>)>
    decreases list.len(),
{
    if list.len() == 0 {
        Seq::empty()
    } else {
        let rest = env_from_list_spec(list.drop_last());
        match split_env(list.last()) {
            Some(kv) => rest.push(kv),
            None => rest,
        }
    }
}

/// The environment of the mapping form: the keys whose value is present,
/// with that value, in the mapping's order.
pub open spec fn env_from_pairs_spec(pairs: Seq<(Seq<char>, Option<Seq<char>>)>) -> Seq<
    (Seq<char>, Seq<char>),
>
    decreases pairs.len(),
{
    if pairs.len() == 0 {
        Seq::empty()
    } else {
        let rest = env_from_pairs_spec(pairs.drop_last());
        match pairs.last().1 {
            Some(v) => rest.push((pairs.last().0, v)),
            None => rest,
        }
    }
}

/// A compose service's effective environment, from whichever form it wrote.
pub open spec fn compose_env_spec(env: ComposeEnvironmentView) -> Seq<(Seq<char>, Seq<char>)> {
    match env {
        ComposeEnvironmentView::List(list) => env_from_list_spec(list),
        ComposeEnvironmentView::KvPair(pairs) => env_from_pairs_spec(pairs),
    }
}

/// Extracts a service's environment, as `compose_env_spec` says.
pub fn compose_service_env(service: &ComposeService) -> (r: Vec<(String, String)>)
    ensures
        r.deep_view() == compose_env_spec(service@.environment),
{
    match &service.environment {
        crate::model::ComposeEnvironment::List(list) => {
            let mut r: Vec<(String, String)> = Vec::new();
            let mut i: usize = 0;
            while i < list.len()
                invariant
                    i <= list.len(),
                    r.deep_view() == env_from_list_spec(list.deep_view().take(i as int)),
                decreases list.len() - i,
            {
                let ghost prev = r.deep_view();
                match parse_env_entry(list[i].as_str()) {
                    Some(kv) => {
                        let ghost kvv = (kv.0@, kv.1@);
                        r.push(kv);
                        proof {
                            assert(r.deep_view() =~~= prev.push(kvv));
                        }
                    },
                    None => {},
                }
                proof {
                    let lv = list.deep_view();
                    assert(lv.take(i + 1 as int).drop_last() =~~= lv.take(i as int));
                    assert(lv.take(i + 1 as int).last() == lv[i as int]);
                    assert(lv[i as int] == list@[i as int]@);
                }
                i = i + 1;
            }
            proof {
                assert(list.deep_view().take(list.len() as int) =~~= list.deep_view());
            }
            r
        },
        crate::model::ComposeEnvironment::KvPair(pairs) => {
            let mut r: Vec<(String, String)> = Vec::new();
            let mut i: usize = 0;
            while i < pairs.len()
                invariant
                    i <= pairs.len(),
                    r.deep_view() == env_from_pairs_spec(pairs.deep_view().take(i as int)),
                decreases pairs.len() - i,
            {
                let ghost prev = r.deep_view();
                match &pairs[i].1 {
                    Some(v) => {
                        let kv = (pairs[i].0.clone(), v.clone());
                        let ghost kvv = (kv.0@, kv.1@);
                        r.push(kv);
                        proof {
                            assert(r.deep_view() =~~= prev.push(kvv));
                        }
                    },
                    None => {},
                }
                proof {
                    let pv = pairs.deep_view();
                    assert(pv.take(i + 1 as int).drop_last() =~~= pv.take(i as int));
                    assert(pv.take(i + 1 as int).last() == pv[i as int]);
                    assert(pv[i as int] == (pairs@[i as int].0@, pairs@[i as int].1.deep_view()));
                }
                i = i + 1;
            }
            proof {
                assert(pairs.deep_view().take(pairs.len() as int) =~~= pairs.deep_view());
            }
            r
        },
    }
}

/// Spec-level shape of a [`ServiceBuildMethod`].
pub enum ServiceBuildMethodView {
    Dockerfile(AdvancedBuildStepView),
    BaseImage(Seq<char>),
}

/// How one compose service's image is obtained: built from a Dockerfile, or
/// layered over a named base image.
#[derive(Debug, Clone)]
pub enum ServiceBuildMethod {
    Dockerfile(AdvancedBuildStep),
    BaseImage(String),
}

impl View for ServiceBuildMethod {
    type V = ServiceBuildMethodView;

    open spec fn view(&self) -> ServiceBuildMethodView {
        match self {
            ServiceBuildMethod::Dockerfile(b) => ServiceBuildMethodView::Dockerfile(b@),
            ServiceBuildMethod::BaseImage(img) => ServiceBuildMethodView::BaseImage(img@),
        }
    }
}

/// How a service's image is obtained: its `build` wins over its `image`, a
/// bare build context stands for the explicit form with the default
/// Dockerfile, and a service with neither cannot be built.
pub open spec fn service_method_spec(s: ComposeServiceView) -> Option<ServiceBuildMethodView> {
    match s.build {
        Some(BuildStepView::Simple(context)) => Some(
            ServiceBuildMethodView::Dockerfile(
                AdvancedBuildStepView { context, dockerfile: None },
            ),
        ),
        Some(BuildStepView::Advanced(b)) => Some(ServiceBuildMethodView::Dockerfile(b)),
        None => match s.image {
            Some(img) => Some(ServiceBuildMethodView::BaseImage(img)),
            None => None,
        },
    }
}

/// Picks a service's build method, as `service_method_spec` says.
pub fn service_build_method(service: &ComposeService) -> (r: Option<ServiceBuildMethod>)
    ensures
        match r {
            Some(m) => service_method_spec(service@) == Some(m@),
            None => service_method_spec(service@) is None,
        },
{
    match &service.build {
        Some(BuildStep::Simple(context)) => Some(
            ServiceBuildMethod::Dockerfile(
                AdvancedBuildStep { context: context.clone(), dockerfile: None },
            ),
        ),
        Some(BuildStep::Advanced(b)) => Some(
            ServiceBuildMethod::Dockerfile(
                AdvancedBuildStep {
                    context: b.context.clone(),
                    dockerfile: match &b.dockerfile {
                        Some(d) => Some(d.clone()),
                        None => None,
                    },
                },
            ),
        ),
        None => match &service.image {
            Some(img) => Some(ServiceBuildMethod::BaseImage(img.clone())),
            None => None,
        },
    }
}

/// Spec-level shape of a [`ComposeServicePlan`].
pub struct ComposeServicePlanView {
    pub name: Seq<char>,
    pub tag: Seq<char>,
    pub method: ServiceBuildMethodView,
    pub env: Seq<(Seq<char>, Seq<char>)>,
}

/// Everything settled about one service before its build runs: the service
/// name, the tag its image gets, how to build it, and its environment.
#[derive(Debug, Clone)]
pub struct ComposeServicePlan {
    pub name: String,
    pub tag: String,
    pub method: ServiceBuildMethod,
    pub env: Vec<(String, String)>,
}

impl View for ComposeServicePlan {
    type V = ComposeServicePlanView;

    open spec fn view(&self) -> ComposeServicePlanView {
        ComposeServicePlanView {
            name: self.name@,
            tag: self.tag@,
            method: self.method@,
            env: self.env.deep_view(),
        }
    }
}

impl DeepView for ComposeServicePlan {
    type V = ComposeServicePlanView;

    open spec fn deep_view(&self) -> ComposeServicePlanView {
        self.view()
    }
}

/// The build plan of a whole compose document: one plan per non-null
/// service, in the document's order, each tagged `{base_tag}:{name}`; a
/// non-null service with neither `build` nor `image` fails the whole plan.
pub open spec fn compose_plan_spec(
    services: Seq<(Seq<char>, Option<ComposeServiceView>)>,
    base_tag: Seq<char>,
) -> Option<Seq<ComposeServicePlanView>>
    decreases services.len(),
{
    if services.len() == 0 {
        Some(Seq::empty())
    } else {
        match compose_plan_spec(services.drop_last(), base_tag) {
            None => None,
            Some(rest) => {
                let (name, svc) = services.last();
                match svc {
                    None => Some(rest),
                    Some(s) => match service_method_spec(s) {
                        None => None,
                        Some(m) => Some(
                            rest.push(
                                ComposeServicePlanView {
                                    name,
                                    tag: compose_service_tag_spec(base_tag, name),
                                    method: m,
                                    env: compose_env_spec(s.environment),
                                },
                            ),
                        ),
                    },
                }
            },
        }
    }
}

/// One unbuildable service spoils the whole document: wherever a non-null
/// service has neither `build` nor `image`, no plan exists.
proof fn lemma_plan_fails(
    services: Seq<(Seq<char>, Option<ComposeServiceView>)>,
    i: int,
    base_tag: Seq<char>,
)
    requires
        0 <= i < services.len(),
        services[i].1 matches Some(s) && service_method_spec(s) is None,
    ensures
        compose_plan_spec(services, base_tag) is None,
    decreases services.len(),
{
    if i < services.len() - 1 {
        lemma_plan_fails(services.drop_last(), i, base_tag);
    }
}

/// Plans a compose build: one entry per non-null service in document order,
/// as `compose_plan_spec` says; a service with neither `build` nor `image`
/// makes the repository invalid.
pub fn plan_compose_build(services: &Vec<(String, Option<ComposeService>)>, base_tag: &str) -> (r:
    Result<Vec<ComposeServicePlan>, ApiError>)
    ensures
        match r {
            Ok(plans) => compose_plan_spec(services.deep_view(), base_tag@) == Some(
                plans.deep_view(),
            ),
            Err(e) => compose_plan_spec(services.deep_view(), base_tag@) is None && e@
                == ApiErrorView::RepositoryInvalid(
                "can't find image or build in this compose service"@,
            ),
        },
{
    let mut plans: Vec<ComposeServicePlan> = Vec::new();
    let mut i: usize = 0;
    while i < services.len()
        invariant
            i <= services.len(),
            compose_plan_spec(services.deep_view().take(i as int), base_tag@) == Some(
                plans.deep_view(),
            ),
        decreases services.len() - i,
    {
        let (name, svc) = &services[i];
        let ghost prev = plans.deep_view();
        match svc {
            Some(service) => {
                match service_build_method(service) {
                    Some(method) => {
                        let env = compose_service_env(service);
                        let plan = ComposeServicePlan {
                            name: name.clone(),
                            tag: crate::paths::compose_service_tag(base_tag, name.as_str()),
                            method,
                            env,
                        };
                        let ghost planv = plan@;
                        plans.push(plan);
                        proof {
                            assert(plans.deep_view() =~~= prev.push(planv));
                        }
                    },
                    None => {
                        proof {
                            let sv = services.deep_view();
                            assert(sv[i as int] == (
                                services@[i as int].0@,
                                services@[i as int].1.deep_view(),
                            ));
                            lemma_plan_fails(sv, i as int, base_tag@);
                        }
                        return Err(
                            ApiError::RepositoryInvalid(
                                String::from_str(
                                    "can't find image or build in this compose service",
                                ),
                            ),
                        );
                    },
                }
            },
            None => {},
        }
        proof {
            let sv = services.deep_view();
            assert(sv.take(i + 1 as int).drop_last() =~~= sv.take(i as int));
            assert(sv.take(i + 1 as int).last() == sv[i as int]);
            assert(sv[i as int] == (
                services@[i as int].0@,
                services@[i as int].1.deep_view(),
            ));
        }
        i = i + 1;
    }
    proof {
        assert(services.deep_view().take(services.len() as int) =~~= services.deep_view());
    }
    Ok(plans)
}

/// The number of non-null services in a compose document.
pub open spec fn non_null_count(services: Seq<(Seq<char>, Option<ComposeServiceView>)>) -> nat
    decreases services.len(),
{
    if services.len() == 0 {
        0
    } else {
        non_null_count(services.drop_last()) + (if services.last().1 is Some {
            1nat
        } else {
            0nat
        })
    }
}

/// The names of the non-null services, in document order.
pub open spec fn non_null_names(services: Seq<(Seq<char>, Option<ComposeServiceView>)>) -> Seq<
    Seq<char>,
>
    decreases services.len(),
{
    if services.len() == 0 {
        Seq::empty()
    } else {
        let rest = non_null_names(services.drop_last());
        if services.last().1 is Some {
            rest.push(services.last().0)
        } else {
            rest
        }
    }
}

/// A compose build's manifest mirrors its input: when the plan succeeds it
/// holds exactly one entry per non-null service, carrying the services'
/// names in the document's insertion order.
pub proof fn lemma_compose_manifest_matches_input(
    services: Seq<(Seq<char>, Option<ComposeServiceView>)>,
    base_tag: Seq<char>,
)
    ensures
        compose_plan_spec(services, base_tag) matches Some(plans) ==> {
            &&& plans.len() == non_null_count(services)
            &&& plans.map_values(|p: ComposeServicePlanView| p.name) =~= non_null_names(services)
        },
    decreases services.len(),
{
    if services.len() > 0 {
        lemma_compose_manifest_matches_input(services.drop_last(), base_tag);
        let planned = compose_plan_spec(services, base_tag);
        if planned is Some {
            let plans = planned.unwrap();
            let rest = compose_plan_spec(services.drop_last(), base_tag).unwrap();
            assert(rest.map_values(|p: ComposeServicePlanView| p.name) =~= non_null_names(
                services.drop_last(),
            ));
            if services.last().1 is Some {
                assert(plans.map_values(|p: ComposeServicePlanView| p.name) =~= rest.map_values(
                    |p: ComposeServicePlanView| p.name,
                ).push(services.last().0));
            }
        }
    }
}

/// The manifest entry of one planned service: its name, the tag its image
/// got, and its environment.
pub open spec fn manifest_entry_spec(p: ComposeServicePlanView) -> RepoComposeServiceView {
    RepoComposeServiceView { name: p.name, image: p.tag, env: p.env }
}

fn clone_env(env: &Vec<(String, String)>) -> (r: Vec<(String, String)>)
    ensures
        r.deep_view() == env.deep_view(),
{
    let mut r: Vec<(String, String)> = Vec::new();
    let mut i: usize = 0;
    while i < env.len()
        invariant
            i <= env.len(),
            r@.len() == i,
            forall|j: int| 0 <= j < i ==> r@[j] == env@[j],
        decreases env.len() - i,
    {
        r.push((env[i].0.clone(), env[i].1.clone()));
        i = i + 1;
    }
    proof {
        assert(r.deep_view() =~~= env.deep_view());
    }
    r
}

/// Assembles the handoff manifest of a finished compose build, one entry per
/// planned service in order.
pub fn compose_output(plans: &Vec<ComposeServicePlan>) -> (r: RepoBuildOutput)
    ensures
        r@ == RepoBuildOutputView::Compose(
            plans.deep_view().map_values(|p: ComposeServicePlanView| manifest_entry_spec(p)),
        ),
{
    let mut services: Vec<RepoComposeService> = Vec::new();
    let mut i: usize = 0;
    while i < plans.len()
        invariant
            i <= plans.len(),
            services@.len() == i,
            forall|j: int| 0 <= j < i ==> services@[j]@ == manifest_entry_spec(
                plans.deep_view()[j],
            ),
        decreases plans.len() - i,
    {
        let entry = RepoComposeService {
            name: plans[i].name.clone(),
            image: plans[i].tag.clone(),
            env: clone_env(&plans[i].env),
        };
        services.push(entry);
        i = i + 1;
    }
    let r = RepoBuildOutput::Compose(services);
    proof {
        let expected = plans.deep_view().map_values(
            |p: ComposeServicePlanView| manifest_entry_spec(p),
        );
        if let RepoBuildOutputView::Compose(got) = r@ {
            assert(got =~~= expected);
        }
    }
    r
}

} // verus!
