use lapdev_ws::compose::{
    compose_output, compose_service_env, parse_env_entry, plan_compose_build, ServiceBuildMethod,
};
use lapdev_ws::error::ApiError;
use lapdev_ws::model::{
    BuildStep, ComposeEnvironment, ComposeService, RepoBuildOutput,
};

fn service(build: Option<BuildStep>, image: Option<&str>) -> ComposeService {
    ComposeService {
        build,
        image: image.map(|s| s.to_string()),
        environment: ComposeEnvironment::List(Vec::new()),
    }
}

#[test]
fn env_entry_with_empty_value() {
    let (k, v) = parse_env_entry("A=").unwrap();
    assert_eq!(k, "A");
    assert_eq!(v, "");
}

#[test]
fn env_entry_without_equals_is_dropped() {
    assert!(parse_env_entry("A").is_none());
}

#[test]
fn env_entry_splits_on_first_equals() {
    let (k, v) = parse_env_entry("A=B=C").unwrap();
    assert_eq!(k, "A");
    assert_eq!(v, "B=C");
}

#[test]
fn env_entry_with_empty_key() {
    let (k, v) = parse_env_entry("=B").unwrap();
    assert_eq!(k, "");
    assert_eq!(v, "B");
}

#[test]
fn env_entry_doubled_equals() {
    let (k, v) = parse_env_entry("A==B").unwrap();
    assert_eq!(k, "A");
    assert_eq!(v, "=B");
}

#[test]
fn env_list_form_keeps_order_and_drops_malformed() {
    let svc = ComposeService {
        build: None,
        image: Some("img".to_string()),
        environment: ComposeEnvironment::List(vec![
            "A=1".to_string(),
            "BROKEN".to_string(),
            "B=".to_string(),
        ]),
    };
    assert_eq!(
        compose_service_env(&svc),
        vec![("A".to_string(), "1".to_string()), ("B".to_string(), "".to_string())]
    );
}

#[test]
fn env_mapping_form_drops_null_values() {
    let svc = ComposeService {
        build: None,
        image: Some("img".to_string()),
        environment: ComposeEnvironment::KvPair(vec![
            ("A".to_string(), Some("1".to_string())),
            ("B".to_string(), None),
            ("C".to_string(), Some("x".to_string())),
        ]),
    };
    assert_eq!(
        compose_service_env(&svc),
        vec![("A".to_string(), "1".to_string()), ("C".to_string(), "x".to_string())]
    );
}

#[test]
fn compose_build_two_services() {
    let services = vec![
        (
            "app".to_string(),
            Some(service(Some(BuildStep::Simple("./app".to_string())), None)),
        ),
        ("db".to_string(), Some(service(None, Some("postgres:15")))),
    ];
    let plans = plan_compose_build(&services, "w1").unwrap();
    assert_eq!(plans.len(), 2);

    assert_eq!(plans[0].name, "app");
    assert_eq!(plans[0].tag, "w1:app");
    assert!(plans[0].env.is_empty());
    match &plans[0].method {
        ServiceBuildMethod::Dockerfile(b) => {
            assert_eq!(b.context, "./app");
            assert!(b.dockerfile.is_none());
        }
        other => panic!("unexpected method: {other:?}"),
    }

    assert_eq!(plans[1].name, "db");
    assert_eq!(plans[1].tag, "w1:db");
    match &plans[1].method {
        ServiceBuildMethod::BaseImage(img) => assert_eq!(img, "postgres:15"),
        other => panic!("unexpected method: {other:?}"),
    }

    match compose_output(&plans) {
        RepoBuildOutput::Compose(manifest) => {
            assert_eq!(manifest.len(), 2);
            assert_eq!(manifest[0].name, "app");
            assert_eq!(manifest[0].image, "w1:app");
            assert!(manifest[0].env.is_empty());
            assert_eq!(manifest[1].name, "db");
            assert_eq!(manifest[1].image, "w1:db");
            assert!(manifest[1].env.is_empty());
        }
        other => panic!("unexpected output: {other:?}"),
    }
}

#[test]
fn compose_build_skips_null_services() {
    let services = vec![
        ("ghost".to_string(), None),
        ("db".to_string(), Some(service(None, Some("postgres:15")))),
    ];
    let plans = plan_compose_build(&services, "w1").unwrap();
    assert_eq!(plans.len(), 1);
    assert_eq!(plans[0].name, "db");
}

#[test]
fn compose_build_needs_image_or_build() {
    let services = vec![("app".to_string(), Some(service(None, None)))];
    match plan_compose_build(&services, "w1") {
        Err(ApiError::RepositoryInvalid(msg)) => {
            assert_eq!(msg, "can't find image or build in this compose service");
        }
        other => panic!("unexpected result: {other:?}"),
    }
}

#[test]
fn compose_build_prefers_build_over_image() {
    let services = vec![(
        "app".to_string(),
        Some(service(Some(BuildStep::Simple(".".to_string())), Some("ignored"))),
    )];
    let plans = plan_compose_build(&services, "t").unwrap();
    assert!(matches!(plans[0].method, ServiceBuildMethod::Dockerfile(_)));
}
