use lapdev_ws::error::ApiError;
use lapdev_ws::lifecycle::{plan_lifecycle_command, plan_lifecycle_commands};
use lapdev_ws::model::{
    DevContainerCmd, DevContainerConfig, DevContainerLifeCycleCmd, RepoBuildOutput,
    RepoComposeService,
};

fn compose_output() -> RepoBuildOutput {
    RepoBuildOutput::Compose(vec![
        RepoComposeService {
            name: "app".to_string(),
            image: "w1:app".to_string(),
            env: Vec::new(),
        },
        RepoComposeService {
            name: "db".to_string(),
            image: "w1:db".to_string(),
            env: Vec::new(),
        },
    ])
}

fn config_with(service: Option<&str>) -> DevContainerConfig {
    DevContainerConfig {
        service: service.map(|s| s.to_string()),
        on_create_command: None,
        update_content_command: None,
        post_create_command: None,
    }
}

#[test]
fn object_form_rejected_on_single_image() {
    let output = RepoBuildOutput::Image("w1".to_string());
    let cmd = DevContainerLifeCycleCmd::Object(vec![(
        "app".to_string(),
        DevContainerCmd::Simple("echo hi".to_string()),
    )]);
    match plan_lifecycle_command(&output, &config_with(None), &cmd) {
        Err(ApiError::InvalidLifecycle) => {}
        other => panic!("unexpected result: {other:?}"),
    }
}

#[test]
fn simple_command_runs_on_single_image() {
    let output = RepoBuildOutput::Image("w1".to_string());
    let cmd = DevContainerLifeCycleCmd::Simple("make".to_string());
    let runs = plan_lifecycle_command(&output, &config_with(None), &cmd).unwrap();
    assert_eq!(runs.len(), 1);
    assert_eq!(runs[0].image, "w1");
    assert!(matches!(&runs[0].cmd, DevContainerCmd::Simple(s) if s == "make"));
}

#[test]
fn object_form_skips_missing_service() {
    let cmd = DevContainerLifeCycleCmd::Object(vec![
        ("app".to_string(), DevContainerCmd::Simple("one".to_string())),
        ("ghost".to_string(), DevContainerCmd::Simple("two".to_string())),
    ]);
    let runs = plan_lifecycle_command(&compose_output(), &config_with(None), &cmd).unwrap();
    assert_eq!(runs.len(), 1);
    assert_eq!(runs[0].image, "w1:app");
}

#[test]
fn post_create_runs_on_main_compose_service() {
    let mut config = config_with(Some("app"));
    config.post_create_command =
        Some(DevContainerLifeCycleCmd::Simple("echo hello".to_string()));
    let runs = plan_lifecycle_commands(&compose_output(), &config);
    assert_eq!(runs.len(), 1);
    assert_eq!(runs[0].image, "w1:app");
    assert!(matches!(&runs[0].cmd, DevContainerCmd::Simple(s) if s == "echo hello"));
    assert!(runs.iter().all(|r| r.image != "w1:db"));
}

#[test]
fn single_command_without_main_service_is_no_op() {
    let cmd = DevContainerLifeCycleCmd::Simple("echo hi".to_string());
    let runs = plan_lifecycle_command(&compose_output(), &config_with(None), &cmd).unwrap();
    assert!(runs.is_empty());

    let runs = plan_lifecycle_command(&compose_output(), &config_with(Some("ghost")), &cmd)
        .unwrap();
    assert!(runs.is_empty());
}

#[test]
fn phases_run_in_order_and_errors_are_suppressed() {
    let output = RepoBuildOutput::Image("w1".to_string());
    let config = DevContainerConfig {
        service: None,
        on_create_command: Some(DevContainerLifeCycleCmd::Simple("first".to_string())),
        // An object-form hook is invalid on a single image; the phase is
        // skipped and the later phase still runs.
        update_content_command: Some(DevContainerLifeCycleCmd::Object(vec![(
            "app".to_string(),
            DevContainerCmd::Simple("skipped".to_string()),
        )])),
        post_create_command: Some(DevContainerLifeCycleCmd::Args(vec![
            "echo".to_string(),
            "last".to_string(),
        ])),
    };
    let runs = plan_lifecycle_commands(&output, &config);
    assert_eq!(runs.len(), 2);
    assert!(matches!(&runs[0].cmd, DevContainerCmd::Simple(s) if s == "first"));
    assert!(matches!(&runs[1].cmd, DevContainerCmd::Args(v) if v == &vec!["echo".to_string(), "last".to_string()]));
}
