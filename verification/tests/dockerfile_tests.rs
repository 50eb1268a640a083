use lapdev_ws::dockerfile::{base_image_dockerfile, full_dockerfile};
use lapdev_ws::model::{ContainerImageConfig, ContainerImageInfo};

const SUFFIX: &str = "\nUSER root\n\
COPY lapdev-guest-agent /lapdev-guest-agent\n\
RUN chmod +x /lapdev-guest-agent\n\
COPY install_guest_agent.sh /install_guest_agent.sh\n\
RUN sh /install_guest_agent.sh\n\
RUN rm /install_guest_agent.sh\n";

#[test]
fn guest_agent_block_appended_to_every_build() {
    let full = full_dockerfile("FROM scratch");
    assert_eq!(full, format!("FROM scratch{SUFFIX}"));
    assert!(full.ends_with(SUFFIX));
    assert!(full.contains("COPY lapdev-guest-agent /lapdev-guest-agent\n"));
    assert!(full.contains("RUN chmod +x /lapdev-guest-agent\n"));
    assert!(full.contains("RUN rm /install_guest_agent.sh\n"));
}

#[test]
fn guest_agent_block_on_empty_content() {
    assert_eq!(full_dockerfile(""), SUFFIX);
}

#[test]
fn base_image_dockerfile_preserves_startup_contract() {
    let config = ContainerImageConfig {
        entrypoint: Some(vec!["/bin/bash".to_string()]),
        cmd: Some(vec!["-l".to_string()]),
        exposed_ports: Some(vec!["22/tcp".to_string(), "8080/tcp".to_string()]),
    };
    let text = base_image_dockerfile("docker.io/library/ubuntu:22.04", &config);
    assert_eq!(
        text,
        "FROM docker.io/library/ubuntu:22.04\n\
         ENTRYPOINT [\"/bin/bash\"]\n\
         CMD [\"-l\"]\n\
         EXPOSE 22/tcp\n\
         EXPOSE 8080/tcp\n"
    );
}

#[test]
fn base_image_dockerfile_skips_empty_groups() {
    let config = ContainerImageConfig {
        entrypoint: Some(Vec::new()),
        cmd: None,
        exposed_ports: None,
    };
    assert_eq!(base_image_dockerfile("alpine", &config), "FROM alpine\n");

    let none = ContainerImageConfig { entrypoint: None, cmd: None, exposed_ports: None };
    assert_eq!(base_image_dockerfile("alpine", &none), "FROM alpine\n");
}

#[test]
fn base_image_dockerfile_escapes_like_json() {
    let config = ContainerImageConfig {
        entrypoint: Some(vec!["/bin/sh".to_string(), "-c".to_string(), "say \"hi\"".to_string()]),
        cmd: None,
        exposed_ports: None,
    };
    let info = ContainerImageInfo { config };
    let text = base_image_dockerfile("alpine", &info.config);
    assert_eq!(
        text,
        "FROM alpine\nENTRYPOINT [\"/bin/sh\",\"-c\",\"say \\\"hi\\\"\"]\n"
    );
}
