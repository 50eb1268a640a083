//! Dockerfile synthesis: the guest-agent install block appended to every
//! build, and the Dockerfile written for a base-image build.

use vstd::prelude::*;

use crate::model::ContainerImageConfig;

verus! {

/// The block appended to every Dockerfile the agent builds: it switches to
/// root, installs the guest-agent binary as `/lapdev-guest-agent`, marks it
/// executable, runs the bundled install script, and removes the script again.
pub open spec fn guest_agent_suffix() -> Seq<char> {
    "\nUSER root\nCOPY lapdev-guest-agent /lapdev-guest-agent\nRUN chmod +x /lapdev-guest-agent\nCOPY install_guest_agent.sh /install_guest_agent.sh\nRUN sh /install_guest_agent.sh\nRUN rm /install_guest_agent.sh\n"@
}

/// The full Dockerfile of a build: the user's content, then the guest-agent
/// install block.
pub open spec fn full_dockerfile_spec(content: Seq<char>) -> Seq<char> {
    content + guest_agent_suffix()
}

pub fn full_dockerfile(content: &str) -> (r: String)
    ensures
        r@ == full_dockerfile_spec(content@),
{
    let mut r = String::from_str(content);
    r.append(
        "\nUSER root\nCOPY lapdev-guest-agent /lapdev-guest-agent\nRUN chmod +x /lapdev-guest-agent\nCOPY install_guest_agent.sh /install_guest_agent.sh\nRUN sh /install_guest_agent.sh\nRUN rm /install_guest_agent.sh\n",
    );
    r
}

/// Every built image carries the guest agent: whatever Dockerfile a build
/// starts from, the text handed to the engine ends with the install block,
/// which copies the agent in, makes it executable, and removes the install
/// script after running it.
pub proof fn lemma_every_build_installs_guest_agent(content: Seq<char>)
    ensures
        full_dockerfile_spec(content).len() == content.len() + guest_agent_suffix().len(),
        full_dockerfile_spec(content).skip(content.len() as int) == guest_agent_suffix(),
        full_dockerfile_spec(content).take(content.len() as int) == content,
{
    assert(full_dockerfile_spec(content).skip(content.len() as int) =~= guest_agent_suffix());
    assert(full_dockerfile_spec(content).take(content.len() as int) =~= content);
}

/// The JSON rendering of an array of strings, exactly as the serialiser
/// writes it.
pub uninterp spec fn json_string_array(elems: Seq<Seq<char>>) -> Seq<char>;

/// Relies on serde_json::to_string: a vector of strings serialises to the
/// JSON array of those strings, a function of the element texts alone; and
/// such a value has no failure path (serialisation fails only on a failing
/// `Serialize` implementation or a map with non-string keys, and a vector of
/// strings has neither).
#[verifier::external_body]
fn to_json_array(elems: &Vec<String>) -> (r: Option<String>)
    ensures
        r is Some,
        r matches Some(s) ==> s@ == json_string_array(elems.deep_view()),
{
    serde_json::to_string(elems).ok()
}

/// The `ENTRYPOINT` line synthesised for a base image: present exactly when
/// the upstream image names a non-empty entrypoint, and then carrying it as
/// a JSON array.
pub open spec fn entrypoint_directive(entrypoint: Option<Seq<Seq<char>>>) -> Seq<char> {
    match entrypoint {
        Some(e) => if e.len() > 0 {
            "ENTRYPOINT "@ + json_string_array(e) + "\n"@
        } else {
            Seq::empty()
        },
        None => Seq::empty(),
    }
}

/// The `CMD` line synthesised for a base image, under the same rule.
pub open spec fn cmd_directive(cmd: Option<Seq<Seq<char>>>) -> Seq<char> {
    match cmd {
        Some(c) => if c.len() > 0 {
            "CMD "@ + json_string_array(c) + "\n"@
        } else {
            Seq::empty()
        },
        None => Seq::empty(),
    }
}

/// One `EXPOSE` line per exposed port, in the order handed in.
pub open spec fn expose_directives(ports: Seq<Seq<char>>) -> Seq<char>
    decreases ports.len(),
{
    if ports.len() == 0 {
        Seq::empty()
    } else {
        expose_directives(ports.drop_last()) + "EXPOSE "@ + ports.last() + "\n"@
    }
}

/// Each exposed port contributes exactly one `EXPOSE` line, appended in
/// order; entrypoint and command each contribute their one directive exactly
/// when non-empty.
pub proof fn lemma_one_directive_per_element(
    ports: Seq<Seq<char>>,
    port: Seq<char>,
    arr: Seq<Seq<char>>,
)
    ensures
        expose_directives(ports.push(port)) == expose_directives(ports) + "EXPOSE "@ + port
            + "\n"@,
        expose_directives(Seq::<Seq<char>>::empty()) == Seq::<char>::empty(),
        arr.len() > 0 ==> entrypoint_directive(Some(arr)) == "ENTRYPOINT "@ + json_string_array(
            arr,
        ) + "\n"@,
        arr.len() == 0 ==> entrypoint_directive(Some(arr)) == Seq::<char>::empty(),
        arr.len() > 0 ==> cmd_directive(Some(arr)) == "CMD "@ + json_string_array(arr) + "\n"@,
        arr.len() == 0 ==> cmd_directive(Some(arr)) == Seq::<char>::empty(),
{
    assert(ports.push(port).drop_last() =~~= ports);
    assert(ports.push(port).last() == port);
}

/// The Dockerfile synthesised for a base-image build: `FROM {image}`, then
/// the upstream image's entrypoint and default command when non-empty (as
/// JSON arrays), then one `EXPOSE` line per exposed port.  A base image used
/// directly as a workspace keeps its original startup contract this way.
pub open spec fn base_dockerfile_spec(
    image: Seq<char>,
    config: crate::model::ContainerImageConfigView,
) -> Seq<char> {
    "FROM "@ + image + "\n"@ + entrypoint_directive(config.entrypoint) + cmd_directive(config.cmd)
        + match config.exposed_ports {
        Some(ports) => expose_directives(ports),
        None => Seq::empty(),
    }
}

pub fn base_image_dockerfile(image: &str, config: &ContainerImageConfig) -> (r: String)
    ensures
        r@ == base_dockerfile_spec(image@, config@),
{
    let mut r = String::from_str("FROM ");
    r.append(image);
    r.append("\n");
    if let Some(entrypoint) = &config.entrypoint {
        if entrypoint.len() > 0 {
            match to_json_array(entrypoint) {
                Some(json) => {
                    r.append("ENTRYPOINT ");
                    r.append(json.as_str());
                    r.append("\n");
                },
                None => {
                    proof {
                        assert(false);
                    }
                },
            }
        }
    }
    if let Some(cmd) = &config.cmd {
        if cmd.len() > 0 {
            match to_json_array(cmd) {
                Some(json) => {
                    r.append("CMD ");
                    r.append(json.as_str());
                    r.append("\n");
                },
                None => {
                    proof {
                        assert(false);
                    }
                },
            }
        }
    }
    if let Some(ports) = &config.exposed_ports {
        let ghost prefix = r@;
        let mut i: usize = 0;
        while i < ports.len()
            invariant
                i <= ports.len(),
                r@ == prefix + expose_directives(ports.deep_view().take(i as int)),
            decreases ports.len() - i,
        {
            r.append("EXPOSE ");
            r.append(ports[i].as_str());
            r.append("\n");
            proof {
                let pv = ports.deep_view();
                assert(pv.take(i + 1 as int).drop_last() =~~= pv.take(i as int));
                assert(pv.take(i + 1 as int).last() == pv[i as int]);
                assert(pv[i as int] == ports@[i as int]@);
            }
            i = i + 1;
        }
        proof {
            assert(ports.deep_view().take(ports.len() as int) =~~= ports.deep_view());
        }
    }
    r
}

} // verus!
