//! Construction of the isolated container invocation.
//!
//! One request runs one resource-capped, network-disabled container process.
//! The launcher's policy is not caller-configurable: the argument vector it
//! hands to the container runtime always carries the same isolation flags,
//! mounts exactly the two workspace files, and pins the target platform.

use vstd::prelude::*;
use vstd::string::StringExecFns;

use crate::channel::Channel;
use crate::channel::spec_container_name;

verus! {

/// Fixed in-container path of the mounted source file.
pub open spec fn source_mount_target() -> Seq<char> {
    "/playground/src/main.nr"@
}

/// Fixed in-container path of the mounted auxiliary parameter file.
pub open spec fn prover_mount_target() -> Seq<char> {
    "/playground/Prover.toml"@
}

/// A bind-mount argument: host path and in-container path, joined by a colon.
pub open spec fn spec_mount_arg(host: Seq<char>, target: Seq<char>) -> Seq<char> {
    host + ":"@ + target
}

/// The caller-independent isolation flags of every invocation: capabilities
/// dropped, platform pinned, network disabled, memory and swap capped with the
/// process first in line for the OOM killer, process count capped, and the
/// standard streams attached for capture.
pub open spec fn spec_isolation_prefix() -> Seq<Seq<char>> {
    seq![
        "run"@,
        "--cap-drop=ALL"@,
        "-i"@,
        "--rm"@,
        "--platform"@,
        "linux/amd64"@,
        "--net"@,
        "none"@,
        "--memory"@,
        "512m"@,
        "--memory-swap"@,
        "640m"@,
        "--pids-limit"@,
        "512"@,
        "--oom-score-adj"@,
        "1000"@,
        "-a"@,
        "stdin"@,
        "-a"@,
        "stdout"@,
        "-a"@,
        "stderr"@,
    ]
}

/// Everything the launcher itself contributes to the runtime invocation: the
/// isolation prefix, the two workspace file mounts, the channel's image and
/// the toolchain binary. The toolchain's own arguments follow it.
pub open spec fn spec_launch_head(c: Channel, source_host: Seq<char>, prover_host: Seq<char>) -> Seq<
    Seq<char>,
> {
    spec_isolation_prefix() + seq![
        "--volume"@,
        spec_mount_arg(source_host, source_mount_target()),
        "--volume"@,
        spec_mount_arg(prover_host, prover_mount_target()),
        spec_container_name(c),
        "nargo"@,
    ]
}

/// The full argument vector handed to the container runtime for one request.
pub open spec fn spec_docker_argv(
    c: Channel,
    source_host: Seq<char>,
    prover_host: Seq<char>,
    cmd: Seq<Seq<char>>,
) -> Seq<Seq<char>> {
    spec_launch_head(c, source_host, prover_host) + cmd
}

/// Isolation invariant: whatever the channel, the workspace paths and the
/// toolchain arguments, the launcher's invocation drops all capabilities,
/// disables the network, caps memory, swap and process count, makes the
/// process the OOM killer's first choice, pins the target platform, and — in
/// the portion of the vector that the container runtime interprets — names
/// `--volume` exactly twice, for the two workspace files and nothing else.
/// The toolchain's own arguments follow that fixed head unchanged: no caller
/// input can add to or alter the policy.
pub proof fn lemma_isolation_policy(
    c: Channel,
    source_host: Seq<char>,
    prover_host: Seq<char>,
    cmd: Seq<Seq<char>>,
)
    ensures
        ({
            let a = spec_docker_argv(c, source_host, prover_host, cmd);
            &&& a[1] == "--cap-drop=ALL"@
            &&& a[4] == "--platform"@ && a[5] == "linux/amd64"@
            &&& a[6] == "--net"@ && a[7] == "none"@
            &&& a[8] == "--memory"@ && a[9] == "512m"@
            &&& a[10] == "--memory-swap"@ && a[11] == "640m"@
            &&& a[12] == "--pids-limit"@ && a[13] == "512"@
            &&& a[14] == "--oom-score-adj"@ && a[15] == "1000"@
            &&& a[22] == "--volume"@ && a[23] == spec_mount_arg(
                source_host,
                source_mount_target(),
            )
            &&& a[24] == "--volume"@ && a[25] == spec_mount_arg(
                prover_host,
                prover_mount_target(),
            )
            &&& forall|k: int|
                0 <= k < spec_launch_head(c, source_host, prover_host).len() && a[k]
                    == "--volume"@ ==> k == 22 || k == 24
            &&& a.len() == spec_launch_head(c, source_host, prover_host).len() + cmd.len()
            &&& a.subrange(spec_launch_head(c, source_host, prover_host).len() as int, a.len() as int)
                == cmd
        }),
{
    reveal_strlit("run");
    reveal_strlit("--cap-drop=ALL");
    reveal_strlit("-i");
    reveal_strlit("--rm");
    reveal_strlit("--platform");
    reveal_strlit("linux/amd64");
    reveal_strlit("--net");
    reveal_strlit("none");
    reveal_strlit("--memory");
    reveal_strlit("512m");
    reveal_strlit("--memory-swap");
    reveal_strlit("640m");
    reveal_strlit("--pids-limit");
    reveal_strlit("512");
    reveal_strlit("--oom-score-adj");
    reveal_strlit("1000");
    reveal_strlit("-a");
    reveal_strlit("stdin");
    reveal_strlit("stdout");
    reveal_strlit("stderr");
    reveal_strlit("--volume");
    reveal_strlit("nargo");
    reveal_strlit(":");
    reveal_strlit("/playground/src/main.nr");
    reveal_strlit("/playground/Prover.toml");
    reveal_strlit("noir-master");
    let a = spec_docker_argv(c, source_host, prover_host, cmd);
    let head = spec_launch_head(c, source_host, prover_host);
    assert(spec_mount_arg(source_host, source_mount_target()).len() == source_host.len() + 1
        + 23);
    assert(spec_mount_arg(prover_host, prover_mount_target()).len() == prover_host.len() + 1 + 23);
    assert(head.len() == 28);
    assert(head[0] == "run"@);
    assert(head[1] == "--cap-drop=ALL"@);
    assert(head[2] == "-i"@);
    assert(head[3] == "--rm"@);
    assert(head[4] == "--platform"@);
    assert(head[5] == "linux/amd64"@);
    assert(head[6] == "--net"@);
    assert(head[7] == "none"@);
    assert(head[8] == "--memory"@);
    assert(head[9] == "512m"@);
    assert(head[10] == "--memory-swap"@);
    assert(head[11] == "640m"@);
    assert(head[12] == "--pids-limit"@);
    assert(head[13] == "512"@);
    assert(head[14] == "--oom-score-adj"@);
    assert(head[15] == "1000"@);
    assert(head[16] == "-a"@);
    assert(head[17] == "stdin"@);
    assert(head[18] == "-a"@);
    assert(head[19] == "stdout"@);
    assert(head[20] == "-a"@);
    assert(head[21] == "stderr"@);
    assert(head[22] == "--volume"@);
    assert(head[23] == spec_mount_arg(source_host, source_mount_target()));
    assert(head[24] == "--volume"@);
    assert(head[25] == spec_mount_arg(prover_host, prover_mount_target()));
    assert(head[26] == spec_container_name(c));
    assert(head[27] == "nargo"@);
    assert(spec_container_name(c).len() == 11);
    assert(a.subrange(head.len() as int, a.len() as int) =~= cmd);
    assert forall|k: int| 0 <= k < head.len() && a[k] == "--volume"@ implies k == 22 || k == 24 by {
        assert(a[k] == head[k]);
        assert("--volume"@.len() == 8);
        if k == 0 {
        } else if k == 1 {
        } else if k == 2 {
        } else if k == 3 {
        } else if k == 4 {
        } else if k == 5 {
        } else if k == 6 {
        } else if k == 7 {
        } else if k == 8 {
            assert(head[8][2] == 'm');
            assert("--volume"@[2] == 'v');
        } else if k == 9 {
        } else if k == 10 {
        } else if k == 11 {
        } else if k == 12 {
        } else if k == 13 {
        } else if k == 14 {
        } else if k == 15 {
        } else if k == 16 {
        } else if k == 17 {
        } else if k == 18 {
        } else if k == 19 {
        } else if k == 20 {
        } else if k == 21 {
        } else if k == 23 {
            assert(head[23].len() == source_host.len() + 24);
        } else if k == 25 {
            assert(head[25].len() == prover_host.len() + 24);
        } else if k == 26 {
        } else if k == 27 {
        }
    }
}

/// What decoding the captured byte output of the sandboxed process yields:
/// `Some` with the text when the bytes are valid UTF-8, `None` otherwise. The
/// result depends on the bytes alone.
pub uninterp spec fn utf8_text_of(bytes: Seq<u8>) -> Option<Seq<char>>;

/// Relies on String::from_utf8: returns the decoded text exactly when the
/// bytes are valid UTF-8 and an error otherwise.
#[verifier::external_body]
fn decode_utf8(bytes: Vec<u8>) -> (r: Option<String>)
    ensures
        r.deep_view() == utf8_text_of(bytes@),
{
    String::from_utf8(bytes).ok()
}

/// The launcher's decoding policy: captured bytes as text, or the empty text
/// where they do not decode.
pub open spec fn spec_decode_output(bytes: Seq<u8>) -> Seq<char> {
    match utf8_text_of(bytes) {
        Some(t) => t,
        None => Seq::<char>::empty(),
    }
}

/// Decodes one captured stream. Total by design: byte output that is not
/// valid text becomes the empty string rather than failing the invocation,
/// so command execution never fails on encoding alone.
pub fn decode_output(bytes: Vec<u8>) -> (r: String)
    ensures
        r@ == spec_decode_output(bytes@),
{
    match decode_utf8(bytes) {
        Some(s) => s,
        None => String::new(),
    }
}

/// Joins a host path and an in-container path into one bind-mount argument.
pub fn mount_arg(host: &str, target: &str) -> (r: String)
    ensures
        r@ == spec_mount_arg(host@, target@),
{
    let mut s: String = host.to_owned();
    s.append(":");
    s.append(target);
    s
}

/// Builds the container runtime's argument vector for one request: isolation
/// flags, the two workspace file mounts, the channel's image, the toolchain
/// binary, then the toolchain arguments.
pub fn docker_run_argv(
    channel: &Channel,
    source_host: &str,
    prover_host: &str,
    cmd: &Vec<String>,
) -> (r: Vec<String>)
    ensures
        r.deep_view() == spec_docker_argv(*channel, source_host@, prover_host@, cmd.deep_view()),
{
    let ghost head = spec_launch_head(*channel, source_host@, prover_host@);
    let mut v: Vec<String> = Vec::new();
    v.push(String::from_str("run"));
    v.push(String::from_str("--cap-drop=ALL"));
    v.push(String::from_str("-i"));
    v.push(String::from_str("--rm"));
    v.push(String::from_str("--platform"));
    v.push(String::from_str("linux/amd64"));
    v.push(String::from_str("--net"));
    v.push(String::from_str("none"));
    v.push(String::from_str("--memory"));
    v.push(String::from_str("512m"));
    v.push(String::from_str("--memory-swap"));
    v.push(String::from_str("640m"));
    v.push(String::from_str("--pids-limit"));
    v.push(String::from_str("512"));
    v.push(String::from_str("--oom-score-adj"));
    v.push(String::from_str("1000"));
    v.push(String::from_str("-a"));
    v.push(String::from_str("stdin"));
    v.push(String::from_str("-a"));
    v.push(String::from_str("stdout"));
    v.push(String::from_str("-a"));
    v.push(String::from_str("stderr"));
    v.push(String::from_str("--volume"));
    v.push(mount_arg(source_host, "/playground/src/main.nr"));
    v.push(String::from_str("--volume"));
    v.push(mount_arg(prover_host, "/playground/Prover.toml"));
    v.push(String::from_str(channel.container_name()));
    v.push(String::from_str("nargo"));
    proof {
        assert(v@.len() == 28);
        assert forall|k: int| 0 <= k < 28 implies #[trigger] v@[k]@ == head[k] by {}
    }
    let mut j: usize = 0;
    while j < cmd.len()
        invariant
            j <= cmd.len(),
            v@.len() == 28 + j as int,
            head == spec_launch_head(*channel, source_host@, prover_host@),
            forall|k: int| 0 <= k < 28 ==> #[trigger] v@[k]@ == head[k],
            forall|k: int| 0 <= k < j as int ==> #[trigger] v@[28 + k]@ == cmd.deep_view()[k],
        decreases cmd.len() - j,
    {
        let c_j: String = cmd[j].clone();
        proof {
            assert(c_j@ == cmd.deep_view()[j as int]);
        }
        v.push(c_j);
        j += 1;
    }
    proof {
        let target = spec_docker_argv(*channel, source_host@, prover_host@, cmd.deep_view());
        assert forall|k: int| 0 <= k < v@.len() implies v.deep_view()[k] == target[k] by {
            if k >= 28 {
                assert(v@[28 + (k - 28)]@ == cmd.deep_view()[k - 28]);
            }
        }
        assert(v.deep_view() =~~= target);
    }
    v
}

} // verus!
