//! What the container driver promises, stated over its decisions and arguments.

use vstd::prelude::*;

use crate::docker::args::{
    after_last, env_flags, image_tag_of, port_of_id, publish_flags, publish_mapping, run_args,
    volume_flags,
};
use crate::docker::config::{container_id, image_reference};
use crate::docker::diagnostics::diagnostics_from;
use crate::docker::error::DockerError;
use crate::docker::start::{answers, start_next, StartAction, StartEvent, StartPhase};
use crate::text::{
    all_digits, decimal, is_digit, is_whitespace, last_index, lemma_decimal_digits,
    lemma_last_index, trim, trim_end, trim_start, unsigned_body,
};

verus! {

/// A running container that is to be reused is waited for and handed back, never stopped.
pub proof fn law_a_reused_container_is_not_stopped()
    ensures
        start_next(StartPhase::CheckingRunning, true, StartEvent::Running(Ok(true))).1 is WaitForContainer,
        start_next(StartPhase::CheckingRunning, true, StartEvent::Running(Ok(true))).0
            == StartPhase::WaitingReused,
        start_next(StartPhase::WaitingReused, true, StartEvent::Waited(Ok(()))).1 is GetRunningContainer,
{
}

/// A running container that is not to be reused is removed before anything is started.
pub proof fn law_an_unwanted_container_is_removed_first()
    ensures
        start_next(StartPhase::CheckingRunning, false, StartEvent::Running(Ok(true))).1 is StopAndRemove,
        start_next(StartPhase::Removing, false, StartEvent::Removed(Ok(()))).1 is CheckStarting,
{
}

/// A container that was starting and came up is handed back rather than started a second
/// time under the same name.
pub proof fn law_a_container_that_came_up_is_handed_back(reuse: bool)
    ensures
        start_next(StartPhase::RecheckingRunning, reuse, StartEvent::Running(Ok(true))).1 is GetRunningContainer,
{
}

/// A container that is starting is waited for and checked again, whatever the reuse
/// setting: starting a second container under the same name would be rejected by Docker.
pub proof fn law_a_starting_container_is_waited_for(reuse: bool)
    ensures
        start_next(StartPhase::CheckingStarting, reuse, StartEvent::StartingFound(Ok(true))) == (
            StartPhase::WaitingStarting,
            StartAction::WaitForContainer,
        ),
        start_next(StartPhase::WaitingStarting, reuse, StartEvent::Waited(Ok(()))) == (
            StartPhase::RecheckingRunning,
            StartAction::CheckRunning,
        ),
{
}

/// An image is pulled, and so a new container started, only once Docker has said that no
/// container under the ID is starting, or that the one which was starting did not come up.
pub proof fn law_an_image_is_pulled_only_when_nothing_runs_or_starts(
    phase: StartPhase,
    reuse: bool,
    event: StartEvent,
)
    requires
        answers(phase, event),
    ensures
        start_next(phase, reuse, event).1 is Pull ==> (phase == StartPhase::CheckingStarting
            && event == StartEvent::StartingFound(Ok(false))) || (phase
            == StartPhase::RecheckingRunning && event == StartEvent::Running(Ok(false))),
{
}

/// Every failure ends the sequence with that very error.
pub proof fn law_a_failure_ends_the_sequence(phase: StartPhase, reuse: bool, e: DockerError)
    ensures
        start_next(phase, reuse, StartEvent::Running(Err(e))) == (
            StartPhase::Done,
            StartAction::Finish(Err(e)),
        ),
        start_next(phase, reuse, StartEvent::Waited(Err(e))) == (
            StartPhase::Done,
            StartAction::Finish(Err(e)),
        ),
        start_next(phase, reuse, StartEvent::Removed(Err(e))) == (
            StartPhase::Done,
            StartAction::Finish(Err(e)),
        ),
        start_next(phase, reuse, StartEvent::StartingFound(Err(e))) == (
            StartPhase::Done,
            StartAction::Finish(Err(e)),
        ),
        start_next(phase, reuse, StartEvent::Pulled(Err(e))) == (
            StartPhase::Done,
            StartAction::Finish(Err(e)),
        ),
{
}

/// A new container is started only right after its image was pulled.
pub proof fn law_a_container_is_started_only_after_a_pull(phase: StartPhase, reuse: bool, event: StartEvent)
    requires
        answers(phase, event),
    ensures
        start_next(phase, reuse, event).1 is Start ==> phase == StartPhase::Pulling && (event matches StartEvent::Pulled(r) && r is Ok),
{
}

/// How far a phase is from the end of the sequence.
pub open spec fn remaining_steps(phase: StartPhase) -> nat {
    match phase {
        StartPhase::CheckingRunning => 7,
        StartPhase::Removing => 6,
        StartPhase::CheckingStarting => 5,
        StartPhase::WaitingStarting => 4,
        StartPhase::RecheckingRunning => 3,
        StartPhase::Pulling => 2,
        StartPhase::WaitingReused => 2,
        StartPhase::Starting => 1,
        StartPhase::GettingStarted => 1,
        StartPhase::GettingReused => 1,
        StartPhase::Done => 0,
    }
}

/// The sequence always ends, within seven answers: each answer moves it strictly closer to
/// its end, and it has ended exactly when its action is to return a result.
pub proof fn law_the_sequence_ends(phase: StartPhase, reuse: bool, event: StartEvent)
    requires
        answers(phase, event),
    ensures
        remaining_steps(start_next(phase, reuse, event).0) < remaining_steps(phase),
        (start_next(phase, reuse, event).0 == StartPhase::Done) <==> (start_next(
            phase,
            reuse,
            event,
        ).1 is Finish),
{
}

proof fn lemma_decimal_has_no(n: nat, c: char)
    requires
        !is_digit(c),
    ensures
        !decimal(n).contains(c),
{
    lemma_decimal_digits(n);
    if decimal(n).contains(c) {
        let i = choose|i: int| 0 <= i < decimal(n).len() && decimal(n)[i] == c;
        assert(is_digit(decimal(n)[i]));
    }
}

proof fn lemma_digits_trim(s: Seq<char>)
    requires
        s.len() >= 1,
        all_digits(s),
    ensures
        trim(s) == s,
{
    assert(is_digit(s[0]));
    assert(is_digit(s.last()));
    assert(trim_start(s) == s);
    assert(trim_end(s) == s);
}

/// The port of a container is read back from its ID: `name-port` names the port it was
/// built from, whatever the name, dashes included.
pub proof fn law_the_port_is_read_back_from_the_id(name: Seq<char>, port: u16)
    ensures
        port_of_id(container_id(name, port)) == Some(port as nat),
{
    let d = decimal(port as nat);
    let id = container_id(name, port);
    lemma_decimal_digits(port as nat);
    lemma_decimal_has_no(port as nat, '-');
    lemma_last_index(id, '-');
    assert(id == name + seq!['-'] + d) by {
        reveal_strlit("-");
    }
    let k = name.len() as int;
    assert(id[k] == '-');
    let li = last_index(id, '-');
    assert(li == k) by {
        if li > k {
            assert(d[li - k - 1] == id[li]);
            assert(d.contains('-'));
        }
        if li < k {
            assert(id[k] != '-');
        }
    }
    assert(after_last(id, '-') =~= d);
    lemma_digits_trim(d);
    assert(is_digit(d[0]));
    assert(unsigned_body(d) == d);
}

/// The tag of an image reference is read back from it, provided that the tag holds no
/// colon or slash and the reference does not begin or end with whitespace.
pub proof fn law_the_tag_is_read_back_from_the_reference(image: Seq<char>, tag: Seq<char>)
    requires
        !tag.contains(':'),
        !tag.contains('/'),
        image.len() > 0 ==> !is_whitespace(image[0]),
        tag.len() > 0 ==> !is_whitespace(tag.last()),
    ensures
        image_tag_of(image_reference(image, tag)) == Some(tag),
{
    let r = image_reference(image, tag);
    assert(r == image + seq![':'] + tag) by {
        reveal_strlit(":");
    }
    let k = image.len() as int;
    assert(r[k] == ':');
    assert(!is_whitespace(':'));
    assert(trim_start(r) == r);
    assert(trim_end(r) == r);
    lemma_last_index(r, ':');
    let li = last_index(r, ':');
    assert(li == k) by {
        if li > k {
            assert(tag[li - k - 1] == r[li]);
            assert(tag.contains(':'));
        }
        if li < k {
            assert(r[k] != ':');
        }
    }
    assert(r.subrange(k + 1, r.len() as int) =~= tag);
    let rest = r.subrange(k, r.len() as int);
    if rest.contains('/') {
        let j = choose|j: int| 0 <= j < rest.len() && rest[j] == '/';
        if j == 0 {
            assert(rest[0] == ':');
        } else {
            assert(tag[j - 1] == rest[j]);
            assert(tag.contains('/'));
        }
    }
}

proof fn lemma_volume_flags_hold(volumes: Seq<Seq<char>>, x: Seq<char>)
    requires
        x != "-v"@,
        !volumes.contains(x),
    ensures
        !volume_flags(volumes).contains(x),
    decreases volumes.len(),
{
    if volumes.len() > 0 {
        assert(!volumes.drop_last().contains(x)) by {
            if volumes.drop_last().contains(x) {
                let j = choose|j: int|
                    0 <= j < volumes.drop_last().len() && volumes.drop_last()[j] == x;
                assert(volumes[j] == x);
            }
        }
        lemma_volume_flags_hold(volumes.drop_last(), x);
        let f = volume_flags(volumes);
        let p = volume_flags(volumes.drop_last());
        assert(f == p + seq!["-v"@, volumes.last()]);
        if f.contains(x) {
            let j = choose|j: int| 0 <= j < f.len() && f[j] == x;
            if j < p.len() {
                assert(p[j] == x);
            } else if j == p.len() {
                assert(f[j] == "-v"@);
            } else {
                assert(f[j] == volumes.last());
                assert(volumes[volumes.len() - 1] == x);
            }
        }
    }
}

proof fn lemma_env_flags_hold(vars: Seq<Seq<char>>, x: Seq<char>)
    requires
        x != "-e"@,
        !vars.contains(x),
    ensures
        !env_flags(vars).contains(x),
    decreases vars.len(),
{
    if vars.len() > 0 {
        assert(!vars.drop_last().contains(x)) by {
            if vars.drop_last().contains(x) {
                let j = choose|j: int| 0 <= j < vars.drop_last().len() && vars.drop_last()[j] == x;
                assert(vars[j] == x);
            }
        }
        lemma_env_flags_hold(vars.drop_last(), x);
        let f = env_flags(vars);
        let p = env_flags(vars.drop_last());
        assert(f == p + seq!["-e"@, vars.last()]);
        if f.contains(x) {
            let j = choose|j: int| 0 <= j < f.len() && f[j] == x;
            if j < p.len() {
                assert(p[j] == x);
            } else if j == p.len() {
                assert(f[j] == "-e"@);
            } else {
                assert(f[j] == vars.last());
                assert(vars[vars.len() - 1] == x);
            }
        }
    }
}

/// On the host network no port is published: `--publish` never occurs in the arguments,
/// provided that none of the caller's own values is that very word.
pub proof fn law_the_host_network_publishes_nothing(
    id: Seq<char>,
    port: u16,
    extra_ports: Option<Seq<u16>>,
    platform: Option<Seq<char>>,
    env_vars: Option<Seq<Seq<char>>>,
    volumes: Option<Seq<Seq<char>>>,
    image: Seq<char>,
)
    requires
        id != "--publish"@,
        image != "--publish"@,
        platform != Some("--publish"@),
        env_vars matches Some(vs) ==> !vs.contains("--publish"@),
        volumes matches Some(vs) ==> !vs.contains("--publish"@),
    ensures
        !run_args(id, port, extra_ports, platform, env_vars, volumes, image, true).contains(
            "--publish"@,
        ),
{
    let x = "--publish"@;
    reveal_strlit("--publish");
    reveal_strlit("-e");
    reveal_strlit("-v");
    reveal_strlit("run");
    reveal_strlit("--rm");
    reveal_strlit("--detach");
    reveal_strlit("--platform");
    reveal_strlit("--network");
    reveal_strlit("host");
    reveal_strlit("--name");
    assert(x.len() == 9);
    assert("-e"@ != x);
    assert("-v"@ != x);
    assert("run"@ != x);
    assert("--rm"@ != x);
    assert("--detach"@ != x);
    assert("--platform"@ != x);
    assert("--network"@[2] != x[2]);
    assert("host"@ != x);
    assert("--name"@ != x);
    let head = seq!["run"@, "--rm"@, "--detach"@];
    let plat = match platform {
        Some(p) => seq!["--platform"@, p],
        None => Seq::<Seq<char>>::empty(),
    };
    let net = seq!["--network"@, "host"@];
    let named = seq!["--name"@, id];
    let envs = match env_vars {
        Some(vs) => env_flags(vs),
        None => Seq::<Seq<char>>::empty(),
    };
    let mounts = match volumes {
        Some(vs) => volume_flags(vs),
        None => Seq::<Seq<char>>::empty(),
    };
    if let Some(vs) = env_vars {
        lemma_env_flags_hold(vs, x);
    }
    if let Some(vs) = volumes {
        lemma_volume_flags_hold(vs, x);
    }
    let all = run_args(id, port, extra_ports, platform, env_vars, volumes, image, true);
    assert(all =~= head + plat + net + Seq::<Seq<char>>::empty() + named + envs + mounts + seq![
        image,
    ]);
    if all.contains(x) {
        let j = choose|j: int| 0 <= j < all.len() && all[j] == x;
        let a = head.len() as int;
        let b = a + plat.len();
        let c = b + 2;
        let d = c + 2;
        let e = d + envs.len();
        let f = e + mounts.len();
        if j < a {
        } else if j < b {
        } else if j < c {
        } else if j < d {
        } else if j < e {
            assert(envs[j - d] == x);
        } else if j < f {
            assert(mounts[j - e] == x);
        } else {
        }
    }
}


/// Whether `flag` is passed with `value`: it occurs in `args` directly followed by `value`.
pub open spec fn passes(args: Seq<Seq<char>>, flag: Seq<char>, value: Seq<char>) -> bool {
    exists|k: int| 0 <= k && k + 1 < args.len() && #[trigger] args[k] == flag && args[k + 1] == value
}

proof fn lemma_env_flags_at(vars: Seq<Seq<char>>, i: int)
    requires
        0 <= i < vars.len(),
    ensures
        env_flags(vars).len() == 2 * vars.len(),
        env_flags(vars)[2 * i] == "-e"@,
        env_flags(vars)[2 * i + 1] == vars[i],
    decreases vars.len(),
{
    let p = env_flags(vars.drop_last());
    assert(env_flags(vars) == p + seq!["-e"@, vars.last()]);
    if vars.len() == 1 {
        assert(p =~= Seq::<Seq<char>>::empty());
    } else if i == vars.len() - 1 {
        lemma_env_flags_at(vars.drop_last(), 0);
    } else {
        lemma_env_flags_at(vars.drop_last(), i);
    }
}

proof fn lemma_publish_flags_at(ports: Seq<u16>, i: int)
    requires
        0 <= i < ports.len(),
    ensures
        publish_flags(ports).len() == 2 * ports.len(),
        publish_flags(ports)[2 * i] == "--publish"@,
        publish_flags(ports)[2 * i + 1] == publish_mapping(ports[i]),
    decreases ports.len(),
{
    let p = publish_flags(ports.drop_last());
    assert(publish_flags(ports) == p + seq!["--publish"@, publish_mapping(ports.last())]);
    if ports.len() == 1 {
        assert(p =~= Seq::<Seq<char>>::empty());
    } else if i == ports.len() - 1 {
        lemma_publish_flags_at(ports.drop_last(), 0);
    } else {
        lemma_publish_flags_at(ports.drop_last(), i);
    }
}

/// Every environment variable reaches the container: each is passed with its own `-e`,
/// whatever the network mode.
pub proof fn law_every_env_var_reaches_the_container(
    id: Seq<char>,
    port: u16,
    extra_ports: Option<Seq<u16>>,
    platform: Option<Seq<char>>,
    vars: Seq<Seq<char>>,
    volumes: Option<Seq<Seq<char>>>,
    image: Seq<char>,
    host_network: bool,
)
    ensures
        forall|i: int|
            0 <= i < vars.len() ==> passes(
                run_args(id, port, extra_ports, platform, Some(vars), volumes, image, host_network),
                "-e"@,
                #[trigger] vars[i],
            ),
{
    let all = run_args(id, port, extra_ports, platform, Some(vars), volumes, image, host_network);
    let mounts = match volumes {
        Some(vs) => volume_flags(vs),
        None => Seq::<Seq<char>>::empty(),
    };
    let before = seq!["run"@, "--rm"@, "--detach"@] + (match platform {
        Some(p) => seq!["--platform"@, p],
        None => Seq::empty(),
    }) + (if host_network {
        seq!["--network"@, "host"@]
    } else {
        seq!["--publish"@, publish_mapping(port)]
    }) + (match extra_ports {
        Some(ps) if !host_network => publish_flags(ps),
        _ => Seq::empty(),
    }) + seq!["--name"@, id];
    assert(all == before + env_flags(vars) + mounts + seq![image]);
    assert forall|i: int| 0 <= i < vars.len() implies passes(all, "-e"@, #[trigger] vars[i]) by {
        lemma_env_flags_at(vars, i);
        let k = before.len() + 2 * i;
        assert(all[k] == env_flags(vars)[2 * i]);
        assert(all[k + 1] == env_flags(vars)[2 * i + 1]);
    }
}

/// Off the host network every port is published on the same port of the host: the
/// connection port and each additional one.
pub proof fn law_every_port_is_published(
    id: Seq<char>,
    port: u16,
    extra_ports: Option<Seq<u16>>,
    platform: Option<Seq<char>>,
    env_vars: Option<Seq<Seq<char>>>,
    volumes: Option<Seq<Seq<char>>>,
    image: Seq<char>,
)
    ensures
        passes(
            run_args(id, port, extra_ports, platform, env_vars, volumes, image, false),
            "--publish"@,
            publish_mapping(port),
        ),
        extra_ports matches Some(ps) ==> forall|i: int|
            0 <= i < ps.len() ==> passes(
                run_args(id, port, extra_ports, platform, env_vars, volumes, image, false),
                "--publish"@,
                publish_mapping(#[trigger] ps[i]),
            ),
{
    let all = run_args(id, port, extra_ports, platform, env_vars, volumes, image, false);
    let head = seq!["run"@, "--rm"@, "--detach"@] + (match platform {
        Some(p) => seq!["--platform"@, p],
        None => Seq::empty(),
    });
    let extra = match extra_ports {
        Some(ps) => publish_flags(ps),
        None => Seq::empty(),
    };
    let tail = seq!["--name"@, id] + (match env_vars {
        Some(vs) => env_flags(vs),
        None => Seq::empty(),
    }) + (match volumes {
        Some(vs) => volume_flags(vs),
        None => Seq::empty(),
    }) + seq![image];
    assert(all == head + seq!["--publish"@, publish_mapping(port)] + extra + tail);
    let k0 = head.len() as int;
    assert(all[k0] == "--publish"@);
    assert(all[k0 + 1] == publish_mapping(port));
    if let Some(ps) = extra_ports {
        assert forall|i: int| 0 <= i < ps.len() implies passes(
            all,
            "--publish"@,
            publish_mapping(#[trigger] ps[i]),
        ) by {
            lemma_publish_flags_at(ps, i);
            let k = head.len() + 2 + 2 * i;
            assert(all[k] == extra[2 * i]);
            assert(all[k + 1] == extra[2 * i + 1]);
        }
    }
}


/// Whether `volumes` are mounted one after the other from position `at` of `args`: the
/// arguments there are exactly a `-v` for each volume, in the order given.
pub open spec fn mounted_in_order(args: Seq<Seq<char>>, at: int, volumes: Seq<Seq<char>>) -> bool {
    &&& 0 <= at
    &&& at + volume_flags(volumes).len() <= args.len()
    &&& args.subrange(at, at + volume_flags(volumes).len()) == volume_flags(volumes)
}

proof fn lemma_volume_flags_at(volumes: Seq<Seq<char>>, i: int)
    requires
        0 <= i < volumes.len(),
    ensures
        volume_flags(volumes).len() == 2 * volumes.len(),
        volume_flags(volumes)[2 * i] == "-v"@,
        volume_flags(volumes)[2 * i + 1] == volumes[i],
    decreases volumes.len(),
{
    let p = volume_flags(volumes.drop_last());
    assert(volume_flags(volumes) == p + seq!["-v"@, volumes.last()]);
    if volumes.len() == 1 {
        assert(p =~= Seq::<Seq<char>>::empty());
    } else if i == volumes.len() - 1 {
        lemma_volume_flags_at(volumes.drop_last(), 0);
    } else {
        lemma_volume_flags_at(volumes.drop_last(), i);
    }
}

/// Every volume is bind-mounted: each is passed with its own `-v`, whatever the network
/// mode, and in the order given.
pub proof fn law_every_volume_is_mounted(
    id: Seq<char>,
    port: u16,
    extra_ports: Option<Seq<u16>>,
    platform: Option<Seq<char>>,
    env_vars: Option<Seq<Seq<char>>>,
    volumes: Seq<Seq<char>>,
    image: Seq<char>,
    host_network: bool,
)
    ensures
        exists|at: int|
            mounted_in_order(
                run_args(id, port, extra_ports, platform, env_vars, Some(volumes), image, host_network),
                at,
                volumes,
            ),
        forall|i: int|
            0 <= i < volumes.len() ==> passes(
                run_args(id, port, extra_ports, platform, env_vars, Some(volumes), image, host_network),
                "-v"@,
                #[trigger] volumes[i],
            ),
{
    let all = run_args(id, port, extra_ports, platform, env_vars, Some(volumes), image, host_network);
    let before = seq!["run"@, "--rm"@, "--detach"@] + (match platform {
        Some(p) => seq!["--platform"@, p],
        None => Seq::empty(),
    }) + (if host_network {
        seq!["--network"@, "host"@]
    } else {
        seq!["--publish"@, publish_mapping(port)]
    }) + (match extra_ports {
        Some(ps) if !host_network => publish_flags(ps),
        _ => Seq::empty(),
    }) + seq!["--name"@, id] + (match env_vars {
        Some(vs) => env_flags(vs),
        None => Seq::empty(),
    });
    assert(all == before + volume_flags(volumes) + seq![image]);
    assert forall|i: int| 0 <= i < volumes.len() implies passes(all, "-v"@, #[trigger] volumes[i]) by {
        lemma_volume_flags_at(volumes, i);
        let k = before.len() + 2 * i;
        assert(all[k] == volume_flags(volumes)[2 * i]);
        assert(all[k + 1] == volume_flags(volumes)[2 * i + 1]);
    }
    let at = before.len() as int;
    assert(all.subrange(at, at + volume_flags(volumes).len()) =~= volume_flags(volumes));
    assert(mounted_in_order(all, at, volumes));
}


/// Each part of a post-mortem is read from its own field of the inspect line: the status,
/// the running and OOM flags (true only for the literal `true`) and the two timestamps. In
/// particular the OOM flag reports only what the kernel's OOM killer did: it does not follow
/// the exit code, so a plain `docker kill` (exit 137) is not reported as an OOM kill, and
/// changing the exit code field changes nothing but the exit code.
pub proof fn law_each_part_is_read_from_its_own_field(
    fields: Seq<Seq<char>>,
    logs: Option<Seq<char>>,
    exit_field: Seq<char>,
)
    requires
        fields.len() >= 7,
    ensures
        diagnostics_from(fields, logs).status == fields[0],
        diagnostics_from(fields, logs).running <==> fields[1] == "true"@,
        diagnostics_from(fields, logs).oom_killed <==> fields[3] == "true"@,
        diagnostics_from(fields, logs).started_at == fields[5],
        diagnostics_from(fields, logs).finished_at == fields[6],
        diagnostics_from(fields, logs).logs == logs,
        ({
            let other = diagnostics_from(fields.update(4, exit_field), logs);
            let d = diagnostics_from(fields, logs);
            &&& other.status == d.status
            &&& other.running == d.running
            &&& other.restart_count == d.restart_count
            &&& other.oom_killed == d.oom_killed
            &&& other.started_at == d.started_at
            &&& other.finished_at == d.finished_at
        }),
{
}

} // verus!
