//! The arguments of the `docker` commands, built without running any of them.

use vstd::prelude::*;
use vstd::string::*;

use crate::docker::error::DockerError;
use crate::text::{
    chars_of, decimal, last_index, last_index_in, lemma_last_index, parse_unsigned,
    parse_unsigned_text, trim, trim_bounds, u64_text,
};

verus! {

/// The views of a sequence of strings.
pub open spec fn texts(v: Seq<String>) -> Seq<Seq<char>> {
    v.map_values(|s: String| s@)
}

/// The views of a sequence of string slices.
pub open spec fn strs(v: Seq<&str>) -> Seq<Seq<char>> {
    v.map_values(|s: &str| s@)
}

/// `s` with every `.` escaped by a backslash.
pub open spec fn escape_dots(s: Seq<char>) -> Seq<char>
    decreases s.len(),
{
    if s.len() == 0 {
        Seq::empty()
    } else if s.last() == '.' {
        escape_dots(s.drop_last()) + seq!['\\', '.']
    } else {
        escape_dots(s.drop_last()).push(s.last())
    }
}

/// The `docker ps` name filter that matches exactly the container `id`.
pub open spec fn name_filter(id: Seq<char>) -> Seq<char> {
    "--filter=name=^"@ + escape_dots(id) + "$"@
}

/// Builds a `docker ps` name filter that matches `container_id` and nothing else.
///
/// Docker matches the name filter as a regular expression anywhere within the name, so the
/// pattern is anchored at both ends, and a dot, the only metacharacter Docker permits in a
/// container name, is escaped.
pub fn exact_name_filter(container_id: &str) -> (f: String)
    ensures
        f@ == name_filter(container_id@),
{
    let mut f = String::from_str("--filter=name=^");
    let ghost id = container_id@;
    let n = container_id.unicode_len();
    let mut i: usize = 0;
    proof {
        assert(id.take(0) =~= Seq::<char>::empty());
    }
    while i < n
        invariant
            i <= n == id.len(),
            id == container_id@,
            f@ == "--filter=name=^"@ + escape_dots(id.take(i as int)),
        decreases n - i,
    {
        let c = container_id.get_char(i);
        proof {
            assert(id.take(i + 1).drop_last() =~= id.take(i as int));
            assert(id.take(i + 1).last() == c);
        }
        if c == '.' {
            proof {
                reveal_strlit("\\.");
            }
            assert("\\."@ =~= seq!['\\', '.']);
            f.append("\\.");
        } else {
            let one = container_id.substring_char(i, i + 1);
            assert(one@ =~= seq![c]);
            f.append(one);
        }
        assert(f@ =~= "--filter=name=^"@ + escape_dots(id.take(i + 1)));
        i = i + 1;
    }
    assert(id.take(n as int) =~= id);
    f.append("$");
    f
}

/// The text after the last `c` in `s`, or all of `s` when it holds no `c`; what
/// `s.rsplit(c).next()` yields.
pub open spec fn after_last(s: Seq<char>, c: char) -> Seq<char> {
    s.subrange(last_index(s, c) + 1, s.len() as int)
}

/// The port that a container ID of the form `<name>-<port>` carries.
pub open spec fn port_of_id(id: Seq<char>) -> Option<nat> {
    parse_unsigned(trim(after_last(id, '-')), 0xffff)
}

/// The message reported for a container ID that carries no port.
pub open spec fn port_error_message(id: Seq<char>) -> Seq<char> {
    "[get_running_container]: Failed to read the port from container ID "@ + id
        + ". Expected an ID of the form <name>-<port>."@
}

/// Extracts the port from a container ID of the form `<name>-<port>`.
///
/// Returns an error rather than panicking, because container IDs reach the public API
/// straight from the caller and need not carry a port suffix at all.
pub fn container_port_from_id(container_id: &str) -> (r: Result<u16, DockerError>)
    ensures
        match r {
            Ok(port) => port_of_id(container_id@) == Some(port as nat),
            Err(e) => port_of_id(container_id@) is None && e.0@ == port_error_message(
                container_id@,
            ),
        },
{
    let v = chars_of(container_id);
    let n = v.len();
    let found = last_index_in(&v, 0, n, '-');
    proof {
        assert(v@.subrange(0, n as int) =~= v@);
        lemma_last_index(v@, '-');
    }
    let start: usize = match found {
        Some(k) => k + 1,
        None => 0,
    };
    let suffix = container_id.substring_char(start, n);
    let trimmed_chars = chars_of(suffix);
    let (a, b) = trim_bounds(&trimmed_chars);
    let digits = suffix.substring_char(a, b);
    match parse_unsigned_text(digits, 0xffff) {
        Some(p) => Ok(p as u16),
        None => {
            let mut m = String::from_str(
                "[get_running_container]: Failed to read the port from container ID ",
            );
            m.append(container_id);
            m.append(". Expected an ID of the form <name>-<port>.");
            Err(DockerError(m))
        },
    }
}

/// The tag of an image reference: the text after its last colon, once trimmed, provided
/// that no `/` follows that colon (a colon followed by a path belongs to a registry port).
pub open spec fn image_tag_of(image: Seq<char>) -> Option<Seq<char>> {
    let t = trim(image);
    let k = last_index(t, ':');
    if k < 0 {
        None
    } else if t.subrange(k, t.len() as int).contains('/') {
        None
    } else {
        Some(t.subrange(k + 1, t.len() as int))
    }
}

/// Extracts the tag from an image reference such as `nginx:1.27.0`.
///
/// A registry host may carry a port, as in `registry.io:5000/image`, so a colon only starts
/// a tag when no path separator follows it.
pub fn image_tag(image: &str) -> (r: Option<&str>)
    ensures
        match r {
            Some(tag) => image_tag_of(image@) == Some(tag@),
            None => image_tag_of(image@) is None,
        },
{
    let v = chars_of(image);
    let (a, b) = trim_bounds(&v);
    let ghost t = v@.subrange(a as int, b as int);
    proof {
        lemma_last_index(t, ':');
    }
    match last_index_in(&v, a, b, ':') {
        None => None,
        Some(k) => {
            let slash = last_index_in(&v, a + k, b, '/');
            proof {
                let rest = t.subrange(k as int, t.len() as int);
                assert(rest =~= v@.subrange(a + k, b as int));
                lemma_last_index(rest, '/');
                if rest.contains('/') {
                    let j = choose|j: int| 0 <= j < rest.len() && rest[j] == '/';
                    assert(rest[j] == '/');
                }
            }
            match slash {
                Some(_) => None,
                None => {
                    let tag = image.substring_char(a + k + 1, b);
                    assert(tag@ =~= t.subrange(k + 1, t.len() as int));
                    Some(tag)
                },
            }
        },
    }
}

/// `host:container` for publishing `port` on the same port of the host.
pub open spec fn publish_mapping(port: u16) -> Seq<char> {
    decimal(port as nat) + ":"@ + decimal(port as nat)
}

/// A `--publish` flag for each of `ports`.
pub open spec fn publish_flags(ports: Seq<u16>) -> Seq<Seq<char>>
    decreases ports.len(),
{
    if ports.len() == 0 {
        Seq::empty()
    } else {
        publish_flags(ports.drop_last()) + seq!["--publish"@, publish_mapping(ports.last())]
    }
}

/// An `-e` flag for each of `vars`.
pub open spec fn env_flags(vars: Seq<Seq<char>>) -> Seq<Seq<char>>
    decreases vars.len(),
{
    if vars.len() == 0 {
        Seq::empty()
    } else {
        env_flags(vars.drop_last()) + seq!["-e"@, vars.last()]
    }
}

/// A `-v` flag for each of `volumes`, each a bind mount in Docker's `host:container[:ro]`
/// form.
pub open spec fn volume_flags(volumes: Seq<Seq<char>>) -> Seq<Seq<char>>
    decreases volumes.len(),
{
    if volumes.len() == 0 {
        Seq::empty()
    } else {
        volume_flags(volumes.drop_last()) + seq!["-v"@, volumes.last()]
    }
}

/// The complete argument list of `docker run` for a container.
///
/// On the host network, `--network host` replaces every `--publish`, because Docker
/// discards published ports in that mode.
pub open spec fn run_args(
    id: Seq<char>,
    port: u16,
    extra_ports: Option<Seq<u16>>,
    platform: Option<Seq<char>>,
    env_vars: Option<Seq<Seq<char>>>,
    volumes: Option<Seq<Seq<char>>>,
    image: Seq<char>,
    host_network: bool,
) -> Seq<Seq<char>> {
    seq!["run"@, "--rm"@, "--detach"@] + (match platform {
        Some(p) => seq!["--platform"@, p],
        None => Seq::empty(),
    }) + (if host_network {
        seq!["--network"@, "host"@]
    } else {
        seq!["--publish"@, publish_mapping(port)]
    }) + (match extra_ports {
        Some(ps) if !host_network => publish_flags(ps),
        _ => Seq::empty(),
    }) + seq!["--name"@, id] + (match env_vars {
        Some(vs) => env_flags(vs),
        None => Seq::empty(),
    }) + (match volumes {
        Some(vs) => volume_flags(vs),
        None => Seq::empty(),
    }) + seq![image]
}

/// The message reported for an additional port of 0.
pub open spec fn zero_port_message(id: Seq<char>) -> Seq<char> {
    "Error starting container "@ + id + ": Port cannot be 0."@
}

/// Renders `host:container` for `port`.
fn publish_text(port: u16) -> (s: String)
    ensures
        s@ == publish_mapping(port),
{
    let mut s = u64_text(port as u64);
    s.append(":");
    let again = u64_text(port as u64);
    s.append(again.as_str());
    s
}

/// Builds the full argument list for `docker run`.
///
/// Kept separate from the command that runs it so that the argument construction, in
/// particular the host network / port publishing branch, can be verified without invoking
/// Docker. An additional port of 0 is rejected whatever the network mode, so that an
/// invalid configuration is reported rather than silently ignored on the host network.
/// Each volume is bind-mounted with its own `-v`, in the order given.
pub fn build_run_args(
    container_id: &str,
    connection_port: u16,
    additional_ports: Option<&[u16]>,
    platform: Option<&str>,
    additional_env_vars: Option<&[&str]>,
    volumes: Option<&[&str]>,
    image: &str,
    host_network: bool,
) -> (r: Result<Vec<String>, DockerError>)
    ensures
        match r {
            Ok(args) => {
                &&& !(additional_ports matches Some(ps) && ps@.contains(0u16))
                &&& texts(args@) == run_args(
                    container_id@,
                    connection_port,
                    match additional_ports {
                        Some(ps) => Some(ps@),
                        None => None,
                    },
                    match platform {
                        Some(p) => Some(p@),
                        None => None,
                    },
                    match additional_env_vars {
                        Some(vs) => Some(strs(vs@)),
                        None => None,
                    },
                    match volumes {
                        Some(vs) => Some(strs(vs@)),
                        None => None,
                    },
                    image@,
                    host_network,
                )
            },
            Err(e) => {
                &&& additional_ports matches Some(ps) && ps@.contains(0u16)
                &&& e.0@ == zero_port_message(container_id@)
            },
        },
{
    let mut args: Vec<String> = Vec::new();
    args.push(String::from_str("run"));
    args.push(String::from_str("--rm"));
    args.push(String::from_str("--detach"));
    if let Some(p) = platform {
        args.push(String::from_str("--platform"));
        args.push(String::from_str(p));
    }
    if host_network {
        args.push(String::from_str("--network"));
        args.push(String::from_str("host"));
    } else {
        args.push(String::from_str("--publish"));
        args.push(publish_text(connection_port));
    }
    let ghost head = texts(args@);
    assert(head == seq!["run"@, "--rm"@, "--detach"@] + (match platform {
        Some(p) => seq!["--platform"@, p@],
        None => Seq::empty(),
    }) + (if host_network {
        seq!["--network"@, "host"@]
    } else {
        seq!["--publish"@, publish_mapping(connection_port)]
    }));
    if let Some(ports) = additional_ports {
        let mut i: usize = 0;
        assert(ports@.take(0) =~= Seq::<u16>::empty());
        while i < ports.len()
            invariant
                i <= ports@.len(),
                additional_ports == Some(ports),
                forall|j: int| 0 <= j < i ==> ports@[j] != 0,
                texts(args@) == head + (if host_network {
                    Seq::empty()
                } else {
                    publish_flags(ports@.take(i as int))
                }),
            decreases ports.len() - i,
        {
            let port = ports[i];
            if port == 0 {
                assert(ports@[i as int] == 0u16);
                let mut m = String::from_str("Error starting container ");
                m.append(container_id);
                m.append(": Port cannot be 0.");
                return Err(DockerError(m));
            }
            proof {
                assert(ports@.take(i + 1).drop_last() =~= ports@.take(i as int));
                assert(ports@.take(i + 1).last() == port);
            }
            let ghost prev = texts(args@);
            if !host_network {
                args.push(String::from_str("--publish"));
                args.push(publish_text(port));
                assert(texts(args@) =~= prev + seq!["--publish"@, publish_mapping(port)]);
            }
            assert(texts(args@) =~= head + (if host_network {
                Seq::empty()
            } else {
                publish_flags(ports@.take(i + 1))
            }));
            i = i + 1;
        }
        assert(ports@.take(ports@.len() as int) =~= ports@);
        assert(!ports@.contains(0u16));
    }
    let ghost mid = texts(args@);
    args.push(String::from_str("--name"));
    args.push(String::from_str(container_id));
    let ghost named = texts(args@);
    assert(named =~= mid + seq!["--name"@, container_id@]);
    if let Some(vars) = additional_env_vars {
        let mut i: usize = 0;
        assert(strs(vars@).take(0) =~= Seq::<Seq<char>>::empty());
        while i < vars.len()
            invariant
                i <= vars@.len(),
                texts(args@) == named + env_flags(strs(vars@).take(i as int)),
            decreases vars.len() - i,
        {
            let var = vars[i];
            proof {
                assert(strs(vars@).take(i + 1).drop_last() =~= strs(vars@).take(i as int));
                assert(strs(vars@).take(i + 1).last() == var@);
            }
            let ghost prev = texts(args@);
            args.push(String::from_str("-e"));
            args.push(String::from_str(var));
            assert(texts(args@) =~= prev + seq!["-e"@, var@]);
            assert(texts(args@) =~= named + env_flags(strs(vars@).take(i + 1)));
            i = i + 1;
        }
        assert(strs(vars@).take(vars@.len() as int) =~= strs(vars@));
    }
    let ghost enved = texts(args@);
    if let Some(mounts) = volumes {
        let mut i: usize = 0;
        assert(strs(mounts@).take(0) =~= Seq::<Seq<char>>::empty());
        while i < mounts.len()
            invariant
                i <= mounts@.len(),
                texts(args@) == enved + volume_flags(strs(mounts@).take(i as int)),
            decreases mounts.len() - i,
        {
            let mount = mounts[i];
            proof {
                assert(strs(mounts@).take(i + 1).drop_last() =~= strs(mounts@).take(i as int));
                assert(strs(mounts@).take(i + 1).last() == mount@);
            }
            let ghost prev = texts(args@);
            args.push(String::from_str("-v"));
            args.push(String::from_str(mount));
            assert(texts(args@) =~= prev + seq!["-v"@, mount@]);
            assert(texts(args@) =~= enved + volume_flags(strs(mounts@).take(i + 1)));
            i = i + 1;
        }
        assert(strs(mounts@).take(mounts@.len() as int) =~= strs(mounts@));
    }
    let ghost before_image = texts(args@);
    args.push(String::from_str(image));
    assert(texts(args@) =~= before_image + seq![image@]);
    Ok(args)
}

} // verus!
