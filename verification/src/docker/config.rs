//! The configuration of a container.

use vstd::prelude::*;
use vstd::string::*;

use crate::text::{
    bool_string, bool_text, comma_joined, debug_quoted, decimal, join_comma, opt_numbers,
    opt_text, opt_texts, str_debug, str_views, u64_text,
};
use crate::wait::probe::NoProbe;
use crate::wait::strategy::{strategy_text, WaitStrategy};

verus! {

/// The configuration of a container: what to run, where a caller connects to it, and how to
/// tell that it is ready.
#[derive(Debug, Clone, Eq, PartialOrd, Ord, PartialEq, Hash)]
pub struct ContainerConfig<'l, P = NoProbe> {
    name: &'l str,
    image: &'l str,
    tag: &'l str,
    url: &'l str,
    connection_port: u16,
    reuse_container: bool,
    keep_configuration: bool,
    additional_ports: Option<&'l [u16]>,
    additional_env_vars: Option<&'l [&'l str]>,
    /// Bind mounts, each in Docker's `-v` form: `host:container[:ro]`.
    volumes: Option<&'l [&'l str]>,
    platform: Option<&'l str>,
    /// Run the container on the host network instead of publishing ports.
    host_network: bool,
    wait_strategy: WaitStrategy<P>,
}

/// The values a [`ContainerConfig`] holds.
pub struct ContainerConfigView<P> {
    pub name: Seq<char>,
    pub image: Seq<char>,
    pub tag: Seq<char>,
    pub url: Seq<char>,
    pub connection_port: u16,
    pub reuse_container: bool,
    pub keep_configuration: bool,
    pub additional_ports: Option<Seq<u16>>,
    pub additional_env_vars: Option<Seq<Seq<char>>>,
    pub volumes: Option<Seq<Seq<char>>>,
    pub platform: Option<Seq<char>>,
    pub host_network: bool,
    pub wait_strategy: WaitStrategy<P>,
}

impl<'l, P> View for ContainerConfig<'l, P> {
    type V = ContainerConfigView<P>;

    closed spec fn view(&self) -> ContainerConfigView<P> {
        ContainerConfigView {
            name: self.name@,
            image: self.image@,
            tag: self.tag@,
            url: self.url@,
            connection_port: self.connection_port,
            reuse_container: self.reuse_container,
            keep_configuration: self.keep_configuration,
            additional_ports: opt_numbers(self.additional_ports),
            additional_env_vars: opt_texts(self.additional_env_vars),
            volumes: opt_texts(self.volumes),
            platform: opt_text(self.platform),
            host_network: self.host_network,
            wait_strategy: self.wait_strategy,
        }
    }
}

/// `image:tag`, the image reference a container runs.
pub open spec fn image_reference(image: Seq<char>, tag: Seq<char>) -> Seq<char> {
    image + ":"@ + tag
}

/// `name-port`, the ID a container is started under.
pub open spec fn container_id(name: Seq<char>, port: u16) -> Seq<char> {
    name + "-"@ + decimal(port as nat)
}

/// How an optional list of ports shows in `Debug` form.
pub open spec fn ports_debug(o: Option<Seq<u16>>) -> Seq<char> {
    match o {
        Some(ps) => "Some(["@ + comma_joined(ps.map_values(|p: u16| decimal(p as nat))) + "])"@,
        None => "None"@,
    }
}

/// How an optional list of strings shows in `Debug` form.
pub open spec fn texts_debug(o: Option<Seq<Seq<char>>>) -> Seq<char> {
    match o {
        Some(vs) => "Some(["@ + comma_joined(vs.map_values(|v: Seq<char>| debug_quoted(v)))
            + "])"@,
        None => "None"@,
    }
}

/// How an optional string shows in `Debug` form.
pub open spec fn text_debug(o: Option<Seq<char>>) -> Seq<char> {
    match o {
        Some(v) => "Some("@ + debug_quoted(v) + ")"@,
        None => "None"@,
    }
}

/// How a configuration displays.
pub open spec fn config_text<P>(c: ContainerConfigView<P>) -> Seq<char> {
    "name: "@ + c.name + ", image: "@ + c.image + ":"@ + c.tag + ", url: "@ + c.url
        + " connection_port: "@ + decimal(c.connection_port as nat) + ", additional_ports: "@
        + ports_debug(c.additional_ports) + ", additional_env_vars: "@ + texts_debug(
        c.additional_env_vars,
    ) + ", platform: "@ + text_debug(c.platform) + ",  reuse_container: "@ + bool_text(
        c.reuse_container,
    ) + ", keep_configuration: "@ + bool_text(c.keep_configuration) + ", host_network: "@
        + bool_text(c.host_network) + ", wait_strategy: "@ + strategy_text(c.wait_strategy)
}

fn ports_debug_text(o: Option<&[u16]>) -> (s: String)
    ensures
        s@ == ports_debug(opt_numbers(o)),
{
    match o {
        None => String::from_str("None"),
        Some(ps) => {
            let mut items: Vec<String> = Vec::new();
            let mut i: usize = 0;
            while i < ps.len()
                invariant
                    i <= ps@.len(),
                    items@.len() == i,
                    items@.map_values(|t: String| t@) =~= ps@.take(i as int).map_values(
                        |p: u16| decimal(p as nat),
                    ),
                decreases ps.len() - i,
            {
                let ghost before = items@;
                let t = u64_text(ps[i] as u64);
                items.push(t);
                proof {
                    let want = ps@.take(i + 1).map_values(|p: u16| decimal(p as nat));
                    let got = items@.map_values(|t: String| t@);
                    assert(got.len() == want.len());
                    assert forall|k: int| 0 <= k < got.len() implies got[k] == want[k] by {
                        if k < i {
                            assert(items@[k] == before[k]);
                            assert(ps@.take(i + 1)[k] == ps@.take(i as int)[k]);
                            assert(before.map_values(|t: String| t@)[k] == ps@.take(
                                i as int,
                            ).map_values(|p: u16| decimal(p as nat))[k]);
                        } else {
                            assert(got[k] == t@);
                        }
                    }
                    assert(got =~= want);
                }
                i = i + 1;
            }
            assert(ps@.take(ps@.len() as int) =~= ps@);
            let mut s = String::from_str("Some([");
            let joined = join_comma(&items);
            s.append(joined.as_str());
            s.append("])");
            s
        },
    }
}

fn texts_debug_text(o: Option<&[&str]>) -> (s: String)
    ensures
        s@ == texts_debug(opt_texts(o)),
{
    match o {
        None => String::from_str("None"),
        Some(vs) => {
            let mut items: Vec<String> = Vec::new();
            let mut i: usize = 0;
            while i < vs.len()
                invariant
                    i <= vs@.len(),
                    items@.len() == i,
                    items@.map_values(|t: String| t@) =~= str_views(vs@).take(
                        i as int,
                    ).map_values(|v: Seq<char>| debug_quoted(v)),
                decreases vs.len() - i,
            {
                let ghost before = items@;
                let t = str_debug(vs[i]);
                items.push(t);
                proof {
                    let want = str_views(vs@).take(i + 1).map_values(
                        |v: Seq<char>| debug_quoted(v),
                    );
                    let got = items@.map_values(|t: String| t@);
                    assert(got.len() == want.len());
                    assert forall|k: int| 0 <= k < got.len() implies got[k] == want[k] by {
                        if k < i {
                            assert(items@[k] == before[k]);
                            assert(str_views(vs@).take(i + 1)[k] == str_views(vs@).take(
                                i as int,
                            )[k]);
                            assert(before.map_values(|t: String| t@)[k] == str_views(
                                vs@,
                            ).take(i as int).map_values(|v: Seq<char>| debug_quoted(v))[k]);
                        } else {
                            assert(got[k] == t@);
                        }
                    }
                    assert(got =~= want);
                }
                i = i + 1;
            }
            assert(str_views(vs@).take(vs@.len() as int) =~= str_views(vs@));
            let mut s = String::from_str("Some([");
            let joined = join_comma(&items);
            s.append(joined.as_str());
            s.append("])");
            s
        },
    }
}

fn text_debug_text(o: Option<&str>) -> (s: String)
    ensures
        s@ == text_debug(opt_text(o)),
{
    match o {
        None => String::from_str("None"),
        Some(v) => {
            let mut s = String::from_str("Some(");
            let q = str_debug(v);
            s.append(q.as_str());
            s.append(")");
            s
        },
    }
}

impl<'l> ContainerConfig<'l> {
    /// A configuration with the given values, whose wait strategy runs no probe of the caller's.
    ///
    /// * `url` - The address a caller connects to, usually `0.0.0.0`.
    /// * `connection_port` - The port of the main connection, e.g. 80 for a web server.
    /// * `additional_ports` - Further ports to publish.
    /// * `volumes` - Bind mounts, each in Docker's `-v` form: `host:container[:ro]`.
    /// * `platform` - A platform such as `linux/amd64`, for images that are not multi-arch.
    /// * `host_network` - Run on the host network instead of publishing ports.
    /// * `reuse_container` - Reuse a running container of the same ID.
    /// * `keep_configuration` - Keep the same configuration across environment setups.
    pub fn new(
        name: &'l str,
        image: &'l str,
        tag: &'l str,
        url: &'l str,
        connection_port: u16,
        additional_ports: Option<&'l [u16]>,
        additional_env_vars: Option<&'l [&'l str]>,
        volumes: Option<&'l [&'l str]>,
        platform: Option<&'l str>,
        host_network: bool,
        reuse_container: bool,
        keep_configuration: bool,
        wait_strategy: WaitStrategy,
    ) -> (c: Self)
        ensures
            c@ == (ContainerConfigView {
                name: name@,
                image: image@,
                tag: tag@,
                url: url@,
                connection_port,
                reuse_container,
                keep_configuration,
                additional_ports: opt_numbers(additional_ports),
                additional_env_vars: opt_texts(additional_env_vars),
                volumes: opt_texts(volumes),
                platform: opt_text(platform),
                host_network,
                wait_strategy,
            }),
    {
        Self::configure(
            name,
            image,
            tag,
            url,
            connection_port,
            additional_ports,
            additional_env_vars,
            volumes,
            platform,
            host_network,
            reuse_container,
            keep_configuration,
            wait_strategy,
        )
    }
}

impl<'l, P> ContainerConfig<'l, P> {
    /// A configuration with the given values, whose wait strategy may run a probe of type `P`.
    ///
    /// * `url` - The address a caller connects to, usually `0.0.0.0`.
    /// * `connection_port` - The port of the main connection, e.g. 80 for a web server.
    /// * `additional_ports` - Further ports to publish.
    /// * `volumes` - Bind mounts, each in Docker's `-v` form: `host:container[:ro]`.
    /// * `platform` - A platform such as `linux/amd64`, for images that are not multi-arch.
    /// * `host_network` - Run on the host network instead of publishing ports.
    /// * `reuse_container` - Reuse a running container of the same ID.
    /// * `keep_configuration` - Keep the same configuration across environment setups.
    pub fn configure(
        name: &'l str,
        image: &'l str,
        tag: &'l str,
        url: &'l str,
        connection_port: u16,
        additional_ports: Option<&'l [u16]>,
        additional_env_vars: Option<&'l [&'l str]>,
        volumes: Option<&'l [&'l str]>,
        platform: Option<&'l str>,
        host_network: bool,
        reuse_container: bool,
        keep_configuration: bool,
        wait_strategy: WaitStrategy<P>,
    ) -> (c: Self)
        ensures
            c@ == (ContainerConfigView {
                name: name@,
                image: image@,
                tag: tag@,
                url: url@,
                connection_port,
                reuse_container,
                keep_configuration,
                additional_ports: opt_numbers(additional_ports),
                additional_env_vars: opt_texts(additional_env_vars),
                volumes: opt_texts(volumes),
                platform: opt_text(platform),
                host_network,
                wait_strategy,
            }),
    {
        ContainerConfig {
            name,
            image,
            tag,
            url,
            connection_port,
            reuse_container,
            keep_configuration,
            additional_ports,
            additional_env_vars,
            volumes,
            platform,
            host_network,
            wait_strategy,
        }
    }

    pub fn name(&self) -> (r: &'l str)
        ensures
            r@ == self@.name,
    {
        self.name
    }

    /// `image:tag`.
    pub fn container_image(&self) -> (r: String)
        ensures
            r@ == image_reference(self@.image, self@.tag),
    {
        let mut s = String::from_str(self.image);
        s.append(":");
        s.append(self.tag);
        s
    }

    /// `name-port`, the ID the container is started under.
    pub fn container_name(&self) -> (r: String)
        ensures
            r@ == container_id(self@.name, self@.connection_port),
    {
        let mut s = String::from_str(self.name);
        s.append("-");
        let port = u64_text(self.connection_port as u64);
        s.append(port.as_str());
        s
    }

    pub fn url(&self) -> (r: &'l str)
        ensures
            r@ == self@.url,
    {
        self.url
    }

    pub fn connection_port(&self) -> (r: u16)
        ensures
            r == self@.connection_port,
    {
        self.connection_port
    }

    pub fn additional_ports(&self) -> (r: Option<&'l [u16]>)
        ensures
            opt_numbers(r) == self@.additional_ports,
    {
        self.additional_ports
    }

    pub fn additional_env_vars(&self) -> (r: Option<&'l [&'l str]>)
        ensures
            opt_texts(r) == self@.additional_env_vars,
    {
        self.additional_env_vars
    }

    /// Bind mounts, each in Docker's `-v` form: `host:container[:ro]`.
    pub fn volumes(&self) -> (r: Option<&'l [&'l str]>)
        ensures
            opt_texts(r) == self@.volumes,
    {
        self.volumes
    }

    pub fn platform(&self) -> (r: Option<&'l str>)
        ensures
            opt_text(r) == self@.platform,
    {
        self.platform
    }

    pub fn reuse_container(&self) -> (r: bool)
        ensures
            r == self@.reuse_container,
    {
        self.reuse_container
    }

    pub fn keep_configuration(&self) -> (r: bool)
        ensures
            r == self@.keep_configuration,
    {
        self.keep_configuration
    }

    /// Whether the container runs on the host network, where it is started with
    /// `--network host` and publishes no port.
    pub fn host_network(&self) -> (r: bool)
        ensures
            r == self@.host_network,
    {
        self.host_network
    }

    pub fn wait_strategy(&self) -> (r: &WaitStrategy<P>)
        ensures
            *r == self@.wait_strategy,
    {
        &self.wait_strategy
    }

    pub fn image(&self) -> (r: &'l str)
        ensures
            r@ == self@.image,
    {
        self.image
    }

    pub fn tag(&self) -> (r: &'l str)
        ensures
            r@ == self@.tag,
    {
        self.tag
    }

    /// The configuration as it displays.
    pub fn to_string(&self) -> (s: String)
        ensures
            s@ == config_text(self@),
    {
        let mut s = String::from_str("name: ");
        s.append(self.name);
        s.append(", image: ");
        s.append(self.image);
        s.append(":");
        s.append(self.tag);
        s.append(", url: ");
        s.append(self.url);
        s.append(" connection_port: ");
        let port = u64_text(self.connection_port as u64);
        s.append(port.as_str());
        s.append(", additional_ports: ");
        let ports = ports_debug_text(self.additional_ports);
        s.append(ports.as_str());
        s.append(", additional_env_vars: ");
        let vars = texts_debug_text(self.additional_env_vars);
        s.append(vars.as_str());
        s.append(", platform: ");
        let platform = text_debug_text(self.platform);
        s.append(platform.as_str());
        s.append(",  reuse_container: ");
        let reuse = bool_string(self.reuse_container);
        s.append(reuse.as_str());
        s.append(", keep_configuration: ");
        let keep = bool_string(self.keep_configuration);
        s.append(keep.as_str());
        s.append(", host_network: ");
        let host = bool_string(self.host_network);
        s.append(host.as_str());
        s.append(", wait_strategy: ");
        let strategy = self.wait_strategy.to_string();
        s.append(strategy.as_str());
        s
    }
}

impl<'l> Default for ContainerConfig<'l> {
    /// Empty names, port 0, nothing optional set, publishing ports, and no wait.
    fn default() -> (c: Self)
        ensures
            c@ == (ContainerConfigView::<NoProbe> {
                name: ""@,
                image: ""@,
                tag: ""@,
                url: ""@,
                connection_port: 0,
                reuse_container: false,
                keep_configuration: false,
                additional_ports: None,
                additional_env_vars: None,
                volumes: None,
                platform: None,
                host_network: false,
                wait_strategy: WaitStrategy::NoWait,
            }),
    {
        ContainerConfig {
            name: "",
            image: "",
            tag: "",
            url: "",
            connection_port: 0,
            reuse_container: false,
            keep_configuration: false,
            additional_ports: None,
            additional_env_vars: None,
            volumes: None,
            platform: None,
            host_network: false,
            wait_strategy: WaitStrategy::NoWait,
        }
    }
}

} // verus!
