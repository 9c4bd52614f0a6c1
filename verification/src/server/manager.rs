//! What the container manager decides: which runtime socket to use, which
//! containers may be touched, how listings and inspections are rendered, and
//! which values are hidden.
//!
//! Talking to the runtime is the caller's; it hands over what the runtime
//! answered as plain values.

use vstd::prelude::*;
use crate::config::ContainerConfig;
use crate::server::types::{status_from_lower, ContainerInfo, ContainerStatus};
use crate::text::{
    byte_prefix, chars_of, contains, contains_seq, cuttable, decimal, find_chars, find_seq, join,
    join_seq, lowercase, owned, prefix_bytes, slice_chars, starts_with, starts_with_seq, str_eq,
    string_of, to_lowercase, trim_start_char, trim_start_matches_char, u64_to_string, views,
    i64_to_string,
};

verus! {

/// Container management errors.
#[derive(Debug)]
pub enum ContainerError {
    /// The runtime could not be reached (the client's message).
    Connection(String),
    /// No runtime socket was found.
    NoSocket,
    /// No container has the name.
    NotFound(String),
    /// The container is not in the allowlist.
    NotAllowed(String),
    /// The operation failed.
    Operation(String),
}

impl ContainerError {
    /// Whether `m` is this error's message.
    pub open spec fn message_ensures(&self, m: Seq<char>) -> bool {
        match self {
            ContainerError::Connection(e) => m == "failed to connect to container runtime: "@ + e@,
            ContainerError::NoSocket => m == "no container runtime socket found"@,
            ContainerError::NotFound(n) => m == "container not found: "@ + n@,
            ContainerError::NotAllowed(n) => m == "container not in allowlist: "@ + n@,
            ContainerError::Operation(e) => m == "container operation failed: "@ + e@,
        }
    }

    /// The error message.
    pub fn message(&self) -> (r: String)
        ensures
            match self {
                ContainerError::Connection(e) => r@ == "failed to connect to container runtime: "@ + e@,
                ContainerError::NoSocket => r@ == "no container runtime socket found"@,
                ContainerError::NotFound(n) => r@ == "container not found: "@ + n@,
                ContainerError::NotAllowed(n) => r@ == "container not in allowlist: "@ + n@,
                ContainerError::Operation(e) => r@ == "container operation failed: "@ + e@,
            },
    {
        match self {
            ContainerError::Connection(e) => owned("failed to connect to container runtime: ").concat(e.as_str()),
            ContainerError::NoSocket => owned("no container runtime socket found"),
            ContainerError::NotFound(n) => owned("container not found: ").concat(n.as_str()),
            ContainerError::NotAllowed(n) => owned("container not in allowlist: ").concat(n.as_str()),
            ContainerError::Operation(e) => owned("container operation failed: ").concat(e.as_str()),
        }
    }
}

/// The error for a failed runtime call on a named container: a missing container
/// is `NotFound`, anything else a connection error with the client's message.
pub fn runtime_error(message: &str, name: &str) -> (r: ContainerError)
    ensures
        contains_seq(message@, "No such container"@) ==> (r matches ContainerError::NotFound(n) && n@ == name@),
        !contains_seq(message@, "No such container"@) ==> (r matches ContainerError::Connection(m) && m@ == message@),
{
    if contains(message, "No such container") {
        ContainerError::NotFound(owned(name))
    } else {
        ContainerError::Connection(owned(message))
    }
}

// ---------------------------------------------------------------------------
// Runtime socket
// ---------------------------------------------------------------------------

/// A socket path as a URL: kept when it already starts with `unix://`.
pub open spec fn socket_url_of(path: Seq<char>) -> Seq<char> {
    if starts_with_seq(path, "unix://"@) { path } else { "unix://"@ + path }
}

/// A socket path as a URL.
pub fn socket_url(path: &str) -> (r: String)
    ensures
        r@ == socket_url_of(path@),
{
    if starts_with(path, "unix://") {
        owned(path)
    } else {
        owned("unix://").concat(path)
    }
}

/// The first candidate that is present, as a URL.
pub open spec fn first_present(candidates: Seq<Seq<char>>, present: Seq<bool>) -> Option<Seq<char>>
    decreases candidates.len(),
{
    if candidates.len() == 0 || present.len() == 0 {
        None
    } else if present[0] {
        Some("unix://"@ + candidates[0])
    } else {
        first_present(candidates.skip(1), present.skip(1))
    }
}

fn first_present_socket(candidates: &Vec<String>, present: &Vec<bool>) -> (r: Option<String>)
    requires
        candidates@.len() == present@.len(),
    ensures
        r matches Some(u) ==> first_present(views(candidates@), present@) == Some(u@),
        r is None ==> first_present(views(candidates@), present@) is None,
{
    let ghost cs = views(candidates@);
    let mut i: usize = 0;
    assert(cs.skip(0) =~= cs);
    assert(present@.skip(0) =~= present@);
    while i < candidates.len()
        invariant
            i <= candidates.len(),
            candidates@.len() == present@.len(),
            cs == views(candidates@),
            first_present(cs, present@) == first_present(cs.skip(i as int), present@.skip(i as int)),
        decreases candidates.len() - i,
    {
        if present[i] {
            let r = owned("unix://").concat(candidates[i].as_str());
            assert(cs.skip(i as int)[0] == candidates@[i as int]@);
            return Some(r);
        }
        assert(cs.skip(i as int).skip(1) =~= cs.skip(i + 1));
        assert(present@.skip(i as int).skip(1) =~= present@.skip(i + 1));
        i = i + 1;
    }
    None
}

/// The places a Podman socket is looked for, in order of preference: under
/// `XDG_RUNTIME_DIR`, under `/run/user/<uid>`, the Podman machine sockets under the
/// home directory, the Docker socket, and the Colima sockets under the home directory.
pub open spec fn podman_candidates(xdg: Option<Seq<char>>, uid: Option<u32>, home: Option<Seq<char>>) -> Seq<Seq<char>> {
    let a = match xdg {
        Some(x) => seq![crate::config::path_join(x, "podman/podman.sock"@)],
        None => Seq::empty(),
    };
    let b = match uid {
        Some(u) => seq!["/run/user/"@ + decimal(u as nat) + "/podman/podman.sock"@],
        None => Seq::empty(),
    };
    let c = match home {
        Some(h) => seq![
            crate::config::path_join(h, ".local/share/containers/podman/machine/podman.sock"@),
            crate::config::path_join(h, ".local/share/containers/podman/machine/qemu/podman.sock"@),
            crate::config::path_join(h, ".local/share/containers/podman/machine/podman-machine-default/podman.sock"@),
        ],
        None => Seq::empty(),
    };
    let d = match home {
        Some(h) => seq![
            crate::config::path_join(h, ".colima/default/docker.sock"@),
            crate::config::path_join(h, ".colima/docker.sock"@),
        ],
        None => Seq::empty(),
    };
    a + b + c + seq!["/var/run/docker.sock"@] + d
}

/// The places a Podman socket is looked for.
pub fn podman_socket_candidates(xdg: Option<&str>, uid: Option<u32>, home: Option<&str>) -> (r: Vec<String>)
    ensures
        views(r@) == podman_candidates(
            match xdg { Some(x) => Some(x@), None => None },
            uid,
            match home { Some(h) => Some(h@), None => None },
        ),
{
    let mut out: Vec<String> = Vec::new();
    if let Some(x) = xdg {
        out.push(crate::config::join_path(x, "podman/podman.sock"));
    }
    if let Some(u) = uid {
        let d = u64_to_string(u as u64);
        out.push(owned("/run/user/").concat(d.as_str()).concat("/podman/podman.sock"));
    }
    if let Some(h) = home {
        out.push(crate::config::join_path(h, ".local/share/containers/podman/machine/podman.sock"));
        out.push(crate::config::join_path(h, ".local/share/containers/podman/machine/qemu/podman.sock"));
        out.push(crate::config::join_path(h, ".local/share/containers/podman/machine/podman-machine-default/podman.sock"));
    }
    out.push(owned("/var/run/docker.sock"));
    if let Some(h) = home {
        out.push(crate::config::join_path(h, ".colima/default/docker.sock"));
        out.push(crate::config::join_path(h, ".colima/docker.sock"));
    }
    let ghost want = podman_candidates(
        match xdg { Some(x) => Some(x@), None => None },
        uid,
        match home { Some(h) => Some(h@), None => None },
    );
    assert(views(out@) =~= want);
    out
}

/// The Podman socket: the first of `candidates` that `present` marks as existing,
/// as a URL.
pub fn detect_podman_socket(candidates: &Vec<String>, present: &Vec<bool>) -> (r: Option<String>)
    requires
        candidates@.len() == present@.len(),
    ensures
        r matches Some(u) ==> first_present(views(candidates@), present@) == Some(u@),
        r is None ==> first_present(views(candidates@), present@) is None,
{
    first_present_socket(candidates, present)
}

/// The places a Docker socket is looked for, in order.
pub open spec fn docker_candidates() -> Seq<Seq<char>> {
    seq!["/var/run/docker.sock"@, "/run/docker.sock"@]
}

/// The places a Docker socket is looked for.
pub fn docker_socket_candidates() -> (r: Vec<String>)
    ensures
        views(r@) == docker_candidates(),
{
    let mut out: Vec<String> = Vec::new();
    out.push(owned("/var/run/docker.sock"));
    out.push(owned("/run/docker.sock"));
    assert(views(out@) =~= docker_candidates());
    out
}

/// The Docker socket: the first of the Docker candidates that `present` marks as
/// existing, as a URL.
pub fn detect_docker_socket(present: &Vec<bool>) -> (r: Option<String>)
    requires
        present@.len() == 2,
    ensures
        r matches Some(u) ==> first_present(docker_candidates(), present@) == Some(u@),
        r is None ==> first_present(docker_candidates(), present@) is None,
{
    let c = docker_socket_candidates();
    first_present_socket(&c, present)
}

/// The socket to connect to: a configured non-empty path, else the Podman socket
/// when Podman is preferred and one was found, else the Docker socket.
pub open spec fn chosen_socket(socket_path: Option<Seq<char>>, use_podman: bool, podman: Option<Seq<char>>, docker: Option<Seq<char>>) -> Option<Seq<char>> {
    if socket_path matches Some(p) && p.len() > 0 {
        Some(socket_url_of(socket_path->0))
    } else if use_podman && podman is Some {
        podman
    } else {
        docker
    }
}

/// Chooses the runtime socket from the configuration and the sockets found.
pub fn resolve_socket(config: &ContainerConfig, podman: Option<String>, docker: Option<String>) -> (r: Result<String, ContainerError>)
    ensures
        match chosen_socket(
            match config.socket_path { Some(p) => Some(p@), None => None },
            config.use_podman,
            match podman { Some(p) => Some(p@), None => None },
            match docker { Some(d) => Some(d@), None => None },
        ) {
            Some(u) => r matches Ok(s) && s@ == u,
            None => r matches Err(ContainerError::NoSocket),
        },
{
    if let Some(path) = &config.socket_path {
        if chars_of(path.as_str()).len() > 0 {
            return Ok(socket_url(path.as_str()));
        }
    }
    if config.use_podman {
        if let Some(p) = podman {
            return Ok(p);
        }
    }
    match docker {
        Some(d) => Ok(d),
        None => Err(ContainerError::NoSocket),
    }
}

// ---------------------------------------------------------------------------
// Allowlist
// ---------------------------------------------------------------------------

/// Whether a container may be managed: every container when the allowlist is
/// empty, else one listed by name or by name with a leading `/`.
pub open spec fn allowed_by(allowed: Seq<Seq<char>>, name: Seq<char>) -> bool {
    allowed.len() == 0 || exists|i: int| 0 <= i < allowed.len() && (#[trigger] allowed[i] == name || allowed[i] == seq!['/'] + name)
}

/// Whether a container may be managed.
pub fn is_allowed(allowed: &Vec<String>, name: &str) -> (r: bool)
    ensures
        r == allowed_by(views(allowed@), name@),
{
    if allowed.len() == 0 {
        return true;
    }
    let slashed = owned("/").concat(name);
    proof { reveal_strlit("/"); }
    let mut i: usize = 0;
    while i < allowed.len()
        invariant
            i <= allowed.len(),
            slashed@ == seq!['/'] + name@,
            forall|j: int| 0 <= j < i ==> !(#[trigger] views(allowed@)[j] == name@ || views(allowed@)[j] == seq!['/'] + name@),
        decreases allowed.len() - i,
    {
        if str_eq(allowed[i].as_str(), name) || str_eq(allowed[i].as_str(), slashed.as_str()) {
            assert(views(allowed@)[i as int] == allowed@[i as int]@);
            return true;
        }
        i = i + 1;
    }
    false
}

/// Checks that a container may be managed: `NotAllowed` with its name otherwise.
pub fn verify_allowed(allowed: &Vec<String>, name: &str) -> (r: Result<(), ContainerError>)
    ensures
        r is Ok <==> allowed_by(views(allowed@), name@),
        r is Err ==> (r matches Err(ContainerError::NotAllowed(n)) && n@ == name@),
{
    if !is_allowed(allowed, name) {
        return Err(ContainerError::NotAllowed(owned(name)));
    }
    Ok(())
}

// ---------------------------------------------------------------------------
// Listing
// ---------------------------------------------------------------------------

/// A port binding as the runtime reports it.
#[derive(Debug)]
pub struct PortEntry {
    /// Host address.
    pub ip: Option<String>,
    /// Port inside the container.
    pub private_port: u16,
    /// Port on the host, when published.
    pub public_port: Option<u16>,
    /// Protocol name.
    pub typ: Option<String>,
}

/// A published port as `ip:host->container/proto`, with `0.0.0.0` and `tcp` for a
/// missing address and protocol; an unpublished port gives nothing.
pub open spec fn port_line(p: PortEntry) -> Option<Seq<char>> {
    match p.public_port {
        Some(hp) => Some(
            (match p.ip { Some(i) => i@, None => "0.0.0.0"@ }) + ":"@ + decimal(hp as nat) + "->"@
                + decimal(p.private_port as nat) + "/"@ + (match p.typ { Some(t) => t@, None => "tcp"@ }),
        ),
        None => None,
    }
}

/// The published ports, in order.
pub open spec fn port_lines(ps: Seq<PortEntry>) -> Seq<Seq<char>>
    decreases ps.len(),
{
    if ps.len() == 0 {
        Seq::empty()
    } else {
        match port_line(ps.last()) {
            Some(l) => port_lines(ps.drop_last()).push(l),
            None => port_lines(ps.drop_last()),
        }
    }
}

fn format_port(p: &PortEntry) -> (r: Option<String>)
    ensures
        match port_line(*p) {
            Some(l) => r matches Some(s) && s@ == l,
            None => r is None,
        },
{
    match p.public_port {
        Some(hp) => {
            let ip = match &p.ip {
                Some(i) => i.clone(),
                None => owned("0.0.0.0"),
            };
            let proto = match &p.typ {
                Some(t) => t.clone(),
                None => owned("tcp"),
            };
            let h = u64_to_string(hp as u64);
            let c = u64_to_string(p.private_port as u64);
            Some(ip.concat(":").concat(h.as_str()).concat("->").concat(c.as_str()).concat("/").concat(proto.as_str()))
        },
        None => None,
    }
}

/// Formats the published ports.
pub fn format_ports(ports: &Vec<PortEntry>) -> (r: Vec<String>)
    ensures
        views(r@) == port_lines(ports@),
{
    let mut out: Vec<String> = Vec::new();
    let mut i: usize = 0;
    while i < ports.len()
        invariant
            i <= ports.len(),
            views(out@) == port_lines(ports@.take(i as int)),
        decreases ports.len() - i,
    {
        assert(ports@.take(i + 1).drop_last() =~= ports@.take(i as int));
        match format_port(&ports[i]) {
            Some(l) => {
                out.push(l);
                assert(views(out@) =~= port_lines(ports@.take(i as int)).push(out@.last()@));
            },
            None => {},
        }
        i = i + 1;
    }
    assert(ports@.take(ports@.len() as int) =~= ports@);
    out
}

/// A container as the runtime lists it.
#[derive(Debug)]
pub struct ContainerSummary {
    pub id: Option<String>,
    pub names: Option<Vec<String>>,
    pub image: Option<String>,
    pub state: Option<String>,
    pub status: Option<String>,
    pub ports: Option<Vec<PortEntry>>,
    pub created: Option<i64>,
}

/// The name of a listed container: its first name without leading `/`, or empty.
pub open spec fn summary_name(names: Option<Seq<String>>) -> Seq<char> {
    match names {
        Some(ns) => if ns.len() > 0 { trim_start_char(ns[0]@, '/') } else { Seq::empty() },
        None => Seq::empty(),
    }
}

/// Whether a listed container's id can be shortened at twelve bytes.
pub open spec fn summary_ok(c: ContainerSummary) -> bool {
    cuttable(match c.id { Some(i) => i@, None => Seq::empty() }, 12)
}

/// The record of a listed container.
pub open spec fn summary_info_ok(c: ContainerSummary, info: ContainerInfo) -> bool {
    &&& info.id@ == byte_prefix(match c.id { Some(i) => i@, None => Seq::empty() }, 12)
    &&& info.name@ == summary_name(match c.names { Some(n) => Some(n@), None => None })
    &&& info.image@ == match c.image { Some(i) => i@, None => Seq::empty() }
    &&& info.status == status_from_lower(lowercase(match c.state { Some(s) => s@, None => Seq::empty() }))
    &&& info.status_message@ == match c.status { Some(s) => s@, None => Seq::empty() }
    &&& views(info.ports@) == port_lines(match c.ports { Some(p) => p@, None => Seq::empty() })
    &&& info.created == match c.created { Some(t) => t, None => 0 }
}

fn opt_text(o: &Option<String>) -> (r: String)
    ensures
        r@ == match o { Some(s) => s@, None => Seq::empty() },
{
    match o {
        Some(s) => s.clone(),
        None => String::new(),
    }
}

fn summary_name_of(names: &Option<Vec<String>>) -> (r: String)
    ensures
        r@ == summary_name(match names { Some(n) => Some(n@), None => None }),
{
    match names {
        Some(ns) => {
            if ns.len() > 0 {
                trim_start_matches_char(ns[0].as_str(), '/')
            } else {
                String::new()
            }
        },
        None => String::new(),
    }
}

/// The record of a listed container: id cut to twelve bytes, first name without
/// leading `/`, status parsed from the state, published ports formatted, and empty
/// text or zero for what the runtime left out.
pub fn container_info(c: &ContainerSummary) -> (r: ContainerInfo)
    requires
        summary_ok(*c),
    ensures
        summary_info_ok(*c, r),
{
    let id = opt_text(&c.id);
    let short = prefix_bytes(id.as_str(), 12);
    let state = opt_text(&c.state);
    let ports = match &c.ports {
        Some(p) => format_ports(p),
        None => {
            let v: Vec<String> = Vec::new();
            assert(views(v@) =~= port_lines(Seq::<PortEntry>::empty()));
            v
        },
    };
    ContainerInfo {
        id: short,
        name: summary_name_of(&c.names),
        image: opt_text(&c.image),
        status: ContainerStatus::from_state(state.as_str()),
        status_message: opt_text(&c.status),
        ports,
        created: match c.created {
            Some(t) => t,
            None => 0,
        },
    }
}

/// The listed containers that may be managed, in order.
pub open spec fn visible(allowed: Seq<Seq<char>>, cs: Seq<ContainerSummary>) -> Seq<ContainerSummary> {
    cs.filter(|c: ContainerSummary| allowed_by(allowed, summary_name(match c.names { Some(n) => Some(n@), None => None })))
}

/// The records of the listed containers that may be managed, in the runtime's order.
pub fn visible_containers(allowed: &Vec<String>, listed: &Vec<ContainerSummary>) -> (r: Vec<ContainerInfo>)
    requires
        forall|i: int| 0 <= i < listed@.len() ==> summary_ok(#[trigger] listed@[i]),
    ensures
        r@.len() == visible(views(allowed@), listed@).len(),
        forall|i: int| 0 <= i < r@.len() ==> summary_info_ok(visible(views(allowed@), listed@)[i], #[trigger] r@[i]),
{
    let ghost al = views(allowed@);
    let mut out: Vec<ContainerInfo> = Vec::new();
    let mut i: usize = 0;
    while i < listed.len()
        invariant
            i <= listed.len(),
            al == views(allowed@),
            forall|j: int| 0 <= j < listed@.len() ==> summary_ok(#[trigger] listed@[j]),
            out@.len() == visible(al, listed@.take(i as int)).len(),
            forall|j: int| 0 <= j < out@.len() ==> summary_info_ok(visible(al, listed@.take(i as int))[j], #[trigger] out@[j]),
        decreases listed.len() - i,
    {
        proof {
            assert(listed@.take(i + 1).drop_last() =~= listed@.take(i as int));
            reveal(Seq::filter);
        }
        let name = summary_name_of(&listed[i].names);
        if is_allowed(allowed, name.as_str()) {
            out.push(container_info(&listed[i]));
        }
        i = i + 1;
    }
    assert(listed@.take(listed@.len() as int) =~= listed@);
    out
}

// ---------------------------------------------------------------------------
// Inspection
// ---------------------------------------------------------------------------

/// Whether an environment entry probably holds a secret: its lower-cased text
/// mentions a password, secret, token, key, auth or credential.
pub open spec fn secret_env(env: Seq<char>) -> bool {
    let l = lowercase(env);
    contains_seq(l, "password"@) || contains_seq(l, "secret"@) || contains_seq(l, "token"@)
        || contains_seq(l, "key"@) || contains_seq(l, "api_key"@) || contains_seq(l, "apikey"@)
        || contains_seq(l, "auth"@) || contains_seq(l, "credential"@)
}

/// Whether an environment entry probably holds a secret.
pub fn is_secret_env(env: &str) -> (r: bool)
    ensures
        r == secret_env(env@),
{
    let lower = to_lowercase(env);
    let l = lower.as_str();
    contains(l, "password") || contains(l, "secret") || contains(l, "token") || contains(l, "key")
        || contains(l, "api_key") || contains(l, "apikey") || contains(l, "auth") || contains(l, "credential")
}

/// An environment entry as shown: a secret one as `NAME=***`, any other unchanged.
pub open spec fn shown_env(env: Seq<char>) -> Seq<char> {
    if secret_env(env) {
        match find_seq(env, "="@) {
            Some(i) => env.take(i) + "=***"@,
            None => env,
        }
    } else {
        env
    }
}

/// An environment entry with a secret value hidden.
pub fn redact_env(env: &str) -> (r: String)
    ensures
        r@ == shown_env(env@),
{
    if !is_secret_env(env) {
        return owned(env);
    }
    let v = chars_of(env);
    let mut eq: Vec<char> = Vec::new();
    eq.push('=');
    proof { reveal_strlit("="); }
    assert(eq@ =~= "="@);
    match find_chars(&v, &eq) {
        Some(i) => {
            let name = slice_chars(&v, 0, i);
            assert(name@ =~= env@.take(i as int));
            string_of(name.as_slice()).concat("=***")
        },
        None => owned(env),
    }
}

/// A port binding of an inspected container as `ip:port -> container_port`, with
/// `0.0.0.0` and `?` for what is missing.
pub fn binding_line(host_ip: Option<&str>, host_port: Option<&str>, container_port: &str) -> (r: String)
    ensures
        r@ == (match host_ip { Some(i) => i@, None => "0.0.0.0"@ }) + ":"@
            + (match host_port { Some(p) => p@, None => "?"@ }) + " -> "@ + container_port@,
{
    let ip = match host_ip {
        Some(i) => owned(i),
        None => owned("0.0.0.0"),
    };
    let port = match host_port {
        Some(p) => owned(p),
        None => owned("?"),
    };
    ip.concat(":").concat(port.as_str()).concat(" -> ").concat(container_port)
}

/// A mount of an inspected container as `source:destination`, with `?` for what is missing.
pub fn mount_line(source: Option<&str>, destination: Option<&str>) -> (r: String)
    ensures
        r@ == (match source { Some(s) => s@, None => "?"@ }) + ":"@ + (match destination { Some(d) => d@, None => "?"@ }),
{
    let s = match source {
        Some(s) => owned(s),
        None => owned("?"),
    };
    let d = match destination {
        Some(d) => owned(d),
        None => owned("?"),
    };
    s.concat(":").concat(d.as_str())
}

/// The command of an inspected container: its words joined by spaces.
pub fn command_line(cmd: &Vec<String>) -> (r: String)
    ensures
        r@ == join_seq(views(cmd@), " "@),
{
    join(cmd, " ")
}

/// The name of an inspected container without its leading `/`.
pub fn inspected_name(name: Option<&str>) -> (r: String)
    ensures
        r@ == trim_start_char(match name { Some(n) => n@, None => Seq::empty() }, '/'),
{
    match name {
        Some(n) => trim_start_matches_char(n, '/'),
        None => String::new(),
    }
}

// ---------------------------------------------------------------------------
// Laws
// ---------------------------------------------------------------------------

/// A container listed in the allowlist, by name or with a leading `/`, may be managed.
pub proof fn law_listed_container_allowed(allowed: Seq<Seq<char>>, name: Seq<char>, i: int)
    requires
        0 <= i < allowed.len(),
        allowed[i] == name || allowed[i] == seq!['/'] + name,
    ensures
        allowed_by(allowed, name),
{
}

/// A secret environment entry with a value is shown with its value masked.
pub proof fn law_secret_value_masked(env: Seq<char>)
    requires
        secret_env(env),
        contains_seq(env, "="@),
    ensures
        crate::text::ends_with_seq(shown_env(env), "=***"@),
{
    let i = find_seq(env, "="@)->0;
    let s = shown_env(env);
    assert(s =~= env.take(i) + "=***"@);
    reveal_strlit("=***");
    assert(s.skip(s.len() - 4) =~= "=***"@);
}

/// The server module: its configuration, whether a container manager was made,
/// and the message of the last failure to make one.
pub struct ServerModule {
    config: ContainerConfig,
    connected: bool,
    last_error: Option<String>,
}

impl ServerModule {
    /// Whether a manager was made.
    pub closed spec fn connected_now(&self) -> bool {
        self.connected
    }

    /// The message of the last failure.
    pub closed spec fn error_of(&self) -> Option<Seq<char>> {
        match self.last_error {
            Some(e) => Some(e@),
            None => None,
        }
    }

    /// The configuration.
    pub closed spec fn config_of(&self) -> ContainerConfig {
        self.config
    }

    /// A module that has not connected yet.
    pub fn new(config: ContainerConfig) -> (r: ServerModule)
        ensures
            !r.connected_now(),
            r.error_of() is None,
            r.config_of() == config,
    {
        ServerModule { config, connected: false, last_error: None }
    }

    /// Records how making the manager went: success connects and clears the last
    /// error; failure keeps the connection as it was and remembers the message.
    pub fn record_init(&mut self, outcome: &Result<(), ContainerError>)
        ensures
            final(self).config_of() == old(self).config_of(),
            match outcome {
                Ok(_) => final(self).connected_now() && final(self).error_of() is None,
                Err(e) => final(self).connected_now() == old(self).connected_now()
                    && (final(self).error_of() matches Some(m) && e.message_ensures(m)),
            },
    {
        match outcome {
            Ok(_) => {
                self.connected = true;
                self.last_error = None;
            },
            Err(e) => {
                self.last_error = Some(e.message());
            },
        }
    }

    /// The message of the last failure to connect.
    pub fn last_error(&self) -> (r: Option<&str>)
        ensures
            match r {
                Some(m) => self.error_of() == Some(m@),
                None => self.error_of() is None,
            },
    {
        match &self.last_error {
            Some(e) => Some(e.as_str()),
            None => None,
        }
    }

    /// Whether a manager was made.
    pub fn is_connected(&self) -> (r: bool)
        ensures
            r == self.connected_now(),
    {
        self.connected
    }

    /// The configuration.
    pub fn config(&self) -> (r: &ContainerConfig)
        ensures
            *r == self.config_of(),
    {
        &self.config
    }
}

} // verus!
