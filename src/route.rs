//! Route primitives: the command each operation runs on each platform, and
//! what a finished command's outcome means.
use vstd::prelude::*;
use vstd::string::StringExecFns;

verus! {

/// The two supported routing-command dialects.
#[derive(Clone, Copy, Debug, PartialEq, Eq, Structural)]
pub enum Platform {
    /// `route` with `del` and `gw`, `ip` for queries.
    Linux,
    /// BSD-style `route` with `delete`, `route get` for queries.
    Macos,
}

/// Whether a route's target is a network prefix or a single host.
#[derive(Clone, Copy, Debug, PartialEq, Eq, Structural)]
pub enum RouteType {
    Net,
    Host,
}

/// Errors reported by the route primitives and the gateway override.
#[derive(Debug)]
pub enum NetError {
    /// An external command exited unsuccessfully; carries what it reported.
    Command(String),
    /// A query could not be turned into the expected value.
    Query(String),
    /// An HTTP-based query failed.
    Network(String),
    /// The operating system has no known command dialect.
    UnsupportedPlatform,
}

/// What a finished external command reported.
pub struct CommandOutcome {
    /// The command exited with a zero status.
    pub success: bool,
    pub stdout: String,
    /// Standard error, or a description of the exit status.
    pub stderr: String,
}

/// The dialect for an operating-system name, as `std::env::consts::OS` spells it.
pub open spec fn platform_of(os: Seq<char>) -> Result<Platform, NetError> {
    if os == "linux"@ {
        Ok(Platform::Linux)
    } else if os == "macos"@ {
        Ok(Platform::Macos)
    } else {
        Err(NetError::UnsupportedPlatform)
    }
}

impl Platform {
    /// Picks the dialect for an operating-system name; any name but `linux`
    /// and `macos` is unsupported.
    pub fn from_os(os: &str) -> (r: Result<Platform, NetError>)
        ensures
            r == platform_of(os@),
    {
        let name = String::from_str(os);
        if name == String::from_str("linux") {
            Ok(Platform::Linux)
        } else if name == String::from_str("macos") {
            Ok(Platform::Macos)
        } else {
            Err(NetError::UnsupportedPlatform)
        }
    }
}

/// The `route` flag that selects a route's kind.
pub open spec fn mode_flag(kind: RouteType) -> Seq<char> {
    match kind {
        RouteType::Net => "-net"@,
        RouteType::Host => "-host"@,
    }
}

/// The command that adds a route of `kind` for `target` via `gateway`.
pub open spec fn add_route_argv(
    p: Platform,
    kind: RouteType,
    target: Seq<char>,
    gateway: Seq<char>,
) -> Seq<Seq<char>> {
    match p {
        Platform::Linux => seq!["route"@, "-n"@, "add"@, mode_flag(kind), target, "gw"@, gateway],
        Platform::Macos => seq!["route"@, "-n"@, "add"@, mode_flag(kind), target, gateway],
    }
}

/// The command that deletes the route of `kind` for `target`.
pub open spec fn delete_route_argv(p: Platform, kind: RouteType, target: Seq<char>) -> Seq<
    Seq<char>,
> {
    match p {
        Platform::Linux => seq!["route"@, "-n"@, "del"@, mode_flag(kind), target],
        Platform::Macos => seq!["route"@, "-n"@, "delete"@, mode_flag(kind), target],
    }
}

/// Every add command of one platform and kind follows one template: two of
/// them have the same length and differ at most at the target position and at
/// the last position, which hold their own target and gateway.
pub proof fn lemma_add_route_template(
    p: Platform,
    kind: RouteType,
    target1: Seq<char>,
    gateway1: Seq<char>,
    target2: Seq<char>,
    gateway2: Seq<char>,
)
    ensures
        ({
            let a = add_route_argv(p, kind, target1, gateway1);
            let b = add_route_argv(p, kind, target2, gateway2);
            &&& a.len() == b.len()
            &&& a[4] == target1 && b[4] == target2
            &&& a.last() == gateway1 && b.last() == gateway2
            &&& forall|i: int| 0 <= i < a.len() && i != 4 && i != a.len() - 1 ==> a[i] == b[i]
        }),
{
}

/// Every delete command of one platform and kind follows one template: two of
/// them have the same length and differ at most at the target position.
pub proof fn lemma_delete_route_template(
    p: Platform,
    kind: RouteType,
    target1: Seq<char>,
    target2: Seq<char>,
)
    ensures
        ({
            let a = delete_route_argv(p, kind, target1);
            let b = delete_route_argv(p, kind, target2);
            &&& a.len() == b.len() == 5
            &&& a[4] == target1 && b[4] == target2
            &&& forall|i: int| 0 <= i < 4 ==> a[i] == b[i]
        }),
{
}

/// The routing-table name of the default route.
pub open spec fn default_target() -> Seq<char> {
    "default"@
}

fn mode(kind: RouteType) -> (r: String)
    ensures
        r@ == mode_flag(kind),
{
    match kind {
        RouteType::Net => String::from_str("-net"),
        RouteType::Host => String::from_str("-host"),
    }
}

/// The command that adds a route of `route_type` for `route` via `gateway`.
pub fn add_route(platform: Platform, route_type: RouteType, route: &str, gateway: &str) -> (r: Vec<
    String,
>)
    ensures
        r.deep_view() == add_route_argv(platform, route_type, route@, gateway@),
{
    let mut v: Vec<String> = Vec::new();
    v.push(String::from_str("route"));
    v.push(String::from_str("-n"));
    v.push(String::from_str("add"));
    v.push(mode(route_type));
    v.push(String::from_str(route));
    if platform == Platform::Linux {
        v.push(String::from_str("gw"));
    }
    v.push(String::from_str(gateway));
    assert(v.deep_view() =~= add_route_argv(platform, route_type, route@, gateway@));
    v
}

/// The command that deletes the route of `route_type` for `route`.
pub fn delete_route(platform: Platform, route_type: RouteType, route: &str) -> (r: Vec<String>)
    ensures
        r.deep_view() == delete_route_argv(platform, route_type, route@),
{
    let mut v: Vec<String> = Vec::new();
    v.push(String::from_str("route"));
    v.push(String::from_str("-n"));
    match platform {
        Platform::Linux => v.push(String::from_str("del")),
        Platform::Macos => v.push(String::from_str("delete")),
    }
    v.push(mode(route_type));
    v.push(String::from_str(route));
    assert(v.deep_view() =~= delete_route_argv(platform, route_type, route@));
    v
}

/// The command that makes `gateway` the default gateway.
pub fn set_default_gateway(platform: Platform, gateway: &str) -> (r: Vec<String>)
    ensures
        r.deep_view() == add_route_argv(platform, RouteType::Net, default_target(), gateway@),
{
    add_route(platform, RouteType::Net, "default", gateway)
}

/// The command that removes the default gateway.
pub fn delete_default_gateway(platform: Platform) -> (r: Vec<String>)
    ensures
        r.deep_view() == delete_route_argv(platform, RouteType::Net, default_target()),
{
    delete_route(platform, RouteType::Net, "default")
}

/// The shell command that prints the current default gateway.
pub open spec fn default_gateway_query(p: Platform) -> Seq<char> {
    match p {
        Platform::Linux => "ip -4 route list 0/0 | awk '{print $3}'"@,
        Platform::Macos => "route -n get default | grep gateway | awk '{print $2}'"@,
    }
}

/// The command that prints the current default gateway.
pub fn get_default_gateway(platform: Platform) -> (r: Vec<String>)
    ensures
        r.deep_view() == seq!["bash"@, "-c"@, default_gateway_query(platform)],
{
    let mut v: Vec<String> = Vec::new();
    v.push(String::from_str("bash"));
    v.push(String::from_str("-c"));
    match platform {
        Platform::Linux => v.push(String::from_str("ip -4 route list 0/0 | awk '{print $3}'")),
        Platform::Macos => v.push(
            String::from_str("route -n get default | grep gateway | awk '{print $2}'"),
        ),
    }
    assert(v.deep_view() =~= seq!["bash"@, "-c"@, default_gateway_query(platform)]);
    v
}

/// The command that lists the routes for `route` (Linux dialect).
pub fn get_route_gateway(route: &str) -> (r: Vec<String>)
    ensures
        r.deep_view() == seq!["bash"@, "-c"@, "ip -4 route list "@ + route@],
{
    let mut v: Vec<String> = Vec::new();
    v.push(String::from_str("bash"));
    v.push(String::from_str("-c"));
    v.push(String::from_str("ip -4 route list ").concat(route));
    assert(v.deep_view() =~= seq!["bash"@, "-c"@, "ip -4 route list "@ + route@]);
    v
}

/// Reads a route listing from its command's outcome, without trailing
/// whitespace.
pub fn route_listing(outcome: &CommandOutcome) -> (r: Result<String, NetError>)
    ensures
        outcome.success ==> text_view(r) == Ok::<Seq<char>, NetError>(trim_end_of(outcome.stdout@)),
        !outcome.success ==> r == Err::<String, NetError>(NetError::Query(outcome.stderr)),
{
    if outcome.success {
        Ok(trim_end(outcome.stdout.as_str()))
    } else {
        Err(NetError::Query(outcome.stderr.clone()))
    }
}

/// The kernel parameter assignment that turns on IPv4 forwarding.
pub open spec fn forwarding_setting(p: Platform) -> Seq<char> {
    match p {
        Platform::Linux => "net.ipv4.ip_forward=1"@,
        Platform::Macos => "net.inet.ip.forwarding=1"@,
    }
}

/// The command that enables IPv4 forwarding.
pub fn enable_ipv4_forwarding(platform: Platform) -> (r: Vec<String>)
    ensures
        r.deep_view() == seq!["sysctl"@, "-w"@, forwarding_setting(platform)],
{
    let mut v: Vec<String> = Vec::new();
    v.push(String::from_str("sysctl"));
    v.push(String::from_str("-w"));
    match platform {
        Platform::Linux => v.push(String::from_str("net.ipv4.ip_forward=1")),
        Platform::Macos => v.push(String::from_str("net.inet.ip.forwarding=1")),
    }
    assert(v.deep_view() =~= seq!["sysctl"@, "-w"@, forwarding_setting(platform)]);
    v
}

/// The resolver configuration that names `dns` as the only name server; it
/// replaces the whole resolver file.
pub fn set_dns(dns: &str) -> (r: String)
    ensures
        r@ == "nameserver "@ + dns@ + "\n"@,
{
    String::from_str("nameserver ").concat(dns).concat("\n")
}

/// The command that flushes the resolver cache, through `sudo`.
pub fn flush_dns() -> (r: Vec<String>)
    ensures
        r.deep_view() == seq!["bash"@, "-c"@, "sudo systemd-resolve --flush-caches"@],
{
    let mut v: Vec<String> = Vec::new();
    v.push(String::from_str("bash"));
    v.push(String::from_str("-c"));
    v.push(String::from_str("sudo systemd-resolve --flush-caches"));
    assert(v.deep_view() =~= seq!["bash"@, "-c"@, "sudo systemd-resolve --flush-caches"@]);
    v
}

/// The command that asks an IP-echo service for this host's public address.
pub fn get_public_ip() -> (r: Vec<String>)
    ensures
        r.deep_view() == seq!["curl"@, "ipecho.net/plain"@],
{
    let mut v: Vec<String> = Vec::new();
    v.push(String::from_str("curl"));
    v.push(String::from_str("ipecho.net/plain"));
    assert(v.deep_view() =~= seq!["curl"@, "ipecho.net/plain"@]);
    v
}

/// What `str::trim_end` returns for a text.
pub uninterp spec fn trim_end_of(s: Seq<char>) -> Seq<char>;

/// Relies on `str::trim_end`: the text with trailing whitespace removed,
/// which depends on the characters alone.
#[verifier::external_body]
fn trim_end(s: &str) -> (r: String)
    ensures
        r@ == trim_end_of(s@),
{
    s.trim_end().to_string()
}

/// A text result seen through its view.
pub open spec fn text_view(r: Result<String, NetError>) -> Result<Seq<char>, NetError> {
    match r {
        Ok(s) => Ok(s@),
        Err(e) => Err(e),
    }
}

/// The default gateway read from a query's trimmed output: the query must
/// have succeeded and printed something.
pub open spec fn gateway_reading(success: bool, trimmed: Seq<char>, stderr: String) -> Result<
    Seq<char>,
    NetError,
> {
    if success && trimmed.len() > 0 {
        Ok(trimmed)
    } else {
        Err(NetError::Query(stderr))
    }
}

/// Reads the default gateway from a query's outcome whose output has
/// already had trailing whitespace removed.
pub fn gateway_from_trimmed(success: bool, trimmed: String, stderr: &String) -> (r: Result<
    String,
    NetError,
>)
    ensures
        text_view(r) == gateway_reading(success, trimmed@, *stderr),
{
    if success && trimmed.unicode_len() > 0 {
        Ok(trimmed)
    } else {
        Err(NetError::Query(stderr.clone()))
    }
}

/// Reads the default gateway from the outcome of the default-gateway query.
pub fn parse_default_gateway(outcome: &CommandOutcome) -> (r: Result<String, NetError>)
    ensures
        text_view(r) == gateway_reading(
            outcome.success,
            trim_end_of(outcome.stdout@),
            outcome.stderr,
        ),
{
    let trimmed = trim_end(outcome.stdout.as_str());
    gateway_from_trimmed(outcome.success, trimmed, &outcome.stderr)
}

/// Interprets the outcome of a route or forwarding command.
pub fn command_status(outcome: &CommandOutcome) -> (r: Result<(), NetError>)
    ensures
        r is Ok <==> outcome.success,
        r is Err ==> r->Err_0 == NetError::Command(outcome.stderr),
{
    if outcome.success {
        Ok(())
    } else {
        Err(NetError::Command(outcome.stderr.clone()))
    }
}

/// Interprets the outcome of a resolver command: its output on success.
pub fn command_output(outcome: &CommandOutcome) -> (r: Result<String, NetError>)
    ensures
        outcome.success ==> r == Ok::<String, NetError>(outcome.stdout),
        !outcome.success ==> r == Err::<String, NetError>(NetError::Command(outcome.stderr)),
{
    if outcome.success {
        Ok(outcome.stdout.clone())
    } else {
        Err(NetError::Command(outcome.stderr.clone()))
    }
}

/// Interprets the outcome of the public-address request: its output on success.
pub fn public_ip_output(outcome: &CommandOutcome) -> (r: Result<String, NetError>)
    ensures
        outcome.success ==> r == Ok::<String, NetError>(outcome.stdout),
        !outcome.success ==> r == Err::<String, NetError>(NetError::Network(outcome.stderr)),
{
    if outcome.success {
        Ok(outcome.stdout.clone())
    } else {
        Err(NetError::Network(outcome.stderr.clone()))
    }
}

/// A routing-table change, over plain values.
pub enum RouteChange {
    Add { kind: RouteType, target: Seq<char>, gateway: Seq<char> },
    Delete { kind: RouteType, target: Seq<char> },
}

/// The command that performs a change.
pub open spec fn change_argv(p: Platform, c: RouteChange) -> Seq<Seq<char>> {
    match c {
        RouteChange::Add { kind, target, gateway } => add_route_argv(p, kind, target, gateway),
        RouteChange::Delete { kind, target } => delete_route_argv(p, kind, target),
    }
}

/// A routing-table change that a session performs.
#[derive(Debug)]
pub enum RouteOp {
    Add { kind: RouteType, target: String, gateway: String },
    Delete { kind: RouteType, target: String },
}

impl View for RouteOp {
    type V = RouteChange;

    open spec fn view(&self) -> RouteChange {
        match self {
            RouteOp::Add { kind, target, gateway } => RouteChange::Add {
                kind: *kind,
                target: target@,
                gateway: gateway@,
            },
            RouteOp::Delete { kind, target } => RouteChange::Delete { kind: *kind, target: target@ },
        }
    }
}

impl RouteOp {
    /// The command that performs this change on `platform`.
    pub fn command(&self, platform: Platform) -> (r: Vec<String>)
        ensures
            r.deep_view() == change_argv(platform, self@),
    {
        match self {
            RouteOp::Add { kind, target, gateway } => add_route(
                platform,
                *kind,
                target.as_str(),
                gateway.as_str(),
            ),
            RouteOp::Delete { kind, target } => delete_route(platform, *kind, target.as_str()),
        }
    }
}

} // verus!
