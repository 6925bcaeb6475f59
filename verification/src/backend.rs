//! Resolver backends: the secure primary one, bound to fixed name servers, and
//! the fallback one, bound to the resolvers the operating system is set up with.

use crate::addr::IpAddress;
use crate::error::ResolutionError;
use hickory_resolver::config::LookupIpStrategy;
use hickory_resolver::config::ResolverConfig;
use hickory_resolver::config::ResolverOpts;
use hickory_resolver::name_server::TokioConnectionProvider;
use hickory_resolver::ResolveError;
use hickory_resolver::TokioResolver;
use vstd::prelude::*;

verus! {

/// Which of a facade's two backends is meant.
#[derive(Clone, Copy, Debug, PartialEq, Eq, Structural)]
pub enum BackendRole {
    /// The preferred backend, on encrypted transport.
    Primary,
    /// The backend used only after the primary has failed.
    Fallback,
}

/// The order in which a backend asks for IPv4 and IPv6 addresses.
#[derive(Clone, Copy, Debug, PartialEq, Eq, Structural)]
pub enum IpPreference {
    Ipv4Only,
    Ipv6Only,
    Ipv4AndIpv6,
    Ipv6ThenIpv4,
    Ipv4ThenIpv6,
}

/// The preference every backend is built with, so that the client above can
/// race connections over both address families.
pub open spec fn dual_stack_preference() -> IpPreference {
    IpPreference::Ipv4ThenIpv6
}

/// The engine's name server configuration, carried through as an opaque value.
#[verifier::external_type_specification]
#[verifier::external_body]
pub struct ExResolverConfig(ResolverConfig);

/// The engine's lookup options, carried through as an opaque value.
#[verifier::external_type_specification]
#[verifier::external_body]
pub struct ExResolverOpts(ResolverOpts);

/// The engine's resolver. Nothing is known of what is inside; lookups are
/// issued on `resolver` by the caller that can await them.
#[verifier::external_body]
#[derive(Debug)]
pub struct Handle {
    pub resolver: TokioResolver,
}

/// How a name server is reached.
pub enum Transport {
    Udp,
    Tcp,
    Tls,
}

/// One name server of a configuration, as a mathematical value.
pub struct NameServer {
    pub ip: IpAddress,
    pub port: u16,
    pub transport: Transport,
    /// The name that the server's certificate has to carry, on TLS.
    pub tls_name: Option<Seq<char>>,
}

/// The name servers and search domains that a resolver was built on: what
/// `Resolver::config` reads back from it.
pub uninterp spec fn engine_config(handle: Handle) -> ResolverConfig;

/// The options that a resolver was built with: what `Resolver::options` reads
/// back from it.
pub uninterp spec fn engine_options(handle: Handle) -> ResolverOpts;

/// `options` with `preference` in its `ip_strategy` field, and every other
/// field as it was.
pub uninterp spec fn with_preference(options: ResolverOpts, preference: IpPreference) -> ResolverOpts;

/// The `ip_strategy` field of `options`.
pub uninterp spec fn options_preference(options: ResolverOpts) -> IpPreference;

/// The name servers of a configuration, in the order in which it lists them.
pub uninterp spec fn config_servers(config: ResolverConfig) -> Seq<NameServer>;

/// Google's public name server at `ip`, reached over TLS.
pub open spec fn google_tls_server(ip: IpAddress) -> NameServer {
    NameServer { ip, port: 853, transport: Transport::Tls, tls_name: Some("dns.google"@) }
}

/// Google's public name servers, reached over TLS: the servers of the primary
/// backend.
pub open spec fn google_tls_servers() -> Seq<NameServer> {
    seq![
        google_tls_server(IpAddress::V4(0x0808_0808)),
        google_tls_server(IpAddress::V4(0x0808_0404)),
        google_tls_server(IpAddress::V6(0x2001_4860_4860_0000_0000_0000_0000_8888)),
        google_tls_server(IpAddress::V6(0x2001_4860_4860_0000_0000_0000_0000_8844)),
    ]
}

/// A constructed backend: the engine's resolver, and the role it was built
/// for.
#[derive(Debug)]
pub struct Backend {
    role: BackendRole,
    handle: Handle,
}

impl Backend {
    /// The role this backend was built for.
    pub closed spec fn spec_role(&self) -> BackendRole {
        self.role
    }

    /// The address family preference of the engine's resolver inside.
    pub open spec fn spec_ip_preference(&self) -> IpPreference {
        options_preference(engine_options(*self.handle()))
    }

    /// The engine's resolver inside this backend.
    pub closed spec fn spec_handle(&self) -> &Handle {
        &self.handle
    }

    /// The role this backend was built for.
    #[verifier::when_used_as_spec(spec_role)]
    pub fn role(&self) -> (r: BackendRole)
        ensures
            r == self.role(),
    {
        self.role
    }

    /// The address family preference of the engine's resolver inside.
    #[verifier::when_used_as_spec(spec_ip_preference)]
    pub fn ip_preference(&self) -> (p: IpPreference)
        ensures
            p == self.ip_preference(),
    {
        engine_ip_strategy(&self.handle)
    }

    /// The engine's resolver, on which lookups are issued.
    #[verifier::when_used_as_spec(spec_handle)]
    pub fn handle(&self) -> (h: &Handle)
        ensures
            h == self.handle(),
    {
        &self.handle
    }
}

/// `ResolverConfig::google_tls`: a configuration whose name servers are
/// Google's four public addresses, on port 853, over TLS, under the
/// certificate name `dns.google`.
#[verifier::external_body]
fn google_tls_config() -> (config: ResolverConfig)
    ensures
        config_servers(config) == google_tls_servers(),
{
    ResolverConfig::google_tls()
}

/// `ResolverOpts::default`: the engine's default options. Nothing is claimed
/// of the value.
#[verifier::external_body]
fn default_options() -> ResolverOpts {
    ResolverOpts::default()
}

/// Stores `preference` in the `ip_strategy` field of `options`, and leaves
/// every other field as it is.
#[verifier::external_body]
fn with_ip_strategy(options: ResolverOpts, preference: IpPreference) -> (r: ResolverOpts)
    ensures
        r == with_preference(options, preference),
        options_preference(r) == preference,
{
    let mut options = options;
    options.ip_strategy = match preference {
        IpPreference::Ipv4Only => LookupIpStrategy::Ipv4Only,
        IpPreference::Ipv6Only => LookupIpStrategy::Ipv6Only,
        IpPreference::Ipv4AndIpv6 => LookupIpStrategy::Ipv4AndIpv6,
        IpPreference::Ipv6ThenIpv4 => LookupIpStrategy::Ipv6thenIpv4,
        IpPreference::Ipv4ThenIpv6 => LookupIpStrategy::Ipv4thenIpv6,
    };
    options
}

/// `Resolver::builder_with_config`, `ResolverBuilder::with_options` and
/// `ResolverBuilder::build`, on the Tokio connection provider: a resolver for
/// the given name servers and options. Building may read the system's hosts
/// file; it sends nothing over the network and does not fail. The resolver
/// keeps the configuration and the options as they were given, and
/// `Resolver::config` and `Resolver::options` read them back.
#[verifier::external_body]
fn build_resolver(config: ResolverConfig, options: ResolverOpts) -> (h: Handle)
    ensures
        engine_config(h) == config,
        engine_options(h) == options,
{
    let provider = TokioConnectionProvider::default();
    Handle { resolver: TokioResolver::builder_with_config(config, provider).with_options(options).build() }
}

/// `Resolver::options`, and the `ip_strategy` field of what it gives: the
/// address family preference of a built resolver.
#[verifier::external_body]
fn engine_ip_strategy(handle: &Handle) -> (p: IpPreference)
    ensures
        p == options_preference(engine_options(*handle)),
{
    match handle.resolver.options().ip_strategy {
        LookupIpStrategy::Ipv4Only => IpPreference::Ipv4Only,
        LookupIpStrategy::Ipv6Only => IpPreference::Ipv6Only,
        LookupIpStrategy::Ipv4AndIpv6 => IpPreference::Ipv4AndIpv6,
        LookupIpStrategy::Ipv6thenIpv4 => IpPreference::Ipv6ThenIpv4,
        LookupIpStrategy::Ipv4thenIpv6 => IpPreference::Ipv4ThenIpv6,
    }
}

/// `system_conf::read_system_conf`: the name servers and options that the
/// operating system is set up with, or the engine's error where they cannot
/// be read or parsed. The result depends on the machine, so nothing is
/// claimed of it.
#[verifier::external_body]
fn read_system_conf() -> Result<(ResolverConfig, ResolverOpts), ResolveError> {
    hickory_resolver::system_conf::read_system_conf()
}

/// Whether `backend` is the backend for `role` built on `config` and on
/// `options`: its engine's resolver has `config` unchanged, and `options`
/// in every field but the address family preference, which is IPv4 first,
/// then IPv6.
pub open spec fn built_on(
    backend: Backend,
    role: BackendRole,
    config: ResolverConfig,
    options: ResolverOpts,
) -> bool {
    &&& backend.role() == role
    &&& engine_config(*backend.handle()) == config
    &&& engine_options(*backend.handle()) == with_preference(options, dual_stack_preference())
    &&& backend.ip_preference() == dual_stack_preference()
}

/// Builds the backend for `role` on the given name servers and options, with
/// the address family preference overridden to IPv4 first, then IPv6.
pub fn build_backend(role: BackendRole, config: ResolverConfig, options: ResolverOpts) -> (b:
    Backend)
    ensures
        built_on(b, role, config, options),
{
    let options = with_ip_strategy(options, IpPreference::Ipv4ThenIpv6);
    Backend { role, handle: build_resolver(config, options) }
}

/// Builds the primary backend: Google's name servers over TLS, the engine's
/// default options, and the preference for IPv4 first, then IPv6. Its
/// construction never fails.
pub fn new_resolver() -> (r: Result<Backend, ResolutionError>)
    ensures
        r is Ok,
        r->Ok_0.role() == BackendRole::Primary,
        config_servers(engine_config(*r->Ok_0.handle())) == google_tls_servers(),
        r->Ok_0.ip_preference() == dual_stack_preference(),
{
    Ok(build_backend(BackendRole::Primary, google_tls_config(), default_options()))
}

/// Builds the fallback backend from what reading the system's resolver
/// configuration gave: a backend on the configuration and options that were
/// read, with only the address family preference overridden, or a
/// `ConfigError` with the engine's error where they were not read.
pub fn system_backend(conf: Result<(ResolverConfig, ResolverOpts), ResolveError>) -> (r: Result<
    Backend,
    ResolutionError,
>)
    ensures
        conf is Ok ==> r is Ok && built_on(
            r->Ok_0,
            BackendRole::Fallback,
            conf->Ok_0.0,
            conf->Ok_0.1,
        ),
        conf is Err ==> r == Err::<Backend, ResolutionError>(
            ResolutionError::ConfigError(conf->Err_0),
        ),
{
    match conf {
        Ok((config, options)) => Ok(build_backend(BackendRole::Fallback, config, options)),
        Err(e) => Err(ResolutionError::ConfigError(e)),
    }
}

/// Builds the fallback backend: reads the system's resolver configuration, and
/// builds on it. Whether the configuration can be read is the machine's
/// affair; a failure is always a `ConfigError`.
pub fn new_resolver_system() -> (r: Result<Backend, ResolutionError>)
    ensures
        r is Ok ==> r->Ok_0.role() == BackendRole::Fallback && r->Ok_0.ip_preference()
            == dual_stack_preference(),
        r is Err ==> r->Err_0 is ConfigError,
{
    system_backend(read_system_conf())
}

} // verus!
