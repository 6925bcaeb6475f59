use dns_fallback::backend::build_backend;
use dns_fallback::backend::new_resolver;
use dns_fallback::backend::new_resolver_system;
use dns_fallback::backend::system_backend;
use dns_fallback::backend::BackendRole;
use dns_fallback::backend::IpPreference;
use dns_fallback::error::ResolutionError;
use hickory_resolver::config::LookupIpStrategy;
use hickory_resolver::config::ResolverConfig;
use hickory_resolver::config::ResolverOpts;
use hickory_resolver::proto::xfer::Protocol;
use hickory_resolver::system_conf::parse_resolv_conf;
use hickory_resolver::ResolveError;

#[test]
fn primary_backend_is_built_on_secure_servers() {
    let backend = new_resolver().unwrap();
    assert_eq!(backend.role(), BackendRole::Primary);
    assert_eq!(backend.ip_preference(), IpPreference::Ipv4ThenIpv6);
    assert_eq!(
        backend.handle().resolver.options().ip_strategy,
        LookupIpStrategy::Ipv4thenIpv6
    );
    let servers = backend.handle().resolver.config().name_servers();
    assert!(!servers.is_empty());
    assert!(servers.iter().all(|s| s.protocol == Protocol::Tls));
    assert!(servers.iter().all(|s| s.socket_addr.port() == 853));
    assert!(servers.iter().all(|s| s.tls_dns_name.as_deref() == Some("dns.google")));
    let addresses: Vec<String> = servers.iter().map(|s| s.socket_addr.ip().to_string()).collect();
    assert_eq!(
        addresses,
        vec!["8.8.8.8", "8.8.4.4", "2001:4860:4860::8888", "2001:4860:4860::8844"]
    );
}

#[test]
fn build_backend_overrides_the_address_family_preference() {
    let mut options = ResolverOpts::default();
    options.ip_strategy = LookupIpStrategy::Ipv6Only;
    options.attempts = 7;
    let backend = build_backend(BackendRole::Fallback, ResolverConfig::google(), options);
    assert_eq!(backend.role(), BackendRole::Fallback);
    assert_eq!(backend.ip_preference(), IpPreference::Ipv4ThenIpv6);
    assert_eq!(
        backend.handle().resolver.options().ip_strategy,
        LookupIpStrategy::Ipv4thenIpv6
    );
    let resolver = &backend.handle().resolver;
    assert_eq!(resolver.options().ip_strategy, LookupIpStrategy::Ipv4thenIpv6);
    assert_eq!(resolver.options().attempts, 7);
    assert!(resolver.config().name_servers().iter().all(|s| s.socket_addr.port() == 53));
}

#[test]
fn system_backend_is_built_on_the_configuration_that_was_read() {
    let conf = parse_resolv_conf("nameserver 192.0.2.53\noptions attempts:4\n");
    let backend = system_backend(conf).unwrap();
    assert_eq!(backend.role(), BackendRole::Fallback);
    assert_eq!(backend.ip_preference(), IpPreference::Ipv4ThenIpv6);
    assert_eq!(
        backend.handle().resolver.options().ip_strategy,
        LookupIpStrategy::Ipv4thenIpv6
    );
    let resolver = &backend.handle().resolver;
    assert_eq!(resolver.options().attempts, 4);
    let servers = resolver.config().name_servers();
    assert!(!servers.is_empty());
    assert!(servers.iter().all(|s| s.socket_addr.ip().to_string() == "192.0.2.53"));
}

#[test]
fn system_backend_turns_an_unread_configuration_into_a_config_error() {
    let error = match system_backend(Err(ResolveError::from("no nameservers found in config"))) {
        Ok(_) => panic!("a backend was built"),
        Err(e) => e,
    };
    assert!(matches!(error, ResolutionError::ConfigError(_)));
    assert_eq!(error.message(), "error reading DNS system conf for hickory-dns");
    assert_eq!(error.source().to_string(), "no nameservers found in config");
}

#[test]
fn system_backend_rejects_a_configuration_without_servers() {
    let conf = parse_resolv_conf("options attempts:4\n");
    assert!(conf.is_err());
    let error = match system_backend(conf) {
        Ok(_) => panic!("a backend was built"),
        Err(e) => e,
    };
    assert!(error.is_config_error());
}

#[test]
fn fallback_backend_is_for_its_role_or_a_config_error() {
    match new_resolver_system() {
        Ok(backend) => {
            assert_eq!(backend.role(), BackendRole::Fallback);
            assert_eq!(backend.ip_preference(), IpPreference::Ipv4ThenIpv6);
            assert_eq!(
        backend.handle().resolver.options().ip_strategy,
        LookupIpStrategy::Ipv4thenIpv6
    );
        }
        Err(error) => {
            assert!(error.is_config_error());
            assert_eq!(error.message(), "error reading DNS system conf for hickory-dns");
        }
    }
}
