use foxbox::tls_config::{
    TlsError, TlsSniConfig, CIPHER_LIST, SSL_TLSEXT_ERR_NOACK, SSL_TLSEXT_ERR_OK,
};

#[test]
fn empty_directory_has_no_context() {
    let config: TlsSniConfig<u32> = TlsSniConfig::new();
    assert_eq!(config.len(), 0);
    assert_eq!(config.context(), Err(TlsError::NoCertificate));
    assert!(!config.is_initialized());
}

#[test]
fn init_needs_a_certificate_and_is_done_once() {
    let mut config: TlsSniConfig<u32> = TlsSniConfig::new();
    assert_eq!(config.init_ssl_context(), Err(TlsError::NoCertificate));
    assert!(!config.is_initialized());
    assert_eq!(config.add_ssl_cert("foxbox.local".to_owned(), 1), Ok(()));
    assert_eq!(config.init_ssl_context(), Ok(()));
    assert!(config.is_initialized());
    assert_eq!(config.init_ssl_context(), Err(TlsError::AlreadyInitialized));
    assert_eq!(config.add_ssl_cert("late.local".to_owned(), 2), Err(TlsError::Sealed));
    assert_eq!(config.len(), 1);
    assert_eq!(config.context(), Ok(&1));
}

#[test]
fn context_is_the_one_added_first() {
    let mut config: TlsSniConfig<&str> = TlsSniConfig::new();
    assert_eq!(config.add_ssl_cert("a.local".to_owned(), "ctx a"), Ok(()));
    assert_eq!(config.add_ssl_cert("b.local".to_owned(), "ctx b"), Ok(()));
    assert_eq!(config.context(), Ok(&"ctx a"));
    assert_eq!(config.add_ssl_cert("a.local".to_owned(), "ctx a2"), Ok(()));
    assert_eq!(config.len(), 2);
    assert_eq!(config.context(), Ok(&"ctx a2"));
    assert_eq!(config.position("b.local"), Some(1));
    assert_eq!(config.position("c.local"), None);
}

#[test]
fn sni_for_an_unconfigured_host_keeps_the_default_context() {
    let mut config: TlsSniConfig<&str> = TlsSniConfig::new();
    assert_eq!(config.add_ssl_cert("foxbox.local".to_owned(), "local"), Ok(()));
    assert_eq!(config.add_ssl_cert("box.example.org".to_owned(), "remote"), Ok(()));
    assert_eq!(config.init_ssl_context(), Ok(()));
    assert_eq!(config.servername_callback(Some("other.example.org")), (SSL_TLSEXT_ERR_OK, None));
    assert_eq!(config.servername_callback(Some("")), (SSL_TLSEXT_ERR_OK, None));
    assert_eq!(config.servername_callback(Some("FOXBOX.LOCAL")), (SSL_TLSEXT_ERR_OK, None));
}

#[test]
fn sni_for_a_configured_host_switches_to_its_context() {
    let mut config: TlsSniConfig<&str> = TlsSniConfig::new();
    assert_eq!(config.add_ssl_cert("foxbox.local".to_owned(), "local"), Ok(()));
    assert_eq!(config.add_ssl_cert("box.example.org".to_owned(), "remote"), Ok(()));
    assert_eq!(config.init_ssl_context(), Ok(()));
    assert_eq!(config.servername_callback(Some("foxbox.local")), (SSL_TLSEXT_ERR_OK, Some(&"local")));
    assert_eq!(
        config.servername_callback(Some("box.example.org")),
        (SSL_TLSEXT_ERR_OK, Some(&"remote"))
    );
}

#[test]
fn no_server_name_is_not_acknowledged() {
    let mut config: TlsSniConfig<&str> = TlsSniConfig::new();
    assert_eq!(config.add_ssl_cert("foxbox.local".to_owned(), "local"), Ok(()));
    assert_eq!(config.servername_callback(None), (SSL_TLSEXT_ERR_NOACK, None));
    assert_eq!(SSL_TLSEXT_ERR_OK, 0);
    assert_eq!(SSL_TLSEXT_ERR_NOACK, 3);
}

#[test]
fn policy_is_default_ciphers_and_no_client_certificate() {
    let policy = TlsSniConfig::<u8>::policy();
    assert_eq!(policy.cipher_list, "DEFAULT");
    assert_eq!(CIPHER_LIST, "DEFAULT");
    assert!(!policy.verify_peer);
}

#[test]
fn directory_for_one_host_is_ready_to_serve() {
    let config = TlsSniConfig::for_host("foxbox.local".to_owned(), 7u8);
    assert!(config.is_initialized());
    assert_eq!(config.len(), 1);
    assert_eq!(config.context(), Ok(&7));
    assert_eq!(config.servername_callback(Some("foxbox.local")), (SSL_TLSEXT_ERR_OK, Some(&7)));
}

#[test]
fn tls_errors_say_what_went_wrong() {
    assert_eq!(TlsError::NoCertificate.message(), "An SSL certificate was not configured");
    assert!(TlsError::Sealed.message().contains("no more certificates"));
    assert!(TlsError::AlreadyInitialized.message().contains("before"));
}

#[test]
fn negotiator_codes_are_those_of_openssl() {
    assert_eq!(SSL_TLSEXT_ERR_OK, openssl_sys::SSL_TLSEXT_ERR_OK);
    assert_eq!(SSL_TLSEXT_ERR_NOACK, openssl_sys::SSL_TLSEXT_ERR_NOACK);
}
