//! The directory of TLS hosts: one negotiation context per host name, and the
//! choice among them when a client names the server it wants.

use vstd::prelude::*;
use vstd::string::*;

verus! {

/// What the negotiator returns when it has dealt with the server name.
pub const SSL_TLSEXT_ERR_OK: i32 = 0;

/// What the negotiator returns when the client named no server.
pub const SSL_TLSEXT_ERR_NOACK: i32 = 3;

/// The cipher list of every context.
pub const CIPHER_LIST: &'static str = "DEFAULT";

/// How a negotiation context is to be set up. The gateway serves one
/// household and asks no client for a certificate: that is a decision, not an
/// omission.
pub struct TlsPolicy {
    pub cipher_list: String,
    pub verify_peer: bool,
}

/// Why the directory refuses what it is asked.
#[derive(PartialEq, Eq, Structural, Clone, Copy, Debug)]
pub enum TlsError {
    /// No certificate is configured.
    NoCertificate,
    /// The directory has been initialized; it takes no more certificates.
    Sealed,
    /// The directory has been initialized before.
    AlreadyInitialized,
}

/// What is reported for an error of the directory.
pub open spec fn tls_error_text(error: TlsError) -> Seq<char> {
    match error {
        TlsError::NoCertificate => "An SSL certificate was not configured"@,
        TlsError::Sealed => "The SSL hosts are initialized and take no more certificates"@,
        TlsError::AlreadyInitialized => "The SSL hosts were initialized before"@,
    }
}

impl TlsError {
    /// What is reported for the error.
    pub fn message(&self) -> (r: &'static str)
        ensures
            r@ == tls_error_text(*self),
    {
        match self {
            TlsError::NoCertificate => "An SSL certificate was not configured",
            TlsError::Sealed => "The SSL hosts are initialized and take no more certificates",
            TlsError::AlreadyInitialized => "The SSL hosts were initialized before",
        }
    }
}

/// A host name with the context that serves it.
pub struct TlsHost<C> {
    hostname: String,
    context: C,
}

/// The directory of TLS hosts. `C` is the type of a negotiation context. The
/// hosts are kept in a vector in which no name stands twice, so that the
/// context a socket starts with is a definite one: the first.
pub struct TlsSniConfig<C> {
    ssl_hosts: Vec<TlsHost<C>>,
    initialized: bool,
}

impl<C> TlsSniConfig<C> {
    #[verifier::type_invariant]
    spec fn well_formed(&self) -> bool {
        &&& self.names().no_duplicates()
        &&& self.initialized ==> self.ssl_hosts@.len() > 0
    }

    /// The configured host names, in the order in which they were first added.
    pub closed spec fn names(&self) -> Seq<Seq<char>> {
        self.ssl_hosts@.map_values(|h: TlsHost<C>| h.hostname@)
    }

    /// The contexts, each at the place of its host name.
    pub closed spec fn contexts(&self) -> Seq<C> {
        self.ssl_hosts@.map_values(|h: TlsHost<C>| h.context)
    }

    /// Whether the directory has been initialized.
    pub closed spec fn initialized(&self) -> bool {
        self.initialized
    }

    /// The policy by which every context is set up: the default ciphers, and
    /// no certificate asked of the client.
    pub fn policy() -> (r: TlsPolicy)
        ensures
            r.cipher_list@ == CIPHER_LIST@,
            !r.verify_peer,
    {
        TlsPolicy { cipher_list: String::from_str(CIPHER_LIST), verify_peer: false }
    }

    /// An empty directory.
    pub fn new() -> (r: TlsSniConfig<C>)
        ensures
            r.names() == Seq::<Seq<char>>::empty(),
            r.contexts() == Seq::<C>::empty(),
            !r.initialized(),
    {
        let r = TlsSniConfig { ssl_hosts: Vec::new(), initialized: false };
        assert(r.names() =~= Seq::<Seq<char>>::empty());
        assert(r.contexts() =~= Seq::<C>::empty());
        r
    }

    /// How many host names are configured.
    pub fn len(&self) -> (n: usize)
        ensures
            n == self.names().len(),
            n == self.contexts().len(),
            self.names().no_duplicates(),
            self.initialized() ==> n > 0,
    {
        proof {
            use_type_invariant(self);
        }
        self.ssl_hosts.len()
    }

    /// Whether the directory has been initialized.
    pub fn is_initialized(&self) -> (r: bool)
        ensures
            r == self.initialized(),
    {
        self.initialized
    }

    /// The place of `hostname` in the directory.
    pub fn position(&self, hostname: &str) -> (r: Option<usize>)
        ensures
            r is Some <==> self.names().contains(hostname@),
            r matches Some(i) ==> i < self.names().len() && self.names()[i as int] == hostname@
                && i as int == self.names().index_of(hostname@),
    {
        proof {
            use_type_invariant(self);
        }
        let wanted = String::from_str(hostname);
        let mut i: usize = 0;
        while i < self.ssl_hosts.len()
            invariant
                i <= self.ssl_hosts@.len(),
                self.names().len() == self.ssl_hosts@.len(),
                self.names().no_duplicates(),
                wanted@ == hostname@,
                forall|k: int| 0 <= k < i ==> self.names()[k] != hostname@,
            decreases self.ssl_hosts@.len() - i,
        {
            if self.ssl_hosts[i].hostname == wanted {
                proof {
                    assert(self.names()[i as int] == hostname@);
                    let k = self.names().index_of(hostname@);
                    assert(0 <= k < self.names().len() && self.names()[k] == hostname@);
                }
                return Some(i);
            }
            i += 1;
        }
        None
    }

    /// Any one of the configured contexts, for the socket to start with: the
    /// one whose host name was added first.
    pub fn context(&self) -> (r: Result<&C, TlsError>)
        ensures
            match r {
                Ok(c) => self.contexts().len() > 0 && *c == self.contexts()[0],
                Err(e) => self.contexts().len() == 0 && e == TlsError::NoCertificate,
            },
    {
        if self.ssl_hosts.len() == 0 {
            Err(TlsError::NoCertificate)
        } else {
            Ok(&self.ssl_hosts[0].context)
        }
    }

    /// Stores `context` under `hostname`, in place of the context that the
    /// host name has already. An initialized directory refuses.
    pub fn add_ssl_cert(&mut self, hostname: String, context: C) -> (r: Result<(), TlsError>)
        ensures
            final(self).initialized() == old(self).initialized(),
            old(self).initialized() ==> {
                &&& r == Err::<(), TlsError>(TlsError::Sealed)
                &&& final(self).names() == old(self).names()
                &&& final(self).contexts() == old(self).contexts()
            },
            !old(self).initialized() ==> r is Ok,
            !old(self).initialized() ==> if old(self).names().contains(hostname@) {
                &&& final(self).names() == old(self).names()
                &&& final(self).contexts() == old(self).contexts().update(
                    old(self).names().index_of(hostname@),
                    context,
                )
            } else {
                &&& final(self).names() == old(self).names().push(hostname@)
                &&& final(self).contexts() == old(self).contexts().push(context)
            },
    {
        proof {
            use_type_invariant(&*self);
        }
        if self.initialized {
            return Err(TlsError::Sealed);
        }
        let ghost names = self.names();
        let ghost contexts = self.contexts();
        let ghost name = hostname@;
        let found = self.position(hostname.as_str());
        let mut hosts: Vec<TlsHost<C>> = Vec::new();
        core::mem::swap(&mut self.ssl_hosts, &mut hosts);
        match found {
            Some(i) => {
                hosts.set(i, TlsHost { hostname, context });
                assert(hosts@.map_values(|h: TlsHost<C>| h.hostname@) =~= names);
                assert(hosts@.map_values(|h: TlsHost<C>| h.context) =~= contexts.update(
                    i as int,
                    context,
                ));
            },
            None => {
                hosts.push(TlsHost { hostname, context });
                assert(hosts@.map_values(|h: TlsHost<C>| h.hostname@) =~= names.push(name));
                assert(hosts@.map_values(|h: TlsHost<C>| h.context) =~= contexts.push(context));
                assert(names.push(name).no_duplicates()) by {
                    let longer = names.push(name);
                    assert forall|a: int, b: int|
                        0 <= a < longer.len() && 0 <= b < longer.len() && a != b implies longer[a]
                        != longer[b] by {
                        if a < names.len() && b < names.len() {
                            assert(names[a] != names[b]);
                        } else if a < names.len() {
                            assert(names[a] != name);
                        } else {
                            assert(names[b] != name);
                        }
                    }
                }
            },
        }
        core::mem::swap(&mut self.ssl_hosts, &mut hosts);
        Ok(())
    }

    /// The directory of a server with one certificate: `context` stored under
    /// `hostname`, and the directory initialized.
    pub fn for_host(hostname: String, context: C) -> (r: TlsSniConfig<C>)
        ensures
            r.names() == seq![hostname@],
            r.contexts() == seq![context],
            r.initialized(),
    {
        let mut r = TlsSniConfig::new();
        let added = r.add_ssl_cert(hostname, context);
        let started = r.init_ssl_context();
        assert(r.names() =~= seq![hostname@]);
        assert(r.contexts() =~= seq![context]);
        r
    }

    /// Closes the directory to further certificates, so that the negotiator
    /// chooses among the same hosts from now on. This is done once, and only
    /// with at least one certificate.
    pub fn init_ssl_context(&mut self) -> (r: Result<(), TlsError>)
        ensures
            final(self).names() == old(self).names(),
            final(self).contexts() == old(self).contexts(),
            r == if old(self).initialized() {
                Err::<(), TlsError>(TlsError::AlreadyInitialized)
            } else if old(self).names().len() == 0 {
                Err::<(), TlsError>(TlsError::NoCertificate)
            } else {
                Ok::<(), TlsError>(())
            },
            final(self).initialized() == (old(self).initialized() || r is Ok),
    {
        proof {
            use_type_invariant(&*self);
        }
        if self.initialized {
            Err(TlsError::AlreadyInitialized)
        } else if self.ssl_hosts.len() == 0 {
            Err(TlsError::NoCertificate)
        } else {
            self.initialized = true;
            Ok(())
        }
    }

    /// The negotiator. A client that names no server is not acknowledged; one
    /// that names a configured host is served with that host's context; one
    /// that names any other host goes on with the context it has. No answer
    /// ends the handshake.
    pub fn servername_callback(&self, requested: Option<&str>) -> (r: (i32, Option<&C>))
        ensures
            match requested {
                None => r == (SSL_TLSEXT_ERR_NOACK, None::<&C>),
                Some(name) => r.0 == SSL_TLSEXT_ERR_OK && r.1 == if self.names().contains(name@) {
                    Some(&self.contexts()[self.names().index_of(name@)])
                } else {
                    None
                },
            },
    {
        match requested {
            None => (SSL_TLSEXT_ERR_NOACK, None),
            Some(name) => match self.position(name) {
                Some(i) => (SSL_TLSEXT_ERR_OK, Some(&self.ssl_hosts[i].context)),
                None => (SSL_TLSEXT_ERR_OK, None),
            },
        }
    }
}

} // verus!
