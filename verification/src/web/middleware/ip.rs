//! The address a request comes from: the one a trusted proxy's header
//! names, else the socket's.
use vstd::prelude::*;

verus! {

/// The layer that finds the address a request comes from.
pub struct AddIp {
    pub trusted_ip_header: Option<String>,
}

/// The layer applied to a service.
pub struct AddIpService<S> {
    pub inner: S,
    pub trusted_ip_header: Option<String>,
}

impl AddIp {
    /// The layer, trusting the header named, if any, to carry the client's
    /// address.
    pub fn new(trusted_ip_header: Option<String>) -> (r: AddIp)
        ensures
            r.trusted_ip_header == trusted_ip_header,
    {
        AddIp { trusted_ip_header }
    }

    /// The layer applied to `inner`.
    pub fn layer<S>(&self, inner: S) -> (r: AddIpService<S>)
        ensures
            r.inner == inner,
            r.trusted_ip_header == self.trusted_ip_header,
    {
        AddIpService {
            inner,
            trusted_ip_header: crate::types::clone_option_string(&self.trusted_ip_header),
        }
    }
}

impl<S> AddIpService<S> {
    /// The address of the client: the one the trusted header carries, where
    /// a header is trusted and carries an address, else the socket's.
    pub fn client_ip<T>(&self, from_header: Option<T>, from_socket: Option<T>) -> (r: Option<T>)
        ensures
            r == (if self.trusted_ip_header is Some && from_header is Some {
                from_header
            } else {
                from_socket
            }),
    {
        if self.trusted_ip_header.is_some() {
            if let Some(ip) = from_header {
                return Some(ip);
            }
        }
        from_socket
    }
}

} // verus!
