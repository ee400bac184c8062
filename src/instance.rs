//! One backend endpoint: scheme, host and port.

use vstd::prelude::*;

verus! {

/// The scheme of an instance's URLs.
#[derive(Debug, Clone, Copy, PartialEq, Eq, Structural)]
pub enum Scheme {
    Http,
    Https,
}

/// The text of a scheme as it stands before `://`.
pub open spec fn scheme_text(s: Scheme) -> Seq<char> {
    match s {
        Scheme::Http => seq!['h', 't', 't', 'p'],
        Scheme::Https => seq!['h', 't', 't', 'p', 's'],
    }
}

impl Scheme {
    /// The scheme's name in lower case.
    pub fn as_str(&self) -> (r: &'static str)
        ensures
            r@ == scheme_text(*self),
    {
        match self {
            Scheme::Http => {
                proof {
                    reveal_strlit("http");
                }
                "http"
            },
            Scheme::Https => {
                proof {
                    reveal_strlit("https");
                }
                "https"
            },
        }
    }
}

impl Default for Scheme {
    fn default() -> (r: Scheme)
        ensures
            r == Scheme::Http,
    {
        Scheme::Http
    }
}

/// The value of an instance: instances are equal when their views are.
pub ghost struct InstanceView {
    pub scheme: Scheme,
    pub host: Seq<char>,
    pub port: u16,
}

/// An addressable backend endpoint.
#[derive(Debug, Clone)]
pub struct Instance {
    pub scheme: Scheme,
    pub host: String,
    pub port: u16,
}

impl View for Instance {
    type V = InstanceView;

    open spec fn view(&self) -> InstanceView {
        InstanceView { scheme: self.scheme, host: self.host@, port: self.port }
    }
}

/// The port on which an instance listens unless told otherwise.
pub const DEFAULT_PORT: u16 = 8086;

/// The host of the default instance.
pub open spec fn default_host() -> Seq<char> {
    seq!['1', '2', '7', '.', '0', '.', '0', '.', '1']
}

impl Instance {
    /// The value of the default instance: plain HTTP on the local host, at
    /// the default port.
    pub open spec fn default_view() -> InstanceView {
        InstanceView { scheme: Scheme::Http, host: default_host(), port: DEFAULT_PORT }
    }

    /// An instance with the given scheme, host and port.
    pub fn new(scheme: Scheme, host: String, port: u16) -> (r: Instance)
        ensures
            r@ == (InstanceView { scheme, host: host@, port }),
    {
        Instance { scheme, host, port }
    }

    /// A copy of this instance with the same value.
    pub fn duplicate(&self) -> (r: Instance)
        ensures
            r@ == self@,
    {
        Instance { scheme: self.scheme, host: self.host.clone(), port: self.port }
    }

    /// Whether two instances have the same scheme, host and port.
    pub fn same_as(&self, other: &Instance) -> (r: bool)
        ensures
            r == (self@ == other@),
    {
        self.scheme == other.scheme && self.port == other.port && self.host == other.host
    }
}

impl PartialEq for Instance {
    fn eq(&self, other: &Instance) -> (r: bool) {
        self.same_as(other)
    }
}

impl vstd::std_specs::cmp::PartialEqSpecImpl for Instance {
    open spec fn obeys_eq_spec() -> bool {
        true
    }

    open spec fn eq_spec(&self, other: &Instance) -> bool {
        self@ == other@
    }
}

impl Default for Instance {
    fn default() -> (r: Instance)
        ensures
            r@ == Instance::default_view(),
    {
        proof {
            reveal_strlit("127.0.0.1");
        }
        let host = String::from_str("127.0.0.1");
        assert(host@ =~= default_host());
        Instance { scheme: Scheme::Http, host, port: DEFAULT_PORT }
    }
}

} // verus!
