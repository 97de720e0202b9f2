//! The run's configuration: provider credentials and, per interface,
//! the ordered list of records to reconcile. Read-only input to the
//! engine; loading and storing the on-disk form is the caller's
//! concern.
use vstd::prelude::*;

verus! {

/// Provider credentials.
#[derive(Clone, Debug)]
pub struct Cloudflare {
    pub token: String,
}

/// The records configured for one interface.
#[derive(Clone, Debug)]
pub struct Interface {
    pub records: Vec<Record>,
}

/// One tracked entry: a fully qualified domain, the provider zone it
/// lives in, which address families to manage, and whether to discover
/// the public address by web lookup instead of using the local one.
#[derive(Clone, Debug)]
pub struct Record {
    pub domain: String,
    pub zone: String,
    pub kind: TypeOptions,
    pub web_lookup: bool,
}

/// Which address families a record manages.
#[derive(Clone, Copy, Debug, PartialEq, Eq, Structural)]
pub enum TypeOptions {
    A,
    AAAA,
    Both,
}

impl TypeOptions {
    /// Whether the record manages an IPv4 address.
    pub open spec fn spec_requires_v4(self) -> bool {
        self is A || self is Both
    }

    /// Whether the record manages an IPv6 address.
    pub open spec fn spec_requires_v6(self) -> bool {
        self is AAAA || self is Both
    }

    pub fn requires_v4(&self) -> (r: bool)
        ensures
            r == self.spec_requires_v4(),
    {
        match self {
            TypeOptions::A => true,
            TypeOptions::AAAA => false,
            TypeOptions::Both => true,
        }
    }

    pub fn requires_v6(&self) -> (r: bool)
        ensures
            r == self.spec_requires_v6(),
    {
        match self {
            TypeOptions::A => false,
            TypeOptions::AAAA => true,
            TypeOptions::Both => true,
        }
    }

    /// Human-readable family label.
    pub fn label(&self) -> (r: String)
        ensures
            self is A ==> r@ == "IPv4"@,
            self is AAAA ==> r@ == "IPv6"@,
            self is Both ==> r@ == "IPv4+IPv6"@,
    {
        match self {
            TypeOptions::A => "IPv4".to_owned(),
            TypeOptions::AAAA => "IPv6".to_owned(),
            TypeOptions::Both => "IPv4+IPv6".to_owned(),
        }
    }
}

/// The whole configuration, with the path it was loaded from (or will
/// be saved to).
#[derive(Clone, Debug)]
pub struct Config {
    pub cloudflare: Cloudflare,
    pub interfaces: Vec<(String, Interface)>,
    pub path: String,
}

impl Config {
    /// A new, empty configuration bound to a specific path.
    pub fn new_at_path(path: &str) -> (r: Config)
        ensures
            r.cloudflare.token@ == Seq::<char>::empty(),
            r.interfaces@ == Seq::<(String, Interface)>::empty(),
            r.path@ == path@,
    {
        Config {
            cloudflare: Cloudflare { token: String::new() },
            interfaces: Vec::new(),
            path: path.to_owned(),
        }
    }

    /// A configuration parsed elsewhere, rebound to the path it came
    /// from.
    pub fn assembled(cloudflare: Cloudflare, interfaces: Vec<(String, Interface)>, path: &str) -> (r:
        Config)
        ensures
            r.cloudflare == cloudflare,
            r.interfaces == interfaces,
            r.path@ == path@,
    {
        Config { cloudflare, interfaces, path: path.to_owned() }
    }

    pub fn path(&self) -> (r: &str)
        ensures
            r@ == self.path@,
    {
        self.path.as_str()
    }
}

} // verus!
