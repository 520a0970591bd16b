//! Host entries: the records shown in the list panel.

use vstd::prelude::*;

verus! {

/// What a host entry is in contracts: its two strings as character sequences.
pub struct HostModel {
    pub name: Seq<char>,
    pub domain: Seq<char>,
}

/// A named SSH target. It never changes once it is made.
#[derive(Debug)]
pub struct HostItem<'a> {
    name: &'a str,
    domain: &'a str,
}

impl<'a> View for HostItem<'a> {
    type V = HostModel;

    closed spec fn view(&self) -> HostModel {
        HostModel { name: self.name@, domain: self.domain@ }
    }
}

impl<'a> Default for HostItem<'a> {
    /// The entry with an empty name and an empty domain.
    fn default() -> (item: Self)
        ensures
            item@.name == Seq::<char>::empty(),
            item@.domain == Seq::<char>::empty(),
    {
        proof {
            reveal_strlit("");
        }
        let item = Self { name: "", domain: "" };
        assert(item@.name =~= Seq::<char>::empty());
        assert(item@.domain =~= Seq::<char>::empty());
        item
    }
}

impl<'a> HostItem<'a> {
    /// Makes the entry with the given display name and domain.
    pub fn new(name: &'a str, domain: &'a str) -> (item: Self)
        ensures
            item@.name == name@,
            item@.domain == domain@,
    {
        Self { name, domain }
    }

    /// The display name, which is also the text of the entry's row in the list.
    pub fn name(&self) -> (name: &'a str)
        ensures
            name@ == self@.name,
    {
        self.name
    }

    /// The domain the entry points to.
    pub fn domain(&self) -> (domain: &'a str)
        ensures
            domain@ == self@.domain,
    {
        self.domain
    }
}

/// The hosts of a list as they stand in contracts.
pub open spec fn host_models<'a>(hosts: Seq<HostItem<'a>>) -> Seq<HostModel> {
    hosts.map_values(|host: HostItem<'a>| host@)
}

/// The hosts that the application lists when it starts, as they stand in
/// contracts.
pub open spec fn sample_host_models() -> Seq<HostModel> {
    seq![
        HostModel { name: "Github"@, domain: "github.com"@ },
        HostModel { name: "DevCloud"@, domain: "github.com"@ },
        HostModel { name: "Staging"@, domain: "github.com"@ },
        HostModel { name: "QaCloud"@, domain: "github.com"@ },
        HostModel { name: "TestBM"@, domain: "github.com"@ },
        HostModel { name: "Github"@, domain: "github.com"@ },
        HostModel { name: "Github"@, domain: "github.com"@ },
        HostModel { name: "Github"@, domain: "github.com"@ },
        HostModel { name: "Github"@, domain: "github.com"@ },
    ]
}

/// The hosts that the application lists when it starts.
pub fn sample_hosts() -> (hosts: Vec<HostItem<'static>>)
    ensures
        host_models(hosts@) == sample_host_models(),
{
    let hosts = vec![
        HostItem::new("Github", "github.com"),
        HostItem::new("DevCloud", "github.com"),
        HostItem::new("Staging", "github.com"),
        HostItem::new("QaCloud", "github.com"),
        HostItem::new("TestBM", "github.com"),
        HostItem::new("Github", "github.com"),
        HostItem::new("Github", "github.com"),
        HostItem::new("Github", "github.com"),
        HostItem::new("Github", "github.com"),
    ];
    assert(host_models(hosts@) =~= sample_host_models());
    hosts
}

impl<'a> From<&(&'a str, &'a str)> for HostItem<'a> {
    /// Makes the entry from a pair of name and domain.
    fn from(pair: &(&'a str, &'a str)) -> (item: Self)
        ensures
            item@.name == pair.0@,
            item@.domain == pair.1@,
    {
        Self { name: pair.0, domain: pair.1 }
    }
}

impl<'a> vstd::std_specs::convert::FromSpecImpl<&(&'a str, &'a str)> for HostItem<'a> {
    open spec fn obeys_from_spec() -> bool {
        true
    }

    closed spec fn from_spec(pair: &(&'a str, &'a str)) -> Self {
        HostItem { name: pair.0, domain: pair.1 }
    }
}

} // verus!
