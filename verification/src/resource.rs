//! Clouds, resource kinds and Terraform resource addresses.

use vstd::prelude::*;

use crate::text::{concat, owned};

verus! {

/// The cloud (Terraform provider) a resource belongs to.
#[derive(Clone, Copy, Debug, PartialEq, Eq, Structural)]
pub enum Cloud {
    Aws,
    Azure,
    Gcp,
    DigitalOcean,
    Cloudflare,
    PlanetScale,
}

/// The provider name printed for a cloud.
pub open spec fn cloud_name(c: Cloud) -> Seq<char> {
    match c {
        Cloud::Aws => "aws"@,
        Cloud::Azure => "azurerm"@,
        Cloud::Gcp => "google"@,
        Cloud::DigitalOcean => "digitalocean"@,
        Cloud::Cloudflare => "cloudflare"@,
        Cloud::PlanetScale => "planetscale"@,
    }
}

impl Cloud {
    /// The provider name of this cloud (its `Display`).
    pub fn name(&self) -> (s: &'static str)
        ensures
            s@ == cloud_name(*self),
    {
        match self {
            Cloud::Aws => "aws",
            Cloud::Azure => "azurerm",
            Cloud::Gcp => "google",
            Cloud::DigitalOcean => "digitalocean",
            Cloud::Cloudflare => "cloudflare",
            Cloud::PlanetScale => "planetscale",
        }
    }
}

/// A Terraform resource type name such as `aws_instance`.
#[derive(Clone, Debug)]
pub struct ResourceTypeName(pub String);

/// A resource type within its cloud.
#[derive(Clone, Debug)]
pub struct ResourceKind {
    pub cloud: Cloud,
    pub tf_type: ResourceTypeName,
}

impl ResourceKind {
    /// The kind `tf_type` of `cloud`.
    pub fn new(cloud: Cloud, tf_type: &str) -> (k: ResourceKind)
        ensures
            k.cloud == cloud,
            k.tf_type.0@ == tf_type@,
    {
        ResourceKind { cloud, tf_type: ResourceTypeName(owned(tf_type)) }
    }
}

/// The address of a resource: the modules it sits in, its kind and its name.
#[derive(Clone, Debug)]
pub struct ResourceAddress {
    pub modules: Vec<String>,
    pub kind: ResourceKind,
    pub name: String,
}

/// What an address is, as plain values.
pub ghost struct AddressView {
    pub modules: Seq<Seq<char>>,
    pub cloud: Cloud,
    pub tf_type: Seq<char>,
    pub name: Seq<char>,
}

impl View for ResourceAddress {
    type V = AddressView;

    open spec fn view(&self) -> AddressView {
        AddressView {
            modules: self.modules@.map_values(|m: String| m@),
            cloud: self.kind.cloud,
            tf_type: self.kind.tf_type.0@,
            name: self.name@,
        }
    }
}

/// The module prefix printed for a module path: `module.<m>.` for each module.
pub open spec fn module_prefix(path: Seq<Seq<char>>) -> Seq<char>
    decreases path.len(),
{
    if path.len() == 0 {
        Seq::empty()
    } else {
        module_prefix(path.drop_last()) + "module."@ + path.last() + "."@
    }
}

/// The text of an address: `module.<m>.` for each module, then `<type>.<name>`.
pub open spec fn address_text(a: AddressView) -> Seq<char> {
    module_prefix(a.modules) + a.tf_type + "."@ + a.name
}

impl ResourceAddress {
    /// The address of `name` of `kind`, outside any module.
    pub fn new(kind: ResourceKind, name: &str) -> (a: ResourceAddress)
        ensures
            a@ == (AddressView { modules: Seq::empty(), cloud: kind.cloud, tf_type: kind.tf_type.0@, name: name@ }),
    {
        let a = ResourceAddress { modules: Vec::new(), kind, name: owned(name) };
        assert(a@.modules =~= Seq::<Seq<char>>::empty());
        a
    }

    /// This address with `module` appended to its module path.
    pub fn with_module(self, module: &str) -> (a: ResourceAddress)
        ensures
            a@ == (AddressView { modules: self@.modules.push(module@), ..self@ }),
    {
        let mut s = self;
        s.modules.push(owned(module));
        assert(s@.modules =~= self@.modules.push(module@));
        s
    }

    /// The printed address (its `Display`), such as `module.net.aws_instance.web`.
    pub fn to_string(&self) -> (s: String)
        ensures
            s@ == address_text(self@),
    {
        let mut s = String::new();
        let mut i: usize = 0;
        while i < self.modules.len()
            invariant
                i <= self.modules@.len(),
                s@ == module_prefix(self@.modules.subrange(0, i as int)),
            decreases self.modules.len() - i,
        {
            let ghost before = self@.modules.subrange(0, i as int);
            s.append("module.");
            s.append(self.modules[i].as_str());
            s.append(".");
            proof {
                let after = self@.modules.subrange(0, i + 1);
                assert(after.drop_last() =~= before);
                assert(after.last() == self.modules@[i as int]@);
            }
            i = i + 1;
        }
        assert(self@.modules.subrange(0, self@.modules.len() as int) =~= self@.modules);
        s.append(self.kind.tf_type.0.as_str());
        s.append(".");
        s.append(self.name.as_str());
        s
    }
}

/// Adding a module to an address puts `module.<m>.` just before the kind and
/// name in the printed address.
pub proof fn lemma_with_module_text(a: AddressView, m: Seq<char>)
    ensures
        address_text(AddressView { modules: a.modules.push(m), ..a }) == module_prefix(a.modules)
            + "module."@ + m + "."@ + a.tf_type + "."@ + a.name,
{
    assert(a.modules.push(m).drop_last() =~= a.modules);
}

} // verus!
