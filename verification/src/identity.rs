//! The process resource identity attached to every emitted signal.

use vstd::prelude::*;

verus! {

/// The mathematical content of a [`ResourceIdentity`]: the attribute
/// values as character sequences.
pub ghost struct IdentityView {
    pub service: Seq<char>,
    pub language: Seq<char>,
    pub extras: Seq<(Seq<char>, Seq<char>)>,
}

/// An immutable bag of key/value attributes (service name, language tag,
/// further pairs) identifying the emitting process. The same identity is
/// attached to every pipeline of one process instance, so a collector can
/// attribute all three signal kinds to one logical process.
pub struct ResourceIdentity {
    pub service_name: String,
    pub language_tag: String,
    pub extras: Vec<(String, String)>,
}

impl View for ResourceIdentity {
    type V = IdentityView;

    open spec fn view(&self) -> IdentityView {
        IdentityView {
            service: self.service_name@,
            language: self.language_tag@,
            extras: self.extras@.map_values(|p: (String, String)| (p.0@, p.1@)),
        }
    }
}

impl ResourceIdentity {
    /// Pure construction: the identity holds exactly the given attributes.
    pub fn new(service_name: String, language_tag: String, extras: Vec<(String, String)>) -> (r:
        ResourceIdentity)
        ensures
            r@.service == service_name@,
            r@.language == language_tag@,
            r@.extras.len() == extras@.len(),
            forall|i: int|
                0 <= i < extras@.len() ==> r@.extras[i] == (extras@[i].0@, extras@[i].1@),
    {
        ResourceIdentity { service_name, language_tag, extras }
    }

    /// A fresh identity with the same attributes, for handing one shared
    /// identity to several pipelines.
    pub fn replica(&self) -> (r: ResourceIdentity)
        ensures
            r@ == self@,
    {
        let mut extras: Vec<(String, String)> = Vec::new();
        let mut i: usize = 0;
        while i < self.extras.len()
            invariant
                i <= self.extras@.len(),
                extras@.len() == i,
                forall|j: int|
                    0 <= j < i ==> #[trigger] extras@[j] == self.extras@[j],
            decreases self.extras@.len() - i,
        {
            let k = self.extras[i].0.clone();
            let v = self.extras[i].1.clone();
            extras.push((k, v));
            i = i + 1;
        }
        let r = ResourceIdentity {
            service_name: self.service_name.clone(),
            language_tag: self.language_tag.clone(),
            extras,
        };
        proof {
            assert(r@.extras =~= self@.extras);
            assert(r@ =~= self@);
        }
        r
    }

    /// The identity's attributes as plain key/value pairs, ready to be
    /// handed to an exporter: the fixed language-tag attribute first,
    /// then the extra pairs, in order.
    pub fn resource_pairs(&self) -> (r: Vec<(String, String)>)
        ensures
            r@.len() == 1 + self.extras@.len(),
            r@[0].0@ == "telemetry.sdk.language"@,
            r@[0].1@ == self@.language,
            forall|i: int| 0 <= i < self.extras@.len() ==> r@[i + 1] == self.extras@[i],
    {
        let mut r: Vec<(String, String)> = Vec::new();
        r.push(("telemetry.sdk.language".to_owned(), self.language_tag.clone()));
        let mut i: usize = 0;
        while i < self.extras.len()
            invariant
                i <= self.extras@.len(),
                r@.len() == 1 + i,
                r@[0].0@ == "telemetry.sdk.language"@,
                r@[0].1@ == self@.language,
                forall|j: int| 0 <= j < i ==> r@[j + 1] == self.extras@[j],
            decreases self.extras@.len() - i,
        {
            let k = self.extras[i].0.clone();
            let v = self.extras[i].1.clone();
            r.push((k, v));
            i = i + 1;
        }
        r
    }
}

} // verus!
