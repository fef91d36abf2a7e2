use vstd::prelude::*;

verus! {

/// The mathematical content of a descriptor: the service name and the
/// key/value attributes.
pub type DescriptorModel = (Seq<char>, Seq<(Seq<char>, Seq<char>)>);

/// The process identity attached to all exported telemetry: a service name
/// and key/value attributes. Never mutated after creation; every backend is
/// handed a copy of the one cached value.
#[derive(Clone, Debug)]
pub struct IdentityDescriptor {
    pub service_name: String,
    pub attributes: Vec<(String, String)>,
}

impl IdentityDescriptor {
    /// The content of this descriptor.
    pub open spec fn model(self) -> DescriptorModel {
        (self.service_name@, self.attributes.deep_view())
    }

    /// A copy with the same content.
    pub fn duplicate(&self) -> (r: Self)
        ensures
            r.model() == self.model(),
    {
        let mut attrs: Vec<(String, String)> = Vec::new();
        let mut i: usize = 0;
        while i < self.attributes.len()
            invariant
                i <= self.attributes.len(),
                attrs@.len() == i,
                forall|j: int| #![trigger attrs@[j]]
                    0 <= j < i ==> attrs@[j] == self.attributes@[j],
            decreases self.attributes.len() - i,
        {
            let kv = &self.attributes[i];
            let key = kv.0.clone();
            let value = kv.1.clone();
            attrs.push((key, value));
            proof {
                assert(attrs@[i as int].0 == self.attributes@[i as int].0);
                assert(attrs@[i as int].1 == self.attributes@[i as int].1);
            }
            i += 1;
        }
        proof {
            let post = attrs.deep_view();
            let pre = self.attributes.deep_view();
            assert forall|j: int| 0 <= j < attrs@.len() implies post[j] == pre[j] by {
                assert(post[j] == attrs@[j].deep_view());
                assert(pre[j] == self.attributes@[j].deep_view());
            }
            assert(post =~= pre);
        }
        IdentityDescriptor { service_name: self.service_name.clone(), attributes: attrs }
    }
}

/// The cache content after one request: an already-established descriptor
/// stays untouched, whatever the request asked for; otherwise the request's
/// own descriptor is stored.
pub open spec fn cached_after(
    st: Option<DescriptorModel>,
    name: Seq<char>,
    attrs: Seq<(Seq<char>, Seq<char>)>,
) -> Option<DescriptorModel> {
    if st is Some {
        st
    } else {
        Some((name, attrs))
    }
}

/// The descriptor a request is served: the cache content after it.
pub open spec fn served(
    st: Option<DescriptorModel>,
    name: Seq<char>,
    attrs: Seq<(Seq<char>, Seq<char>)>,
) -> DescriptorModel {
    cached_after(st, name, attrs)->Some_0
}

/// First-call-wins holder of the process identity descriptor. The first
/// request builds and stores the descriptor; every later request — even with
/// different arguments — is served the stored value unchanged.
pub struct DescriptorCache {
    stored: Option<IdentityDescriptor>,
}

impl DescriptorCache {
    /// The content of the cache, if a descriptor has been established.
    pub closed spec fn cached(self) -> Option<DescriptorModel> {
        match self.stored {
            Some(d) => Some(d.model()),
            None => None,
        }
    }

    /// An empty cache: no descriptor established yet.
    pub fn new() -> (c: Self)
        ensures
            c.cached() is None,
    {
        DescriptorCache { stored: None }
    }

    /// Serves the process descriptor: builds and stores it on the first
    /// call, returns the stored value unchanged on every later call.
    pub fn get_or_init(
        &mut self,
        service_name: &str,
        attributes: Vec<(String, String)>,
    ) -> (d: IdentityDescriptor)
        ensures
            final(self).cached()
                == cached_after(old(self).cached(), service_name@, attributes.deep_view()),
            d.model() == served(old(self).cached(), service_name@, attributes.deep_view()),
    {
        match &self.stored {
            Some(d) => d.duplicate(),
            None => {
                let d = IdentityDescriptor {
                    service_name: service_name.to_owned(),
                    attributes,
                };
                let copy = d.duplicate();
                self.stored = Some(d);
                copy
            },
        }
    }
}

/// First-call-wins memoization: once a first request has established the
/// descriptor, any later request — with any service name and attributes — is
/// served the first request's descriptor unchanged.
pub proof fn lemma_descriptor_memoization(
    name_a: Seq<char>,
    attrs_a: Seq<(Seq<char>, Seq<char>)>,
    name_b: Seq<char>,
    attrs_b: Seq<(Seq<char>, Seq<char>)>,
)
    ensures
        served(Option::<DescriptorModel>::None, name_a, attrs_a) == (name_a, attrs_a),
        served(cached_after(Option::<DescriptorModel>::None, name_a, attrs_a), name_b, attrs_b)
            == (name_a, attrs_a),
{
}

} // verus!
