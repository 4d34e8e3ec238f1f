//! The result of a successful mutating call: a list of audit attributes,
//! observable by external indexers.

use vstd::prelude::*;

verus! {

/// Mathematical model of one audit attribute.
pub ghost struct AttributeV {
    pub key: Seq<char>,
    pub value: Seq<char>,
}

/// A key/value audit tag emitted by a successful mutating call.
pub struct Attribute {
    pub key: String,
    pub value: String,
}

impl View for Attribute {
    type V = AttributeV;

    open spec fn view(&self) -> AttributeV {
        AttributeV { key: self.key@, value: self.value@ }
    }
}

/// What a successful Instantiate or Execute hands back to the host: the
/// audit attributes of the call. This contract sends no messages of its own,
/// so attributes are all a response carries.
pub struct Response {
    pub attributes: Vec<Attribute>,
}

impl Response {
    /// The audit trail as a sequence of attribute models.
    pub open spec fn attrs(self) -> Seq<AttributeV> {
        Seq::new(self.attributes@.len(), |i: int| self.attributes@[i]@)
    }

    /// An empty response: no attributes yet.
    pub fn new() -> (r: Response)
        ensures
            r.attrs() == Seq::<AttributeV>::empty(),
    {
        let r = Response { attributes: Vec::new() };
        proof {
            assert(r.attrs() =~= Seq::<AttributeV>::empty());
        }
        r
    }

    /// Appends one audit attribute, keeping all earlier ones in order.
    pub fn add_attribute(self, key: String, value: String) -> (r: Response)
        ensures
            r.attrs() == self.attrs().push(AttributeV { key: key@, value: value@ }),
    {
        let ghost prev = self.attrs();
        let mut attributes = self.attributes;
        attributes.push(Attribute { key, value });
        let r = Response { attributes };
        proof {
            assert(r.attrs() =~= prev.push(r.attributes@[prev.len() as int]@));
        }
        r
    }
}

} // verus!
