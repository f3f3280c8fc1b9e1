use vstd::prelude::*;

verus! {

/// A customer / bike-model pairing, the unit of work of the publish and
/// document flows.
pub struct Prospect {
    pub name: String,
    pub model: String,
}

/// The body of an order request: a single item name.
pub struct Item {
    pub name: String,
}

/// `"{name}-{model}"`: the token that names a prospect's document.
pub open spec fn identifier_of(name: Seq<char>, model: Seq<char>) -> Seq<char> {
    name + "-"@ + model
}

/// `"prospect/{name}-{model}.pdf"`: where a prospect's document is stored.
pub open spec fn storage_key_of(name: Seq<char>, model: Seq<char>) -> Seq<char> {
    "prospect/"@ + identifier_of(name, model) + ".pdf"@
}

impl Prospect {
    pub fn new(name: String, model: String) -> (r: Prospect)
        ensures
            r.name@ == name@,
            r.model@ == model@,
    {
        Prospect { name, model }
    }

    /// The document identifier, the two fields joined by a hyphen.
    pub fn identifier(&self) -> (r: String)
        ensures
            r@ == identifier_of(self.name@, self.model@),
    {
        let mut r = self.name.clone();
        r.append("-");
        r.append(self.model.as_str());
        r
    }

    /// The object-storage key of the prospect's document.
    pub fn storage_key(&self) -> (r: String)
        ensures
            r@ == storage_key_of(self.name@, self.model@),
    {
        let mut r = String::from_str("prospect/");
        let id = self.identifier();
        r.append(id.as_str());
        r.append(".pdf");
        proof {
            assert(r@ =~= storage_key_of(self.name@, self.model@));
        }
        r
    }
}

impl Clone for Prospect {
    fn clone(&self) -> (r: Prospect)
        ensures
            r.name@ == self.name@,
            r.model@ == self.model@,
    {
        Prospect { name: self.name.clone(), model: self.model.clone() }
    }
}

} // verus!
