use vstd::prelude::*;

verus! {

/// An identity document, known by its number.
pub struct Documento {
    pub numero: String,
}

impl Documento {
    /// The text that renders this document: its number, as it stands.
    pub open spec fn rendering(&self) -> Seq<char> {
        self.numero@
    }

    /// Renders the document as text.
    pub fn to_string(&self) -> (r: String)
        ensures
            r@ == self.rendering(),
    {
        self.numero.clone()
    }
}

impl Clone for Documento {
    /// A deep duplicate: the number is copied, not shared.
    fn clone(&self) -> (r: Self)
        ensures
            r == *self,
    {
        Documento { numero: self.numero.clone() }
    }
}

} // verus!
