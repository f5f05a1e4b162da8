use vstd::prelude::*;
use crate::documento::Documento;

verus! {

/// A person, known by name, who holds exactly one document of their own.
pub struct Pessoa {
    pub nome: String,
    pub documento: Documento,
}

impl Pessoa {
    /// The text that renders this person: the name, one space, then the
    /// rendering of the document.
    pub open spec fn rendering(&self) -> Seq<char> {
        self.nome@ + seq![' '] + self.documento.rendering()
    }

    /// Renders the person as text, composing the document's own rendering.
    pub fn to_string(&self) -> (r: String)
        ensures
            r@ == self.rendering(),
    {
        let documento = self.documento.to_string();
        let mut r = self.nome.clone();
        let espaco = " ";
        proof {
            reveal_strlit(" ");
        }
        r.append(espaco);
        r.append(documento.as_str());
        assert(r@ =~= self.rendering());
        r
    }
}

impl Clone for Pessoa {
    /// A deep duplicate: the name and the nested document are copied, so the
    /// duplicate shares nothing with the original.
    fn clone(&self) -> (r: Self)
        ensures
            r == *self,
    {
        Pessoa { nome: self.nome.clone(), documento: self.documento.clone() }
    }
}

/// A duplicate renders exactly as the person it was made from, whatever the
/// name and the document number.
pub proof fn lemma_duplicate_renders_alike(original: Pessoa, duplicate: Pessoa)
    requires
        duplicate == original,
    ensures
        duplicate.rendering() == original.rendering(),
{
}

/// Rendering depends on the person alone: two renderings of one unchanged
/// person are the same text.
pub proof fn lemma_rendering_deterministic(p: Pessoa, first: String, second: String)
    requires
        first@ == p.rendering(),
        second@ == p.rendering(),
    ensures
        first@ == second@,
{
}

/// A duplicate is independent of its original: when the original's name and
/// document number are replaced afterwards, the original holds and renders the
/// new values while the duplicate keeps, and renders, the old ones. The roles
/// are symmetric, so the same holds with the duplicate changed instead.
pub proof fn lemma_duplicate_independent(
    original: Pessoa,
    duplicate: Pessoa,
    nome: String,
    numero: String,
)
    requires
        duplicate == original,
    ensures
        ({
            let changed = Pessoa { nome: nome, documento: Documento { numero: numero } };
            &&& changed.nome@ == nome@
            &&& changed.documento.numero@ == numero@
            &&& changed.rendering() == nome@ + seq![' '] + numero@
            &&& duplicate.nome@ == original.nome@
            &&& duplicate.documento.numero@ == original.documento.numero@
            &&& duplicate.rendering() == original.rendering()
        }),
{
}

} // verus!
