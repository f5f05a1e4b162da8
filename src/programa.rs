use vstd::prelude::*;
use crate::documento::Documento;
use crate::pessoa::Pessoa;

verus! {

/// The line that the program writes: the rendering of a person, one space,
/// the rendering of their duplicate, and a newline.
pub open spec fn output_of(original: Pessoa, duplicate: Pessoa) -> Seq<char> {
    original.rendering() + seq![' '] + duplicate.rendering() + seq!['\n']
}

/// Builds the sample person, duplicates them, and returns the whole text that
/// the program writes to standard output.
pub fn program_output() -> (r: String)
    ensures
        r@ == "Caio 12345678910 Caio 12345678910\n"@,
{
    let original = Pessoa {
        nome: String::from_str("Caio"),
        documento: Documento { numero: String::from_str("12345678910") },
    };
    let duplicate = original.clone();
    let mut r = original.to_string();
    r.append(" ");
    r.append(duplicate.to_string().as_str());
    r.append("\n");
    proof {
        reveal_strlit("Caio");
        reveal_strlit("12345678910");
        reveal_strlit(" ");
        reveal_strlit("\n");
        reveal_strlit("Caio 12345678910 Caio 12345678910\n");
        assert(r@ =~= output_of(original, duplicate));
        assert(r@ =~= "Caio 12345678910 Caio 12345678910\n"@);
    }
    r
}

} // verus!
