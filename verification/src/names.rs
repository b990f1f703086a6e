//! The name resolver: a total, pure mapping from a display language and a
//! key to the key's localized display name. All 72 language/key pairs are
//! spelled out; none falls back to another language.

use crate::catalog::Key;
use vstd::prelude::*;

verus! {

/// One of the three display languages the tool offers.
#[derive(Copy, Clone, PartialEq, Eq, Structural, Debug)]
pub enum Languages {
    Japanese,
    English,
    German,
}

/// The localized display name of `key` in `lang`, as a sequence of
/// characters. This is the authoritative name table; `key_name` returns
/// exactly these strings.
pub open spec fn name_spec(lang: Languages, key: Key) -> Seq<char> {
    match lang {
        Languages::Japanese => match key {
            Key::Cmajor => "ハ長調"@,
            Key::Aminor => "イ短調"@,
            Key::Fmajor => "ヘ長調"@,
            Key::Dminor => "ニ短調"@,
            Key::Bflatmajor => "変ロ長調"@,
            Key::Gminor => "ト短調"@,
            Key::Eflatmajor => "変ホ長調"@,
            Key::Cminor => "ハ短調"@,
            Key::Aflatmajor => "変イ長調"@,
            Key::Fminor => "ヘ短調"@,
            Key::Dflatmajor => "変ニ長調"@,
            Key::Bflatminor => "変ロ短調"@,
            Key::Gflatmajor => "変ト長調"@,
            Key::Eflatminor => "変ホ短調"@,
            Key::Bmajor => "ロ長調"@,
            Key::Gsharpminor => "嬰ト短調"@,
            Key::Emajor => "ホ長調"@,
            Key::Csharpminor => "嬰ハ短調"@,
            Key::Amajor => "イ長調"@,
            Key::Fsharpminor => "嬰ヘ短調"@,
            Key::Dmajor => "ニ長調"@,
            Key::Bminor => "ロ短調"@,
            Key::Gmajor => "ト長調"@,
            Key::Eminor => "ホ短調"@,
        },
        Languages::English => match key {
            Key::Cmajor => "C major"@,
            Key::Aminor => "A minor"@,
            Key::Fmajor => "F major"@,
            Key::Dminor => "D minor"@,
            Key::Bflatmajor => "Bb major"@,
            Key::Gminor => "G minor"@,
            Key::Eflatmajor => "Eb major"@,
            Key::Cminor => "C minor"@,
            Key::Aflatmajor => "Ab major"@,
            Key::Fminor => "F minor"@,
            Key::Dflatmajor => "Db major"@,
            Key::Bflatminor => "Bb minor"@,
            Key::Gflatmajor => "Gb major"@,
            Key::Eflatminor => "Eb minor"@,
            Key::Bmajor => "B major"@,
            Key::Gsharpminor => "G# minor"@,
            Key::Emajor => "E major"@,
            Key::Csharpminor => "C# minor"@,
            Key::Amajor => "A major"@,
            Key::Fsharpminor => "F# minor"@,
            Key::Dmajor => "D major"@,
            Key::Bminor => "B minor"@,
            Key::Gmajor => "G major"@,
            Key::Eminor => "E minor"@,
        },
        Languages::German => match key {
            Key::Cmajor => "C-Dur"@,
            Key::Aminor => "a-Moll"@,
            Key::Fmajor => "F-Dur"@,
            Key::Dminor => "d-Moll"@,
            Key::Bflatmajor => "B-Dur"@,
            Key::Gminor => "g-Moll"@,
            Key::Eflatmajor => "Es-Dur"@,
            Key::Cminor => "c-Moll"@,
            Key::Aflatmajor => "As-Dur"@,
            Key::Fminor => "f-Moll"@,
            Key::Dflatmajor => "Des-Dur"@,
            Key::Bflatminor => "b-Moll"@,
            Key::Gflatmajor => "Ges-Dur"@,
            Key::Eflatminor => "es-Moll"@,
            Key::Bmajor => "H-Dur"@,
            Key::Gsharpminor => "gis-Moll"@,
            Key::Emajor => "E-Dur"@,
            Key::Csharpminor => "cis-Moll"@,
            Key::Amajor => "A-Dur"@,
            Key::Fsharpminor => "fis-Moll"@,
            Key::Dmajor => "D-Dur"@,
            Key::Bminor => "h-Moll"@,
            Key::Gmajor => "G-Dur"@,
            Key::Eminor => "e-Moll"@,
        },
    }
}

/// Resolver totality: every one of the 72 language/key pairs resolves to a
/// non-empty name.
pub proof fn lemma_resolver_total()
    ensures
        forall|lang: Languages, key: Key| name_spec(lang, key).len() > 0,
{
    reveal_strlit("ハ長調");
    reveal_strlit("イ短調");
    reveal_strlit("ヘ長調");
    reveal_strlit("ニ短調");
    reveal_strlit("変ロ長調");
    reveal_strlit("ト短調");
    reveal_strlit("変ホ長調");
    reveal_strlit("ハ短調");
    reveal_strlit("変イ長調");
    reveal_strlit("ヘ短調");
    reveal_strlit("変ニ長調");
    reveal_strlit("変ロ短調");
    reveal_strlit("変ト長調");
    reveal_strlit("変ホ短調");
    reveal_strlit("ロ長調");
    reveal_strlit("嬰ト短調");
    reveal_strlit("ホ長調");
    reveal_strlit("嬰ハ短調");
    reveal_strlit("イ長調");
    reveal_strlit("嬰ヘ短調");
    reveal_strlit("ニ長調");
    reveal_strlit("ロ短調");
    reveal_strlit("ト長調");
    reveal_strlit("ホ短調");
    reveal_strlit("C major");
    reveal_strlit("A minor");
    reveal_strlit("F major");
    reveal_strlit("D minor");
    reveal_strlit("Bb major");
    reveal_strlit("G minor");
    reveal_strlit("Eb major");
    reveal_strlit("C minor");
    reveal_strlit("Ab major");
    reveal_strlit("F minor");
    reveal_strlit("Db major");
    reveal_strlit("Bb minor");
    reveal_strlit("Gb major");
    reveal_strlit("Eb minor");
    reveal_strlit("B major");
    reveal_strlit("G# minor");
    reveal_strlit("E major");
    reveal_strlit("C# minor");
    reveal_strlit("A major");
    reveal_strlit("F# minor");
    reveal_strlit("D major");
    reveal_strlit("B minor");
    reveal_strlit("G major");
    reveal_strlit("E minor");
    reveal_strlit("C-Dur");
    reveal_strlit("a-Moll");
    reveal_strlit("F-Dur");
    reveal_strlit("d-Moll");
    reveal_strlit("B-Dur");
    reveal_strlit("g-Moll");
    reveal_strlit("Es-Dur");
    reveal_strlit("c-Moll");
    reveal_strlit("As-Dur");
    reveal_strlit("f-Moll");
    reveal_strlit("Des-Dur");
    reveal_strlit("b-Moll");
    reveal_strlit("Ges-Dur");
    reveal_strlit("es-Moll");
    reveal_strlit("H-Dur");
    reveal_strlit("gis-Moll");
    reveal_strlit("E-Dur");
    reveal_strlit("cis-Moll");
    reveal_strlit("A-Dur");
    reveal_strlit("fis-Moll");
    reveal_strlit("D-Dur");
    reveal_strlit("h-Moll");
    reveal_strlit("G-Dur");
    reveal_strlit("e-Moll");
}

/// Resolver determinism: two results of resolving the same language and key
/// are identical.
pub proof fn lemma_resolver_deterministic(
    lang: Languages,
    key: Key,
    r1: Seq<char>,
    r2: Seq<char>,
)
    requires
        r1 == name_spec(lang, key),
        r2 == name_spec(lang, key),
    ensures
        r1 == r2,
{
}

/// The localized display name of `key` in `lang`: exactly the entry of the
/// name table, always non-empty.
pub fn key_name(lang: Languages, key: Key) -> (r: &'static str)
    ensures
        r@ == name_spec(lang, key),
        r@.len() > 0,
{
    let r: &'static str = match lang {
        Languages::Japanese => match key {
            Key::Cmajor => "ハ長調",
            Key::Aminor => "イ短調",
            Key::Fmajor => "ヘ長調",
            Key::Dminor => "ニ短調",
            Key::Bflatmajor => "変ロ長調",
            Key::Gminor => "ト短調",
            Key::Eflatmajor => "変ホ長調",
            Key::Cminor => "ハ短調",
            Key::Aflatmajor => "変イ長調",
            Key::Fminor => "ヘ短調",
            Key::Dflatmajor => "変ニ長調",
            Key::Bflatminor => "変ロ短調",
            Key::Gflatmajor => "変ト長調",
            Key::Eflatminor => "変ホ短調",
            Key::Bmajor => "ロ長調",
            Key::Gsharpminor => "嬰ト短調",
            Key::Emajor => "ホ長調",
            Key::Csharpminor => "嬰ハ短調",
            Key::Amajor => "イ長調",
            Key::Fsharpminor => "嬰ヘ短調",
            Key::Dmajor => "ニ長調",
            Key::Bminor => "ロ短調",
            Key::Gmajor => "ト長調",
            Key::Eminor => "ホ短調",
        },
        Languages::English => match key {
            Key::Cmajor => "C major",
            Key::Aminor => "A minor",
            Key::Fmajor => "F major",
            Key::Dminor => "D minor",
            Key::Bflatmajor => "Bb major",
            Key::Gminor => "G minor",
            Key::Eflatmajor => "Eb major",
            Key::Cminor => "C minor",
            Key::Aflatmajor => "Ab major",
            Key::Fminor => "F minor",
            Key::Dflatmajor => "Db major",
            Key::Bflatminor => "Bb minor",
            Key::Gflatmajor => "Gb major",
            Key::Eflatminor => "Eb minor",
            Key::Bmajor => "B major",
            Key::Gsharpminor => "G# minor",
            Key::Emajor => "E major",
            Key::Csharpminor => "C# minor",
            Key::Amajor => "A major",
            Key::Fsharpminor => "F# minor",
            Key::Dmajor => "D major",
            Key::Bminor => "B minor",
            Key::Gmajor => "G major",
            Key::Eminor => "E minor",
        },
        Languages::German => match key {
            Key::Cmajor => "C-Dur",
            Key::Aminor => "a-Moll",
            Key::Fmajor => "F-Dur",
            Key::Dminor => "d-Moll",
            Key::Bflatmajor => "B-Dur",
            Key::Gminor => "g-Moll",
            Key::Eflatmajor => "Es-Dur",
            Key::Cminor => "c-Moll",
            Key::Aflatmajor => "As-Dur",
            Key::Fminor => "f-Moll",
            Key::Dflatmajor => "Des-Dur",
            Key::Bflatminor => "b-Moll",
            Key::Gflatmajor => "Ges-Dur",
            Key::Eflatminor => "es-Moll",
            Key::Bmajor => "H-Dur",
            Key::Gsharpminor => "gis-Moll",
            Key::Emajor => "E-Dur",
            Key::Csharpminor => "cis-Moll",
            Key::Amajor => "A-Dur",
            Key::Fsharpminor => "fis-Moll",
            Key::Dmajor => "D-Dur",
            Key::Bminor => "h-Moll",
            Key::Gmajor => "G-Dur",
            Key::Eminor => "e-Moll",
        },
    };
    proof {
        lemma_resolver_total();
        assert(r@ == name_spec(lang, key));
    }
    r
}

} // verus!
