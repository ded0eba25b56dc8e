//! Mapping of the romanised labels found in the data to canonical grid keys.
//!
//! A grid key is a row label followed by a column label (`"s" + "i"`), so the
//! irregular Hepburn spellings are folded onto the regular ones, and the
//! syllabic nasal gets the key `"Nu"` of its own row, apart from the vowel `"u"`.
use vstd::prelude::*;
use crate::text::str_equals;

verus! {

/// The canonical key of a raw romaji label: the alias table, and otherwise the
/// label itself.
pub open spec fn canonical_key(raw: Seq<char>) -> Seq<char> {
    if raw == "shi"@ { "si"@ }
    else if raw == "chi"@ { "ti"@ }
    else if raw == "tsu"@ { "tu"@ }
    else if raw == "sha"@ { "sya"@ }
    else if raw == "shu"@ { "syu"@ }
    else if raw == "sho"@ { "syo"@ }
    else if raw == "cha"@ { "tya"@ }
    else if raw == "chu"@ { "tyu"@ }
    else if raw == "cho"@ { "tyo"@ }
    else if raw == "n"@ { "Nu"@ }
    else if raw == "ja"@ { "zya"@ }
    else if raw == "ji"@ { "zi"@ }
    else if raw == "ju"@ { "zyu"@ }
    else if raw == "jo"@ { "zyo"@ }
    else if raw == "ji (dji)"@ { "di"@ }
    else if raw == "zu (dzu)"@ { "du"@ }
    else if raw == "ja (dja)"@ { "dya"@ }
    else if raw == "ju (dju)"@ { "dyu"@ }
    else if raw == "jo (djo)"@ { "dyo"@ }
    else { raw }
}

/// The canonical key of `raw`, as a new string.
pub fn normalize(raw: &str) -> (key: String)
    ensures
        key@ == canonical_key(raw@),
{
    let k: &str = if str_equals(raw, "shi") { "si" }
    else if str_equals(raw, "chi") { "ti" }
    else if str_equals(raw, "tsu") { "tu" }
    else if str_equals(raw, "sha") { "sya" }
    else if str_equals(raw, "shu") { "syu" }
    else if str_equals(raw, "sho") { "syo" }
    else if str_equals(raw, "cha") { "tya" }
    else if str_equals(raw, "chu") { "tyu" }
    else if str_equals(raw, "cho") { "tyo" }
    else if str_equals(raw, "n") { "Nu" }
    else if str_equals(raw, "ja") { "zya" }
    else if str_equals(raw, "ji") { "zi" }
    else if str_equals(raw, "ju") { "zyu" }
    else if str_equals(raw, "jo") { "zyo" }
    else if str_equals(raw, "ji (dji)") { "di" }
    else if str_equals(raw, "zu (dzu)") { "du" }
    else if str_equals(raw, "ja (dja)") { "dya" }
    else if str_equals(raw, "ju (dju)") { "dyu" }
    else if str_equals(raw, "jo (djo)") { "dyo" }
    else { raw };
    String::from_str(k)
}

/// Normalising twice gives the same key as normalising once: no canonical
/// key is itself an alias.
pub proof fn lemma_normalize_idempotent(raw: Seq<char>)
    ensures
        canonical_key(canonical_key(raw)) == canonical_key(raw),
{
    reveal_strlit("shi");
    reveal_strlit("chi");
    reveal_strlit("tsu");
    reveal_strlit("sha");
    reveal_strlit("shu");
    reveal_strlit("sho");
    reveal_strlit("cha");
    reveal_strlit("chu");
    reveal_strlit("cho");
    reveal_strlit("n");
    reveal_strlit("ja");
    reveal_strlit("ji");
    reveal_strlit("ju");
    reveal_strlit("jo");
    reveal_strlit("ji (dji)");
    reveal_strlit("zu (dzu)");
    reveal_strlit("ja (dja)");
    reveal_strlit("ju (dju)");
    reveal_strlit("jo (djo)");
    reveal_strlit("si");
    reveal_strlit("ti");
    reveal_strlit("tu");
    reveal_strlit("sya");
    reveal_strlit("syu");
    reveal_strlit("syo");
    reveal_strlit("tya");
    reveal_strlit("tyu");
    reveal_strlit("tyo");
    reveal_strlit("Nu");
    reveal_strlit("zya");
    reveal_strlit("zi");
    reveal_strlit("zyu");
    reveal_strlit("zyo");
    reveal_strlit("di");
    reveal_strlit("du");
    reveal_strlit("dya");
    reveal_strlit("dyu");
    reveal_strlit("dyo");
    let k = canonical_key(raw);
    if k != raw {
        assert((k.len() == 2 || k.len() == 3) && k[0] != 'j' && (k[1] == 'i' || k[1] == 'u' || k[1] == 'y'));
    }
}

} // verus!
