//! The records the table is built from, and the script the table shows.
use vstd::prelude::*;

verus! {

/// The script in which kana are shown.
#[derive(PartialEq, Eq, Structural, Clone, Copy, Debug)]
pub enum KanaType {
    Hiragana,
    Katakana,
}

/// The lower-case name of a script.
pub open spec fn script_name(t: KanaType) -> Seq<char> {
    match t {
        KanaType::Hiragana => "hiragana"@,
        KanaType::Katakana => "katakana"@,
    }
}

impl KanaType {
    /// The lower-case name of the script (`"hiragana"`, `"katakana"`).
    pub fn name(&self) -> (r: &'static str)
        ensures
            r@ == script_name(*self),
    {
        match self {
            KanaType::Hiragana => "hiragana",
            KanaType::Katakana => "katakana",
        }
    }
}

/// One syllable of the syllabary, as loaded.
#[derive(Debug)]
pub struct Kana {
    pub romaji: String,
    pub script_type: String,
    pub hiragana: String,
    pub katakana: String,
}

/// The written form of `k` in script `t`.
pub open spec fn kana_form(k: Kana, t: KanaType) -> Seq<char> {
    match t {
        KanaType::Hiragana => k.hiragana@,
        KanaType::Katakana => k.katakana@,
    }
}

impl Kana {
    /// A copy of this record.
    pub fn duplicate(&self) -> (r: Kana)
        ensures
            r == *self,
    {
        Kana {
            romaji: self.romaji.clone(),
            script_type: self.script_type.clone(),
            hiragana: self.hiragana.clone(),
            katakana: self.katakana.clone(),
        }
    }

    /// The written form of this syllable in script `t`.
    pub fn form(&self, t: KanaType) -> (r: &String)
        ensures
            r@ == kana_form(*self, t),
    {
        match t {
            KanaType::Hiragana => &self.hiragana,
            KanaType::Katakana => &self.katakana,
        }
    }
}

/// A vocabulary example shown beside a focused syllable.
#[derive(Debug)]
pub struct KanaCard {
    pub romaji: String,
    pub meaning: String,
    pub kana: String,
    pub kanji: String,
    pub src: String,
}

impl KanaCard {
    /// A copy of this card.
    pub fn duplicate(&self) -> (r: KanaCard)
        ensures
            r == *self,
    {
        KanaCard {
            romaji: self.romaji.clone(),
            meaning: self.meaning.clone(),
            kana: self.kana.clone(),
            kanji: self.kanji.clone(),
            src: self.src.clone(),
        }
    }
}

/// Settings shared by the whole table.
#[derive(Clone, Copy, Debug)]
pub struct AppConfig {
    pub kana_type: KanaType,
}

impl Default for AppConfig {
    fn default() -> (r: AppConfig)
        ensures
            r.kana_type == KanaType::Hiragana,
    {
        AppConfig { kana_type: KanaType::Hiragana }
    }
}

/// The label of the button that selects script `current_type`, marked when
/// it is the script `kana_type` in use.
pub open spec fn display_name(current_type: KanaType, kana_type: KanaType) -> Seq<char> {
    if current_type == kana_type {
        "\u{2705} "@ + script_name(current_type)
    } else {
        script_name(current_type)
    }
}

/// The label of the button that selects script `current_type`.
pub fn get_kana_display_name(current_type: &KanaType, kana_type: &KanaType) -> (r: String)
    ensures
        r@ == display_name(*current_type, *kana_type),
{
    let name = current_type.name();
    if *current_type == *kana_type {
        String::from_str("\u{2705} ").concat(name)
    } else {
        String::from_str(name)
    }
}

} // verus!
