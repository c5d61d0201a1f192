//! Languages: which ones a country speaks, what a player understands, and how
//! fast he learns.

#[allow(unused_imports)]
use vstd::prelude::*;

verus! {

/// The languages of the football world.
#[derive(Clone, Copy, Debug, PartialEq, Eq, Hash, Structural)]
pub enum Language {
    English,
    Spanish,
    Portuguese,
    French,
    German,
    Italian,
    Dutch,
    Russian,
    Turkish,
    Arabic,
    Japanese,
    Korean,
    Chinese,
    Swedish,
    Norwegian,
    Danish,
    Finnish,
    Polish,
    Czech,
    Romanian,
    Ukrainian,
    Serbian,
    Croatian,
    Greek,
    Hungarian,
    Bulgarian,
    Slovak,
    Slovenian,
    Albanian,
    Bosnian,
    Georgian,
    Armenian,
    Azerbaijani,
    Kazakh,
    Hebrew,
    Persian,
    Hindi,
    Bengali,
    Thai,
    Vietnamese,
    Indonesian,
    Malay,
    Swahili,
    Yoruba,
    Hausa,
    Amharic,
    Afrikaans,
    Icelandic,
}

/// The languages of the country with the two-letter code `ab`: the first one, and the second
/// where there is one. Codes without a language of their own get along in English.
pub open spec fn spoken_in(a: char, b: char) -> (Language, Option<Language>) {
    match (a, b) {
        ('e', 's') | ('a', 'd') | ('m', 'c') | ('g', 'i') | ('a', 'r') | ('c', 'o')
        | ('c', 'l') | ('u', 'y') | ('p', 'y') | ('p', 'e') | ('e', 'c') | ('b', 'o')
        | ('v', 'e') | ('m', 'x') | ('s', 'v') | ('g', 't') | ('h', 'n') | ('n', 'i')
        | ('c', 'r') | ('p', 'a') | ('c', 'u') | ('d', 'o') | ('p', 'r') => (Language::Spanish, None),
        ('f', 'r') | ('h', 't') | ('g', 'p') | ('m', 'q') | ('m', 'f') | ('n', 'c')
        | ('w', 'f') | ('c', 'i') | ('c', 'm') | ('s', 'n') | ('m', 'l') | ('b', 'f')
        | ('n', 'e') | ('t', 'd') | ('c', 'f') | ('c', 'g') | ('g', 'a') | ('b', 'j')
        | ('t', 'g') | ('g', 'w') | ('g', 'q') | ('d', 'j') | ('b', 'i') | ('m', 'g')
        | ('k', 'm') | ('y', 't') | ('r', 'e') | ('s', 't') => (Language::French, None),
        ('d', 'e') | ('a', 't') | ('c', 'h') | ('l', 'i') => (Language::German, None),
        ('i', 't') | ('s', 'm') => (Language::Italian, None),
        ('p', 't') | ('b', 'r') | ('a', 'o') | ('m', 'z') | ('c', 'v') => (Language::Portuguese, None),
        ('n', 'l') | ('a', 'w') => (Language::Dutch, None),
        ('b', 'e') => (Language::Dutch, Some(Language::French)),
        ('l', 'u') => (Language::French, Some(Language::German)),
        ('s', 'e') => (Language::Swedish, None),
        ('n', 'o') => (Language::Norwegian, None),
        ('d', 'k') | ('f', 'o') => (Language::Danish, None),
        ('f', 'i') => (Language::Finnish, None),
        ('i', 's') => (Language::Icelandic, None),
        ('p', 'l') => (Language::Polish, None),
        ('c', 'z') => (Language::Czech, None),
        ('s', 'k') => (Language::Slovak, None),
        ('h', 'u') => (Language::Hungarian, None),
        ('r', 'o') | ('m', 'd') => (Language::Romanian, None),
        ('b', 'g') => (Language::Bulgarian, None),
        ('r', 's') | ('m', 'e') => (Language::Serbian, None),
        ('h', 'r') => (Language::Croatian, None),
        ('s', 'i') => (Language::Slovenian, None),
        ('b', 'a') => (Language::Bosnian, None),
        ('a', 'l') | ('m', 'k') => (Language::Albanian, None),
        ('g', 'r') | ('c', 'y') => (Language::Greek, None),
        ('e', 'e') | ('l', 'v') | ('l', 't') | ('r', 'u') | ('b', 'y') | ('k', 'z')
        | ('k', 'g') | ('u', 'z') | ('t', 'j') | ('t', 'm') => (Language::Russian, None),
        ('u', 'a') => (Language::Ukrainian, None),
        ('g', 'e') => (Language::Georgian, None),
        ('a', 'm') => (Language::Armenian, None),
        ('a', 'z') => (Language::Azerbaijani, None),
        ('t', 'r') => (Language::Turkish, None),
        ('i', 'l') => (Language::Hebrew, None),
        ('i', 'r') | ('a', 'f') => (Language::Persian, None),
        ('s', 'a') | ('a', 'e') | ('q', 'a') | ('k', 'w') | ('b', 'h') | ('o', 'm')
        | ('j', 'o') | ('l', 'b') | ('i', 'q') | ('y', 'e') | ('e', 'g') | ('d', 'z')
        | ('m', 'a') | ('t', 'n') | ('l', 'y') | ('s', 'd') | ('p', 's') | ('m', 'r') => (Language::Arabic, None),
        ('j', 'p') => (Language::Japanese, None),
        ('k', 'r') | ('k', 'p') => (Language::Korean, None),
        ('c', 'n') | ('h', 'k') | ('m', 'o') | ('t', 'w') => (Language::Chinese, None),
        ('t', 'h') => (Language::Thai, None),
        ('v', 'n') => (Language::Vietnamese, None),
        ('i', 'd') => (Language::Indonesian, None),
        ('m', 'y') | ('s', 'g') | ('b', 'n') => (Language::Malay, None),
        ('i', 'n') | ('p', 'k') | ('b', 'd') | ('l', 'k') | ('n', 'p') | ('m', 'v') => (Language::Hindi, None),
        ('e', 't') | ('s', 'o') => (Language::Swahili, None),
        _ => (Language::English, None),
    }
}

/// The languages of the country with this code. A code that is not two letters long counts as
/// unknown.
pub open spec fn country_languages(code: Seq<char>) -> Seq<Language> {
    if code.len() == 2 {
        let (first, second) = spoken_in(code[0], code[1]);
        match second {
            Some(s) => seq![first, s],
            None => seq![first],
        }
    } else {
        seq![Language::English]
    }
}

/// The place of a language in the masks.
pub open spec fn index(l: Language) -> u64 {
    match l {
        Language::English => 0,
        Language::Spanish => 1,
        Language::Portuguese => 2,
        Language::French => 3,
        Language::German => 4,
        Language::Italian => 5,
        Language::Dutch => 6,
        Language::Russian => 7,
        Language::Turkish => 8,
        Language::Arabic => 9,
        Language::Japanese => 10,
        Language::Korean => 11,
        Language::Chinese => 12,
        Language::Swedish => 13,
        Language::Norwegian => 14,
        Language::Danish => 15,
        Language::Finnish => 16,
        Language::Polish => 17,
        Language::Czech => 18,
        Language::Romanian => 19,
        Language::Ukrainian => 20,
        Language::Serbian => 21,
        Language::Croatian => 22,
        Language::Greek => 23,
        Language::Hungarian => 24,
        Language::Bulgarian => 25,
        Language::Slovak => 26,
        Language::Slovenian => 27,
        Language::Albanian => 28,
        Language::Bosnian => 29,
        Language::Georgian => 30,
        Language::Armenian => 31,
        Language::Azerbaijani => 32,
        Language::Kazakh => 33,
        Language::Hebrew => 34,
        Language::Persian => 35,
        Language::Hindi => 36,
        Language::Bengali => 37,
        Language::Thai => 38,
        Language::Vietnamese => 39,
        Language::Indonesian => 40,
        Language::Malay => 41,
        Language::Swahili => 42,
        Language::Yoruba => 43,
        Language::Hausa => 44,
        Language::Amharic => 45,
        Language::Afrikaans => 46,
        Language::Icelandic => 47,
    }
}

/// The bit of a language in the masks.
pub open spec fn bit(l: Language) -> u64 {
    1u64 << index(l)
}

/// The mask of a list of languages.
pub open spec fn mask_of(s: Seq<Language>) -> u64
    decreases s.len(),
{
    if s.len() == 0 {
        0
    } else {
        mask_of(s.drop_last()) | bit(s.last())
    }
}

/// Whether the mask holds the language.
pub open spec fn mask_has(mask: u64, l: Language) -> bool {
    mask & bit(l) != 0
}

/// The display name of a language.
pub open spec fn name_of(l: Language) -> Seq<char> {
    match l {
        Language::English => "English"@,
        Language::Spanish => "Spanish"@,
        Language::Portuguese => "Portuguese"@,
        Language::French => "French"@,
        Language::German => "German"@,
        Language::Italian => "Italian"@,
        Language::Dutch => "Dutch"@,
        Language::Russian => "Russian"@,
        Language::Turkish => "Turkish"@,
        Language::Arabic => "Arabic"@,
        Language::Japanese => "Japanese"@,
        Language::Korean => "Korean"@,
        Language::Chinese => "Chinese"@,
        Language::Swedish => "Swedish"@,
        Language::Norwegian => "Norwegian"@,
        Language::Danish => "Danish"@,
        Language::Finnish => "Finnish"@,
        Language::Polish => "Polish"@,
        Language::Czech => "Czech"@,
        Language::Romanian => "Romanian"@,
        Language::Ukrainian => "Ukrainian"@,
        Language::Serbian => "Serbian"@,
        Language::Croatian => "Croatian"@,
        Language::Greek => "Greek"@,
        Language::Hungarian => "Hungarian"@,
        Language::Bulgarian => "Bulgarian"@,
        Language::Slovak => "Slovak"@,
        Language::Slovenian => "Slovenian"@,
        Language::Albanian => "Albanian"@,
        Language::Bosnian => "Bosnian"@,
        Language::Georgian => "Georgian"@,
        Language::Armenian => "Armenian"@,
        Language::Azerbaijani => "Azerbaijani"@,
        Language::Kazakh => "Kazakh"@,
        Language::Hebrew => "Hebrew"@,
        Language::Persian => "Persian"@,
        Language::Hindi => "Hindi"@,
        Language::Bengali => "Bengali"@,
        Language::Thai => "Thai"@,
        Language::Vietnamese => "Vietnamese"@,
        Language::Indonesian => "Indonesian"@,
        Language::Malay => "Malay"@,
        Language::Swahili => "Swahili"@,
        Language::Yoruba => "Yoruba"@,
        Language::Hausa => "Hausa"@,
        Language::Amharic => "Amharic"@,
        Language::Afrikaans => "Afrikaans"@,
        Language::Icelandic => "Icelandic"@,
    }
}

/// The translation key of a language.
pub open spec fn key_of(l: Language) -> Seq<char> {
    match l {
        Language::English => "lang_english"@,
        Language::Spanish => "lang_spanish"@,
        Language::Portuguese => "lang_portuguese"@,
        Language::French => "lang_french"@,
        Language::German => "lang_german"@,
        Language::Italian => "lang_italian"@,
        Language::Dutch => "lang_dutch"@,
        Language::Russian => "lang_russian"@,
        Language::Turkish => "lang_turkish"@,
        Language::Arabic => "lang_arabic"@,
        Language::Japanese => "lang_japanese"@,
        Language::Korean => "lang_korean"@,
        Language::Chinese => "lang_chinese"@,
        Language::Swedish => "lang_swedish"@,
        Language::Norwegian => "lang_norwegian"@,
        Language::Danish => "lang_danish"@,
        Language::Finnish => "lang_finnish"@,
        Language::Polish => "lang_polish"@,
        Language::Czech => "lang_czech"@,
        Language::Romanian => "lang_romanian"@,
        Language::Ukrainian => "lang_ukrainian"@,
        Language::Serbian => "lang_serbian"@,
        Language::Croatian => "lang_croatian"@,
        Language::Greek => "lang_greek"@,
        Language::Hungarian => "lang_hungarian"@,
        Language::Bulgarian => "lang_bulgarian"@,
        Language::Slovak => "lang_slovak"@,
        Language::Slovenian => "lang_slovenian"@,
        Language::Albanian => "lang_albanian"@,
        Language::Bosnian => "lang_bosnian"@,
        Language::Georgian => "lang_georgian"@,
        Language::Armenian => "lang_armenian"@,
        Language::Azerbaijani => "lang_azerbaijani"@,
        Language::Kazakh => "lang_kazakh"@,
        Language::Hebrew => "lang_hebrew"@,
        Language::Persian => "lang_persian"@,
        Language::Hindi => "lang_hindi"@,
        Language::Bengali => "lang_bengali"@,
        Language::Thai => "lang_thai"@,
        Language::Vietnamese => "lang_vietnamese"@,
        Language::Indonesian => "lang_indonesian"@,
        Language::Malay => "lang_malay"@,
        Language::Swahili => "lang_swahili"@,
        Language::Yoruba => "lang_yoruba"@,
        Language::Hausa => "lang_hausa"@,
        Language::Amharic => "lang_amharic"@,
        Language::Afrikaans => "lang_afrikaans"@,
        Language::Icelandic => "lang_icelandic"@,
    }
}

fn languages_of(a: char, b: char) -> (r: (Language, Option<Language>))
    ensures
        r == spoken_in(a, b),
{
    match (a, b) {
        ('e', 's') | ('a', 'd') | ('m', 'c') | ('g', 'i') | ('a', 'r') | ('c', 'o')
        | ('c', 'l') | ('u', 'y') | ('p', 'y') | ('p', 'e') | ('e', 'c') | ('b', 'o')
        | ('v', 'e') | ('m', 'x') | ('s', 'v') | ('g', 't') | ('h', 'n') | ('n', 'i')
        | ('c', 'r') | ('p', 'a') | ('c', 'u') | ('d', 'o') | ('p', 'r') => (Language::Spanish, None),
        ('f', 'r') | ('h', 't') | ('g', 'p') | ('m', 'q') | ('m', 'f') | ('n', 'c')
        | ('w', 'f') | ('c', 'i') | ('c', 'm') | ('s', 'n') | ('m', 'l') | ('b', 'f')
        | ('n', 'e') | ('t', 'd') | ('c', 'f') | ('c', 'g') | ('g', 'a') | ('b', 'j')
        | ('t', 'g') | ('g', 'w') | ('g', 'q') | ('d', 'j') | ('b', 'i') | ('m', 'g')
        | ('k', 'm') | ('y', 't') | ('r', 'e') | ('s', 't') => (Language::French, None),
        ('d', 'e') | ('a', 't') | ('c', 'h') | ('l', 'i') => (Language::German, None),
        ('i', 't') | ('s', 'm') => (Language::Italian, None),
        ('p', 't') | ('b', 'r') | ('a', 'o') | ('m', 'z') | ('c', 'v') => (Language::Portuguese, None),
        ('n', 'l') | ('a', 'w') => (Language::Dutch, None),
        ('b', 'e') => (Language::Dutch, Some(Language::French)),
        ('l', 'u') => (Language::French, Some(Language::German)),
        ('s', 'e') => (Language::Swedish, None),
        ('n', 'o') => (Language::Norwegian, None),
        ('d', 'k') | ('f', 'o') => (Language::Danish, None),
        ('f', 'i') => (Language::Finnish, None),
        ('i', 's') => (Language::Icelandic, None),
        ('p', 'l') => (Language::Polish, None),
        ('c', 'z') => (Language::Czech, None),
        ('s', 'k') => (Language::Slovak, None),
        ('h', 'u') => (Language::Hungarian, None),
        ('r', 'o') | ('m', 'd') => (Language::Romanian, None),
        ('b', 'g') => (Language::Bulgarian, None),
        ('r', 's') | ('m', 'e') => (Language::Serbian, None),
        ('h', 'r') => (Language::Croatian, None),
        ('s', 'i') => (Language::Slovenian, None),
        ('b', 'a') => (Language::Bosnian, None),
        ('a', 'l') | ('m', 'k') => (Language::Albanian, None),
        ('g', 'r') | ('c', 'y') => (Language::Greek, None),
        ('e', 'e') | ('l', 'v') | ('l', 't') | ('r', 'u') | ('b', 'y') | ('k', 'z')
        | ('k', 'g') | ('u', 'z') | ('t', 'j') | ('t', 'm') => (Language::Russian, None),
        ('u', 'a') => (Language::Ukrainian, None),
        ('g', 'e') => (Language::Georgian, None),
        ('a', 'm') => (Language::Armenian, None),
        ('a', 'z') => (Language::Azerbaijani, None),
        ('t', 'r') => (Language::Turkish, None),
        ('i', 'l') => (Language::Hebrew, None),
        ('i', 'r') | ('a', 'f') => (Language::Persian, None),
        ('s', 'a') | ('a', 'e') | ('q', 'a') | ('k', 'w') | ('b', 'h') | ('o', 'm')
        | ('j', 'o') | ('l', 'b') | ('i', 'q') | ('y', 'e') | ('e', 'g') | ('d', 'z')
        | ('m', 'a') | ('t', 'n') | ('l', 'y') | ('s', 'd') | ('p', 's') | ('m', 'r') => (Language::Arabic, None),
        ('j', 'p') => (Language::Japanese, None),
        ('k', 'r') | ('k', 'p') => (Language::Korean, None),
        ('c', 'n') | ('h', 'k') | ('m', 'o') | ('t', 'w') => (Language::Chinese, None),
        ('t', 'h') => (Language::Thai, None),
        ('v', 'n') => (Language::Vietnamese, None),
        ('i', 'd') => (Language::Indonesian, None),
        ('m', 'y') | ('s', 'g') | ('b', 'n') => (Language::Malay, None),
        ('i', 'n') | ('p', 'k') | ('b', 'd') | ('l', 'k') | ('n', 'p') | ('m', 'v') => (Language::Hindi, None),
        ('e', 't') | ('s', 'o') => (Language::Swahili, None),
        _ => (Language::English, None),
    }
}

impl Language {
    /// The languages of a country.
    pub fn from_country_code(code: &str) -> (r: Vec<Language>)
        ensures
            r@ == country_languages(code@),
    {
        if code.unicode_len() == 2 {
            let (first, second) = languages_of(code.get_char(0), code.get_char(1));
            match second {
                Some(s) => vec![first, s],
                None => vec![first],
            }
        } else {
            vec![Language::English]
        }
    }

    /// The display name.
    pub fn name(&self) -> (r: &'static str)
        ensures
            r@ == name_of(*self),
    {
        match self {
            Language::English => "English",
            Language::Spanish => "Spanish",
            Language::Portuguese => "Portuguese",
            Language::French => "French",
            Language::German => "German",
            Language::Italian => "Italian",
            Language::Dutch => "Dutch",
            Language::Russian => "Russian",
            Language::Turkish => "Turkish",
            Language::Arabic => "Arabic",
            Language::Japanese => "Japanese",
            Language::Korean => "Korean",
            Language::Chinese => "Chinese",
            Language::Swedish => "Swedish",
            Language::Norwegian => "Norwegian",
            Language::Danish => "Danish",
            Language::Finnish => "Finnish",
            Language::Polish => "Polish",
            Language::Czech => "Czech",
            Language::Romanian => "Romanian",
            Language::Ukrainian => "Ukrainian",
            Language::Serbian => "Serbian",
            Language::Croatian => "Croatian",
            Language::Greek => "Greek",
            Language::Hungarian => "Hungarian",
            Language::Bulgarian => "Bulgarian",
            Language::Slovak => "Slovak",
            Language::Slovenian => "Slovenian",
            Language::Albanian => "Albanian",
            Language::Bosnian => "Bosnian",
            Language::Georgian => "Georgian",
            Language::Armenian => "Armenian",
            Language::Azerbaijani => "Azerbaijani",
            Language::Kazakh => "Kazakh",
            Language::Hebrew => "Hebrew",
            Language::Persian => "Persian",
            Language::Hindi => "Hindi",
            Language::Bengali => "Bengali",
            Language::Thai => "Thai",
            Language::Vietnamese => "Vietnamese",
            Language::Indonesian => "Indonesian",
            Language::Malay => "Malay",
            Language::Swahili => "Swahili",
            Language::Yoruba => "Yoruba",
            Language::Hausa => "Hausa",
            Language::Amharic => "Amharic",
            Language::Afrikaans => "Afrikaans",
            Language::Icelandic => "Icelandic",
        }
    }

    /// The translation key.
    pub fn i18n_key(&self) -> (r: &'static str)
        ensures
            r@ == key_of(*self),
    {
        match self {
            Language::English => "lang_english",
            Language::Spanish => "lang_spanish",
            Language::Portuguese => "lang_portuguese",
            Language::French => "lang_french",
            Language::German => "lang_german",
            Language::Italian => "lang_italian",
            Language::Dutch => "lang_dutch",
            Language::Russian => "lang_russian",
            Language::Turkish => "lang_turkish",
            Language::Arabic => "lang_arabic",
            Language::Japanese => "lang_japanese",
            Language::Korean => "lang_korean",
            Language::Chinese => "lang_chinese",
            Language::Swedish => "lang_swedish",
            Language::Norwegian => "lang_norwegian",
            Language::Danish => "lang_danish",
            Language::Finnish => "lang_finnish",
            Language::Polish => "lang_polish",
            Language::Czech => "lang_czech",
            Language::Romanian => "lang_romanian",
            Language::Ukrainian => "lang_ukrainian",
            Language::Serbian => "lang_serbian",
            Language::Croatian => "lang_croatian",
            Language::Greek => "lang_greek",
            Language::Hungarian => "lang_hungarian",
            Language::Bulgarian => "lang_bulgarian",
            Language::Slovak => "lang_slovak",
            Language::Slovenian => "lang_slovenian",
            Language::Albanian => "lang_albanian",
            Language::Bosnian => "lang_bosnian",
            Language::Georgian => "lang_georgian",
            Language::Armenian => "lang_armenian",
            Language::Azerbaijani => "lang_azerbaijani",
            Language::Kazakh => "lang_kazakh",
            Language::Hebrew => "lang_hebrew",
            Language::Persian => "lang_persian",
            Language::Hindi => "lang_hindi",
            Language::Bengali => "lang_bengali",
            Language::Thai => "lang_thai",
            Language::Vietnamese => "lang_vietnamese",
            Language::Indonesian => "lang_indonesian",
            Language::Malay => "lang_malay",
            Language::Swahili => "lang_swahili",
            Language::Yoruba => "lang_yoruba",
            Language::Hausa => "lang_hausa",
            Language::Amharic => "lang_amharic",
            Language::Afrikaans => "lang_afrikaans",
            Language::Icelandic => "lang_icelandic",
        }
    }

    /// The place of the language in the masks.
    fn index(&self) -> (r: u64)
        ensures
            r == index(*self),
            r < 48,
    {
        match self {
            Language::English => 0,
            Language::Spanish => 1,
            Language::Portuguese => 2,
            Language::French => 3,
            Language::German => 4,
            Language::Italian => 5,
            Language::Dutch => 6,
            Language::Russian => 7,
            Language::Turkish => 8,
            Language::Arabic => 9,
            Language::Japanese => 10,
            Language::Korean => 11,
            Language::Chinese => 12,
            Language::Swedish => 13,
            Language::Norwegian => 14,
            Language::Danish => 15,
            Language::Finnish => 16,
            Language::Polish => 17,
            Language::Czech => 18,
            Language::Romanian => 19,
            Language::Ukrainian => 20,
            Language::Serbian => 21,
            Language::Croatian => 22,
            Language::Greek => 23,
            Language::Hungarian => 24,
            Language::Bulgarian => 25,
            Language::Slovak => 26,
            Language::Slovenian => 27,
            Language::Albanian => 28,
            Language::Bosnian => 29,
            Language::Georgian => 30,
            Language::Armenian => 31,
            Language::Azerbaijani => 32,
            Language::Kazakh => 33,
            Language::Hebrew => 34,
            Language::Persian => 35,
            Language::Hindi => 36,
            Language::Bengali => 37,
            Language::Thai => 38,
            Language::Vietnamese => 39,
            Language::Indonesian => 40,
            Language::Malay => 41,
            Language::Swahili => 42,
            Language::Yoruba => 43,
            Language::Hausa => 44,
            Language::Amharic => 45,
            Language::Afrikaans => 46,
            Language::Icelandic => 47,
        }
    }

    /// The bit of the language in the masks: one bit, below the forty-eighth, that no other
    /// language has.
    pub fn mask_bit(self) -> (r: u64)
        ensures
            r == bit(self),
            r != 0,
            r & (r - 1) as u64 == 0,
            r < 1u64 << 48,
            forall|other: Language| other != self ==> r & #[trigger] bit(other) == 0,
    {
        proof {
            assert forall|other: Language| other != self implies bit(self) & #[trigger] bit(other)
                == 0 by {
                lemma_bits_apart(self, other);
            }
            lemma_bits_apart(self, self);
        }
        1u64 << self.index()
    }

    /// The mask of a country's languages.
    pub fn country_language_mask(code: &str) -> (r: u64)
        ensures
            r == mask_of(country_languages(code@)),
    {
        let languages = Language::from_country_code(code);
        let mut mask: u64 = 0;
        let mut i: usize = 0;
        assert(languages@.take(0) =~= Seq::empty());
        while i < languages.len()
            invariant
                i <= languages@.len(),
                mask == mask_of(languages@.take(i as int)),
            decreases languages@.len() - i,
        {
            assert(languages@.take(i + 1).drop_last() =~= languages@.take(i as int));
            mask = mask | languages[i].mask_bit();
            i = i + 1;
        }
        assert(languages@.take(i as int) =~= languages@);
        mask
    }

    /// The mask of the bridge languages, English and Spanish: a dressing room can run in one
    /// of them almost anywhere.
    pub fn bridge_language_mask() -> (r: u64)
        ensures
            r == bridge_mask(),
    {
        let mask: u64 = 0;
        let mask: u64 = mask | Language::English.mask_bit();
        proof {
            assert(0u64 | 1u64 == 1u64) by (bit_vector);
            let s = seq![Language::English, Language::Spanish];
            assert(s.drop_last() =~= seq![Language::English]);
            assert(s.drop_last().drop_last() =~= Seq::<Language>::empty());
            reveal_with_fuel(mask_of, 3);
        }
        mask | Language::Spanish.mask_bit()
    }
}

/// The mask of the bridge languages.
pub open spec fn bridge_mask() -> u64 {
    mask_of(seq![Language::English, Language::Spanish])
}

/// How well a player speaks a language.
#[derive(Clone, Copy, Debug, PartialEq, Eq, Structural)]
pub struct PlayerLanguage {
    pub language: Language,
    /// From 0, nothing, to 100, fully fluent.
    pub proficiency: u8,
    pub is_native: bool,
}

impl PlayerLanguage {
    /// Whether the player gets by in the language without help.
    pub open spec fn fluent(self) -> bool {
        self.is_native || self.proficiency >= 70
    }

    /// Whether the player can hold a conversation.
    pub open spec fn conversational(self) -> bool {
        self.fluent() || self.proficiency >= 40
    }

    /// The key of the level's label.
    pub open spec fn level(self) -> Seq<char> {
        if self.is_native {
            "lang_level_native"@
        } else if self.proficiency >= 90 {
            "lang_level_fluent"@
        } else if self.proficiency >= 70 {
            "lang_level_good"@
        } else if self.proficiency >= 40 {
            "lang_level_basic"@
        } else if self.proficiency >= 10 {
            "lang_level_beginner"@
        } else {
            "lang_level_none"@
        }
    }

    /// A mother tongue.
    pub fn native(language: Language) -> (r: Self)
        ensures
            r == (PlayerLanguage { language, proficiency: 100, is_native: true }),
    {
        PlayerLanguage { language, proficiency: 100, is_native: true }
    }

    /// A language being learned.
    pub fn learning(language: Language, proficiency: u8) -> (r: Self)
        ensures
            r == (PlayerLanguage { language, proficiency, is_native: false }),
    {
        PlayerLanguage { language, proficiency, is_native: false }
    }

    /// The key of the level's label.
    pub fn level_key(&self) -> (r: &'static str)
        ensures
            r@ == self.level(),
    {
        if self.is_native {
            "lang_level_native"
        } else if self.proficiency >= 90 {
            "lang_level_fluent"
        } else if self.proficiency >= 70 {
            "lang_level_good"
        } else if self.proficiency >= 40 {
            "lang_level_basic"
        } else if self.proficiency >= 10 {
            "lang_level_beginner"
        } else {
            "lang_level_none"
        }
    }
}

/// What a player speaks, as two masks.
#[derive(Clone, Copy, Debug, PartialEq, Eq, Structural)]
pub struct LanguageProfile {
    pub fluent_mask: u64,
    pub conversational_mask: u64,
}

/// Whether a list holds the language on a fluent level.
pub open spec fn speaks_fluently(languages: Seq<PlayerLanguage>, l: Language) -> bool {
    exists|i: int|
        0 <= i < languages.len() && (#[trigger] languages[i]).language == l
            && languages[i].fluent()
}

/// Whether a list holds the language on a conversational level.
pub open spec fn converses_in(languages: Seq<PlayerLanguage>, l: Language) -> bool {
    exists|i: int|
        0 <= i < languages.len() && (#[trigger] languages[i]).language == l
            && languages[i].conversational()
}

/// The mask of the languages that a list holds on a fluent level.
pub open spec fn fluent_mask_of(languages: Seq<PlayerLanguage>) -> u64
    decreases languages.len(),
{
    if languages.len() == 0 {
        0
    } else {
        let rest = fluent_mask_of(languages.drop_last());
        if languages.last().fluent() {
            rest | bit(languages.last().language)
        } else {
            rest
        }
    }
}

/// The mask of the languages that a list holds on a conversational level.
pub open spec fn conversational_mask_of(languages: Seq<PlayerLanguage>) -> u64
    decreases languages.len(),
{
    if languages.len() == 0 {
        0
    } else {
        let rest = conversational_mask_of(languages.drop_last());
        if languages.last().conversational() {
            rest | bit(languages.last().language)
        } else {
            rest
        }
    }
}

/// How well someone with these masks fits a club whose country speaks `club`, in percent.
pub open spec fn affinity(fluent: u64, conversational: u64, club: u64) -> int {
    if club == 0 || (fluent == 0 && conversational == 0) {
        100
    } else if fluent & club != 0 {
        100
    } else if conversational & club != 0 {
        65
    } else if fluent & bridge_mask() != 0 {
        45
    } else if conversational & bridge_mask() != 0 {
        25
    } else {
        0
    }
}

impl LanguageProfile {
    /// The profile of a list of languages.
    pub fn from_languages(languages: &[PlayerLanguage]) -> (r: Self)
        ensures
            r.fluent_mask == fluent_mask_of(languages@),
            r.conversational_mask == conversational_mask_of(languages@),
    {
        let mut profile = LanguageProfile { fluent_mask: 0, conversational_mask: 0 };
        let mut i: usize = 0;
        assert(languages@.take(0) =~= Seq::empty());
        while i < languages.len()
            invariant
                i <= languages@.len(),
                profile.fluent_mask == fluent_mask_of(languages@.take(i as int)),
                profile.conversational_mask == conversational_mask_of(languages@.take(i as int)),
            decreases languages@.len() - i,
        {
            assert(languages@.take(i + 1).drop_last() =~= languages@.take(i as int));
            let entry = &languages[i];
            let bit: u64 = entry.language.mask_bit();
            if entry.is_native || entry.proficiency >= 70 {
                profile.fluent_mask = profile.fluent_mask | bit;
                profile.conversational_mask = profile.conversational_mask | bit;
            } else if entry.proficiency >= 40 {
                profile.conversational_mask = profile.conversational_mask | bit;
            }
            i = i + 1;
        }
        assert(languages@.take(i as int) =~= languages@);
        profile
    }

    /// How well the player fits a club whose country speaks the languages of the mask, in
    /// percent. Where nothing is known of one side, nothing is held against the other.
    pub fn affinity_for(&self, club_language_mask: u64) -> (r: u32)
        ensures
            r == affinity(self.fluent_mask, self.conversational_mask, club_language_mask),
    {
        if club_language_mask == 0 {
            return 100;
        }
        if self.fluent_mask == 0 && self.conversational_mask == 0 {
            return 100;
        }
        if self.fluent_mask & club_language_mask != 0 {
            return 100;
        }
        if self.conversational_mask & club_language_mask != 0 {
            return 65;
        }
        let bridge: u64 = Language::bridge_language_mask();
        if self.fluent_mask & bridge != 0 {
            return 45;
        }
        if self.conversational_mask & bridge != 0 {
            return 25;
        }
        0
    }

    /// The fit of someone who speaks the languages of one country to a club in another, in
    /// percent.
    pub fn nationality_affinity(player_country_code: &str, club_country_code: &str) -> (r: u32)
        ensures
            r == affinity(
                mask_of(country_languages(player_country_code@)),
                mask_of(country_languages(player_country_code@)),
                mask_of(country_languages(club_country_code@)),
            ),
    {
        let native: u64 = Language::country_language_mask(player_country_code);
        let profile = LanguageProfile { fluent_mask: native, conversational_mask: native };
        profile.affinity_for(Language::country_language_mask(club_country_code))
    }
}

impl Default for LanguageProfile {
    fn default() -> (r: Self)
        ensures
            r == (LanguageProfile { fluent_mask: 0, conversational_mask: 0 }),
    {
        LanguageProfile { fluent_mask: 0, conversational_mask: 0 }
    }
}

/// The parts of a week's progress that come from age, standing and what is already known, in
/// percent.
#[derive(Clone, Copy, Debug, PartialEq, Eq, Structural)]
pub struct LearningFactors {
    pub age: u32,
    pub star: u32,
    pub progress: u32,
}

/// The learning factors of a player. Below 25 he learns faster, above 30 slower.
pub open spec fn learning_factors(age: u8, ability: u8, proficiency: u8) -> LearningFactors {
    LearningFactors {
        age: if age <= 22 {
            130
        } else if age < 25 {
            115
        } else if age <= 30 {
            100
        } else if age <= 32 {
            85
        } else {
            70
        },
        star: if ability > 160 {
            40
        } else if ability > 145 {
            65
        } else if ability > 130 {
            85
        } else {
            100
        },
        progress: if proficiency >= 85 {
            40
        } else if proficiency >= 70 {
            60
        } else if proficiency >= 50 {
            80
        } else {
            100
        },
    }
}

/// The factors on a player's weekly progress in a language; `None` once he is fluent.
pub fn weekly_language_factors(age: u8, current_ability: u8, current_proficiency: u8) -> (r: Option<
    LearningFactors,
>)
    ensures
        r == if current_proficiency >= 100 {
            None
        } else {
            Some(learning_factors(age, current_ability, current_proficiency))
        },
{
    if current_proficiency >= 100 {
        return None;
    }
    let age: u32 = if age <= 22 {
        130
    } else if age < 25 {
        115
    } else if age <= 30 {
        100
    } else if age <= 32 {
        85
    } else {
        70
    };
    let star: u32 = if current_ability > 160 {
        40
    } else if current_ability > 145 {
        65
    } else if current_ability > 130 {
        85
    } else {
        100
    };
    let progress: u32 = if current_proficiency >= 85 {
        40
    } else if current_proficiency >= 70 {
        60
    } else if current_proficiency >= 50 {
        80
    } else {
        100
    };
    Some(LearningFactors { age, star, progress })
}

/// What a week of learning leads to: the whole points that a proficiency rises by, and the
/// millionths of a point that are carried into the next week.
#[derive(Clone, Copy, Debug, PartialEq, Eq, Structural)]
pub struct LanguageWeek {
    pub points: u8,
    pub carried: u32,
}

/// What a player gains in a week, in millionths of a point: 0.35 points, times 0.3 plus 1.5 for
/// an adaptability of 20, times 0.6 plus 0.7 for a professionalism of 20, times the factors.
/// Both attributes are in hundredths.
pub open spec fn weekly_gain(
    adaptability: u16,
    professionalism: u16,
    factors: LearningFactors,
) -> int {
    7 * (1200 + 3 * adaptability) * (12000 + 7 * professionalism) * factors.age * factors.star
        * factors.progress / 1_600_000_000
}

/// What a player knows of a language a week later, in millionths of a point. At a hundred points
/// there is nothing left to learn.
pub open spec fn week_later(
    adaptability: u16,
    professionalism: u16,
    age: u8,
    ability: u8,
    known: int,
) -> int {
    let factors = learning_factors(age, ability, (known / 1_000_000) as u8);
    let next = known + weekly_gain(adaptability, professionalism, factors);
    if known >= 100_000_000 || next >= 100_000_000 {
        100_000_000
    } else {
        next
    }
}

/// What a player knows of a language after a number of weeks at one age and ability, in
/// millionths of a point.
pub open spec fn weeks_later(
    adaptability: u16,
    professionalism: u16,
    age: u8,
    ability: u8,
    known: int,
    weeks: nat,
) -> int
    decreases weeks,
{
    if weeks == 0 {
        known
    } else {
        week_later(
            adaptability,
            professionalism,
            age,
            ability,
            weeks_later(
                adaptability,
                professionalism,
                age,
                ability,
                known,
                (weeks - 1) as nat,
            ),
        )
    }
}

fn weekly_millionths(adaptability: u16, professionalism: u16, factors: LearningFactors) -> (r: u64)
    requires
        factors.age <= 130,
        factors.star <= 100,
        factors.progress <= 100,
    ensures
        r == weekly_gain(adaptability, professionalism, factors),
        r <= 3_000_000_000,
{
    let a: u64 = 1200 + 3 * (adaptability as u64);
    let p: u64 = 12000 + 7 * (professionalism as u64);
    assert(7 * a <= 1_384_635);
    assert(7 * a * p <= 651_810_003_075) by (nonlinear_arith)
        requires
            0 <= 7 * a <= 1_384_635,
            0 <= p <= 470_745,
    ;
    let product: u64 = 7 * a * p;
    let (x, y, z): (u64, u64, u64) = (
        factors.age as u64,
        factors.star as u64,
        factors.progress as u64,
    );
    assert(product * x <= 651_810_003_075 * 130) by (nonlinear_arith)
        requires
            product <= 651_810_003_075,
            x <= 130,
    ;
    let aged: u64 = product * x;
    assert(aged * y <= 651_810_003_075 * 130 * 100) by (nonlinear_arith)
        requires
            aged <= 651_810_003_075 * 130,
            y <= 100,
    ;
    let rated: u64 = aged * y;
    assert(rated * z <= 651_810_003_075 * 130 * 100 * 100) by (nonlinear_arith)
        requires
            rated <= 651_810_003_075 * 130 * 100,
            z <= 100,
    ;
    rated * z / 1_600_000_000
}

/// What a week abroad adds to a proficiency, given what earlier weeks left over. Both attributes
/// are in hundredths. A week's gain is mostly less than a point, so what does not make up a whole
/// one is carried on; nothing takes a proficiency past 100.
pub fn weekly_language_progress(
    adaptability: u16,
    professionalism: u16,
    age: u8,
    current_ability: u8,
    current_proficiency: u8,
    carried: u32,
) -> (r: LanguageWeek)
    requires
        carried < 1_000_000,
    ensures
        current_proficiency >= 100 ==> r == (LanguageWeek { points: 0, carried: 0 }),
        current_proficiency < 100 ==> (current_proficiency + r.points) * 1_000_000 + r.carried
            == week_later(
            adaptability,
            professionalism,
            age,
            current_ability,
            current_proficiency * 1_000_000 + carried,
        ),
        r.carried < 1_000_000,
{
    let factors = match weekly_language_factors(age, current_ability, current_proficiency) {
        Some(factors) => factors,
        None => {
            return LanguageWeek { points: 0, carried: 0 };
        },
    };
    assert((current_proficiency * 1_000_000 + carried) / 1_000_000 == current_proficiency);
    let gain: u64 = weekly_millionths(adaptability, professionalism, factors);
    let sum: u64 = gain + carried as u64;
    let room: u64 = (100 - current_proficiency) as u64;
    if sum >= room * 1_000_000 {
        LanguageWeek { points: room as u8, carried: 0 }
    } else {
        LanguageWeek { points: (sum / 1_000_000) as u8, carried: (sum % 1_000_000) as u32 }
    }
}

/// Nothing is lost and nothing is learned twice: over any number of weeks in which the factors
/// stay the same, a player gains as many times what one week brings.
pub proof fn lemma_learning_adds_up(
    adaptability: u16,
    professionalism: u16,
    age: u8,
    ability: u8,
    known: int,
    weeks: nat,
)
    requires
        0 <= known < 100_000_000,
        ({
            let factors = learning_factors(age, ability, (known / 1_000_000) as u8);
            let last = known + (weeks - 1) * weekly_gain(adaptability, professionalism, factors);
            weeks > 0 ==> last < 100_000_000 && learning_factors(
                age,
                ability,
                (last / 1_000_000) as u8,
            ) == factors
        }),
    ensures
        ({
            let factors = learning_factors(age, ability, (known / 1_000_000) as u8);
            let sum = known + weeks * weekly_gain(adaptability, professionalism, factors);
            weeks_later(adaptability, professionalism, age, ability, known, weeks) == if sum
                >= 100_000_000 {
                100_000_000
            } else {
                sum
            }
        }),
    decreases weeks,
{
    let factors = learning_factors(age, ability, (known / 1_000_000) as u8);
    let gain = weekly_gain(adaptability, professionalism, factors);
    lemma_gain_is_no_loss(adaptability, professionalism, factors);
    if weeks > 0 {
        let last = known + (weeks - 1) * gain;
        assert(known <= last) by (nonlinear_arith)
            requires
                last == known + (weeks - 1) * gain,
                weeks >= 1,
                gain >= 0,
        ;
        assert(weeks * gain == (weeks - 1) * gain + gain) by (nonlinear_arith);
        if weeks > 1 {
            let before = known + (weeks - 2) * gain;
            assert(known <= before <= last) by (nonlinear_arith)
                requires
                    before == known + (weeks - 2) * gain,
                    last == known + (weeks - 1) * gain,
                    weeks >= 2,
                    gain >= 0,
            ;
        }
        lemma_learning_adds_up(
            adaptability,
            professionalism,
            age,
            ability,
            known,
            (weeks - 1) as nat,
        );
    }
}

proof fn lemma_gain_is_no_loss(adaptability: u16, professionalism: u16, factors: LearningFactors)
    ensures
        weekly_gain(adaptability, professionalism, factors) >= 0,
{
    let a = 7 * (1200 + 3 * adaptability);
    let p = 12000 + 7 * professionalism;
    let (x, y, z) = (factors.age as int, factors.star as int, factors.progress as int);
    assert(a * p >= 0) by (nonlinear_arith)
        requires
            a >= 0,
            p >= 0,
    ;
    assert(a * p * x >= 0) by (nonlinear_arith)
        requires
            a * p >= 0,
            x >= 0,
    ;
    assert(a * p * x * y >= 0) by (nonlinear_arith)
        requires
            a * p * x >= 0,
            y >= 0,
    ;
    assert(a * p * x * y * z >= 0) by (nonlinear_arith)
        requires
            a * p * x * y >= 0,
            z >= 0,
    ;
}

/// Weeks come one after the other: to learn for some and then for more is to learn for both.
proof fn lemma_weeks_in_turn(
    adaptability: u16,
    professionalism: u16,
    age: u8,
    ability: u8,
    known: int,
    first: nat,
    more: nat,
)
    ensures
        weeks_later(adaptability, professionalism, age, ability, known, first + more)
            == weeks_later(
            adaptability,
            professionalism,
            age,
            ability,
            weeks_later(adaptability, professionalism, age, ability, known, first),
            more,
        ),
    decreases more,
{
    if more > 0 {
        lemma_weeks_in_turn(
            adaptability,
            professionalism,
            age,
            ability,
            known,
            first,
            (more - 1) as nat,
        );
    }
}

/// The typical pace: a player of 24 with an adaptability and a professionalism of 12, who knows
/// nothing at first, can converse after about a year and a half (40 points), is functionally
/// fluent after about three years (70) and nearly fluent in the fifth (90).
pub proof fn lemma_typical_pace(ability: u8)
    requires
        ability <= 130,
    ensures
        38_000_000 <= weeks_later(1200, 1200, 24, ability, 0, 78) <= 42_000_000,
        68_000_000 <= weeks_later(1200, 1200, 24, ability, 0, 156) <= 72_000_000,
        weeks_later(1200, 1200, 24, ability, 0, 208) < 90_000_000,
        weeks_later(1200, 1200, 24, ability, 0, 228) >= 90_000_000,
{
    assert forall|p: u32| #[trigger]
        weekly_gain(1200, 1200, LearningFactors { age: 115, star: 100, progress: p }) == 49266
            * p / 10 by {
        assert(7 * (1200 + 3 * 1200u16) * (12000 + 7 * 1200u16) * 115u32 * 100u32 * p
            == 7_882_560_000_000 * p) by (nonlinear_arith);
    }
    lemma_learning_adds_up(1200, 1200, 24, ability, 0, 78);
    lemma_learning_adds_up(1200, 1200, 24, ability, 0, 102);
    let t = 50_251_320;
    assert(weeks_later(1200, 1200, 24, ability, 0, 102) == t);
    lemma_learning_adds_up(1200, 1200, 24, ability, t, 51);
    lemma_weeks_in_turn(1200, 1200, 24, ability, 0, 102, 51);
    let u = 70_351_848;
    assert(weeks_later(1200, 1200, 24, ability, 0, 153) == u);
    lemma_learning_adds_up(1200, 1200, 24, ability, u, 3);
    lemma_weeks_in_turn(1200, 1200, 24, ability, 0, 153, 3);
    lemma_learning_adds_up(1200, 1200, 24, ability, u, 50);
    lemma_weeks_in_turn(1200, 1200, 24, ability, 0, 153, 50);
    let v = 85_131_648;
    assert(weeks_later(1200, 1200, 24, ability, 0, 203) == v);
    lemma_learning_adds_up(1200, 1200, 24, ability, v, 5);
    lemma_weeks_in_turn(1200, 1200, 24, ability, 0, 203, 5);
    lemma_learning_adds_up(1200, 1200, 24, ability, v, 25);
    lemma_weeks_in_turn(1200, 1200, 24, ability, 0, 203, 25);
}

/// No two languages share a place in the masks.
pub proof fn lemma_index_distinct(a: Language, b: Language)
    ensures
        index(a) < 48,
        index(a) == index(b) ==> a == b,
{
}

/// Every language has one bit of its own, below the forty-eighth, and the bits of two languages
/// never meet.
pub proof fn lemma_bits_apart(a: Language, b: Language)
    ensures
        bit(a) != 0,
        bit(a) & (bit(a) - 1) as u64 == 0,
        bit(a) < 1u64 << 48,
        a != b ==> bit(a) & bit(b) == 0,
{
    lemma_index_distinct(a, b);
    let i = index(a);
    let j = index(b);
    assert(i < 48);
    assert(j < 48) by {
        lemma_index_distinct(b, a);
    }
    let one = 1u64 << i;
    assert(one != 0 && one < 1u64 << 48 && one & (one - 1) as u64 == 0) by (bit_vector)
        requires
            i < 48,
            one == 1u64 << i,
    ;
    if a != b {
        assert((1u64 << i) & (1u64 << j) == 0) by (bit_vector)
            requires
                i < 48,
                j < 48,
                i != j,
        ;
    }
}

/// A mask built by setting the bit of `l` holds `l` and what it held before.
proof fn lemma_mask_insert(mask: u64, l: Language, other: Language)
    ensures
        mask_has(mask | bit(l), other) <==> mask_has(mask, other) || other == l,
{
    lemma_index_distinct(l, other);
    let i = index(l);
    let j = index(other);
    assert((mask | (1u64 << i)) & (1u64 << j) == (mask & (1u64 << j)) | ((1u64 << i) & (1u64 << j)))
        by (bit_vector);
    if i == j {
        assert((mask | (1u64 << i)) & (1u64 << i) != 0) by (bit_vector)
            requires
                i < 48,
        ;
    } else {
        assert((1u64 << i) & (1u64 << j) == 0) by (bit_vector)
            requires
                i < 48,
                j < 48,
                i != j,
        ;
        let m = mask & (1u64 << j);
        assert(m | 0u64 == m) by (bit_vector);
    }
}

proof fn lemma_empty_mask(l: Language)
    ensures
        !mask_has(0, l),
{
    let b = bit(l);
    assert(0u64 & b == 0) by (bit_vector);
}

/// The mask of a list holds exactly its languages.
pub proof fn lemma_mask_of(s: Seq<Language>, l: Language)
    ensures
        mask_has(mask_of(s), l) <==> s.contains(l),
    decreases s.len(),
{
    if s.len() == 0 {
        lemma_empty_mask(l);
    } else {
        lemma_mask_of(s.drop_last(), l);
        lemma_mask_insert(mask_of(s.drop_last()), s.last(), l);
        if s.contains(l) {
            let i = choose|i: int| 0 <= i < s.len() && s[i] == l;
            if i < s.len() - 1 {
                assert(s.drop_last()[i] == l);
            }
        } else {
            if s.drop_last().contains(l) {
                let i = choose|i: int| 0 <= i < s.drop_last().len() && s.drop_last()[i] == l;
                assert(s[i] == l);
            }
            assert(s.last() != l);
        }
        if s.drop_last().contains(l) {
            let i = choose|i: int| 0 <= i < s.drop_last().len() && s.drop_last()[i] == l;
            assert(s[i] == l);
        }
        if s.last() == l {
            assert(s[s.len() - 1] == l);
        }
    }
}

/// The masks of a profile hold exactly the languages that the player speaks fluently and those
/// in which he can converse.
pub proof fn lemma_profile_masks(languages: Seq<PlayerLanguage>, l: Language)
    ensures
        mask_has(fluent_mask_of(languages), l) <==> speaks_fluently(languages, l),
        mask_has(conversational_mask_of(languages), l) <==> converses_in(languages, l),
    decreases languages.len(),
{
    if languages.len() == 0 {
        lemma_empty_mask(l);
    } else {
        let rest = languages.drop_last();
        let last = languages.last();
        lemma_profile_masks(rest, l);
        lemma_mask_insert(fluent_mask_of(rest), last.language, l);
        lemma_mask_insert(conversational_mask_of(rest), last.language, l);
        assert(languages[languages.len() - 1] == last);
        assert forall|i: int| 0 <= i < rest.len() implies #[trigger] rest[i] == languages[i] by {}
        if speaks_fluently(languages, l) {
            let i = choose|i: int|
                0 <= i < languages.len() && (#[trigger] languages[i]).language == l
                    && languages[i].fluent();
            if i < rest.len() {
                assert(rest[i].language == l);
            }
        }
        if converses_in(languages, l) {
            let i = choose|i: int|
                0 <= i < languages.len() && (#[trigger] languages[i]).language == l
                    && languages[i].conversational();
            if i < rest.len() {
                assert(rest[i].language == l);
            }
        }
        if speaks_fluently(rest, l) {
            let i = choose|i: int|
                0 <= i < rest.len() && (#[trigger] rest[i]).language == l && rest[i].fluent();
            assert(languages[i].language == l);
        }
        if converses_in(rest, l) {
            let i = choose|i: int|
                0 <= i < rest.len() && (#[trigger] rest[i]).language == l
                    && rest[i].conversational();
            assert(languages[i].language == l);
        }
    }
}

/// Who is fluent in a language can also converse in it.
pub proof fn lemma_fluent_is_conversational(languages: Seq<PlayerLanguage>, l: Language)
    requires
        mask_has(fluent_mask_of(languages), l),
    ensures
        mask_has(conversational_mask_of(languages), l),
{
    lemma_profile_masks(languages, l);
    let i = choose|i: int|
        0 <= i < languages.len() && (#[trigger] languages[i]).language == l
            && languages[i].fluent();
    assert(languages[i].conversational());
}

/// Two masks meet exactly where a language is in both, if one of them is a list's.
proof fn lemma_masks_meet(mask: u64, s: Seq<Language>)
    ensures
        mask & mask_of(s) != 0 <==> exists|i: int|
            0 <= i < s.len() && mask_has(mask, #[trigger] s[i]),
    decreases s.len(),
{
    if s.len() == 0 {
        assert(mask & 0u64 == 0) by (bit_vector);
    } else {
        lemma_masks_meet(mask, s.drop_last());
        let a = mask_of(s.drop_last());
        let b = bit(s.last());
        assert(mask & (a | b) == (mask & a) | (mask & b)) by (bit_vector);
        let x = mask & a;
        let y = mask & b;
        assert((x | y) != 0 <==> (x != 0 || y != 0)) by (bit_vector);
        assert forall|i: int| 0 <= i < s.drop_last().len() implies #[trigger] s.drop_last()[i]
            == s[i] by {}
        if x != 0 {
            let i = choose|i: int|
                0 <= i < s.drop_last().len() && mask_has(mask, #[trigger] s.drop_last()[i]);
            assert(mask_has(mask, s[i]));
        }
        if y != 0 {
            assert(mask_has(mask, s[s.len() - 1]));
        }
        if exists|i: int| 0 <= i < s.len() && mask_has(mask, #[trigger] s[i]) {
            let i = choose|i: int| 0 <= i < s.len() && mask_has(mask, #[trigger] s[i]);
            if i < s.len() - 1 {
                assert(mask_has(mask, s.drop_last()[i]));
            }
        }
    }
}

/// A player fits a country's clubs without reserve exactly if he speaks one of its languages
/// fluently, or if nothing is known of what he speaks.
pub proof fn lemma_full_affinity(languages: Seq<PlayerLanguage>, code: Seq<char>)
    requires
        conversational_mask_of(languages) != 0,
    ensures
        affinity(
            fluent_mask_of(languages),
            conversational_mask_of(languages),
            mask_of(country_languages(code)),
        ) == 100 <==> exists|i: int|
            0 <= i < country_languages(code).len() && speaks_fluently(
                languages,
                #[trigger] country_languages(code)[i],
            ),
{
    let s = country_languages(code);
    let fluent = fluent_mask_of(languages);
    lemma_mask_of(s, s[0]);
    assert(s.contains(s[0]));
    let b = bit(s[0]);
    assert(0u64 & b == 0) by (bit_vector);
    assert(mask_of(s) != 0);
    lemma_masks_meet(fluent, s);
    assert forall|i: int| 0 <= i < s.len() implies (mask_has(fluent, #[trigger] s[i])
        <==> speaks_fluently(languages, s[i])) by {
        lemma_profile_masks(languages, s[i]);
    }
    if fluent & mask_of(s) != 0 {
        let i = choose|i: int| 0 <= i < s.len() && mask_has(fluent, #[trigger] s[i]);
        assert(speaks_fluently(languages, s[i]));
    }
    if exists|i: int| 0 <= i < s.len() && speaks_fluently(languages, #[trigger] s[i]) {
        let i = choose|i: int| 0 <= i < s.len() && speaks_fluently(languages, #[trigger] s[i]);
        assert(mask_has(fluent, s[i]));
    }
}

/// Every country has a language, and nobody is a stranger at home.
pub proof fn lemma_at_home(code: Seq<char>)
    ensures
        country_languages(code).len() >= 1,
        affinity(
            mask_of(country_languages(code)),
            mask_of(country_languages(code)),
            mask_of(country_languages(code)),
        ) == 100,
{
    let m = mask_of(country_languages(code));
    assert(m != 0 ==> m & m != 0) by (bit_vector);
}

/// A mask that holds every language of a list holds the list's whole mask.
proof fn lemma_mask_holds_list(s: Seq<Language>, mask: u64)
    requires
        forall|i: int| 0 <= i < s.len() ==> mask_has(mask, #[trigger] s[i]),
    ensures
        mask_of(s) & mask == mask_of(s),
    decreases s.len(),
{
    if s.len() == 0 {
        assert(0u64 & mask == 0) by (bit_vector);
    } else {
        let rest = s.drop_last();
        assert forall|i: int| 0 <= i < rest.len() implies mask_has(mask, #[trigger] rest[i]) by {
            assert(rest[i] == s[i]);
        }
        lemma_mask_holds_list(rest, mask);
        let a = mask_of(rest);
        let n = index(s.last());
        assert(mask_has(mask, s[s.len() - 1]));
        assert((a | (1u64 << n)) & mask == (a | (1u64 << n))) by (bit_vector)
            requires
                a & mask == a,
                mask & (1u64 << n) != 0,
                n < 48,
        ;
    }
}

/// A mask that meets another still meets it when it holds more.
proof fn lemma_still_meets(mask: u64, more: u64, other: u64)
    requires
        mask & more == mask,
        mask & other != 0,
    ensures
        more & other != 0,
{
    assert(more & other != 0) by (bit_vector)
        requires
            mask & more == mask,
            mask & other != 0,
    ;
}

/// Who speaks more languages, or speaks them better, fits no club worse. Nothing is said of a
/// player of whom nothing is known: he is taken to fit everywhere.
pub proof fn lemma_more_languages_fit_better(
    fluent: u64,
    conversational: u64,
    more_fluent: u64,
    more_conversational: u64,
    club: u64,
)
    requires
        fluent & more_fluent == fluent,
        conversational & more_conversational == conversational,
        fluent != 0 || conversational != 0,
    ensures
        affinity(fluent, conversational, club) <= affinity(
            more_fluent,
            more_conversational,
            club,
        ),
{
    if fluent & club != 0 {
        lemma_still_meets(fluent, more_fluent, club);
    }
    if conversational & club != 0 {
        lemma_still_meets(conversational, more_conversational, club);
    }
    if fluent & bridge_mask() != 0 {
        lemma_still_meets(fluent, more_fluent, bridge_mask());
    }
    if conversational & bridge_mask() != 0 {
        lemma_still_meets(conversational, more_conversational, bridge_mask());
    }
}

/// The fit read off a nationality never overstates: a player who speaks the languages of his
/// country fluently, and whatever else he learned, fits at least as well.
pub proof fn lemma_nationality_understates(
    languages: Seq<PlayerLanguage>,
    home: Seq<char>,
    club: Seq<char>,
)
    requires
        forall|i: int|
            0 <= i < country_languages(home).len() ==> speaks_fluently(
                languages,
                #[trigger] country_languages(home)[i],
            ),
    ensures
        affinity(
            mask_of(country_languages(home)),
            mask_of(country_languages(home)),
            mask_of(country_languages(club)),
        ) <= affinity(
            fluent_mask_of(languages),
            conversational_mask_of(languages),
            mask_of(country_languages(club)),
        ),
{
    let s = country_languages(home);
    assert forall|i: int| 0 <= i < s.len() implies mask_has(
        fluent_mask_of(languages),
        #[trigger] s[i],
    ) by {
        lemma_profile_masks(languages, s[i]);
    }
    assert forall|i: int| 0 <= i < s.len() implies mask_has(
        conversational_mask_of(languages),
        #[trigger] s[i],
    ) by {
        lemma_fluent_is_conversational(languages, s[i]);
    }
    lemma_mask_holds_list(s, fluent_mask_of(languages));
    lemma_mask_holds_list(s, conversational_mask_of(languages));
    lemma_mask_of(s, s[0]);
    assert(s.contains(s[0]));
    lemma_empty_mask(s[0]);
    lemma_more_languages_fit_better(
        mask_of(s),
        mask_of(s),
        fluent_mask_of(languages),
        conversational_mask_of(languages),
        mask_of(country_languages(club)),
    );
}

/// Learning never gets faster with age, standing or what is already known, and a week never
/// takes a proficiency past 100.
pub proof fn lemma_learning_slows(
    age: u8,
    older: u8,
    ability: u8,
    better: u8,
    proficiency: u8,
    higher: u8,
)
    requires
        age <= older,
        ability <= better,
        proficiency <= higher,
    ensures
        learning_factors(older, better, higher).age <= learning_factors(
            age,
            ability,
            proficiency,
        ).age,
        learning_factors(older, better, higher).star <= learning_factors(
            age,
            ability,
            proficiency,
        ).star,
        learning_factors(older, better, higher).progress <= learning_factors(
            age,
            ability,
            proficiency,
        ).progress,
{
}

/// Where a language is the first of the country: in these countries and in no other. Everybody
/// else gets along in English.
pub proof fn lemma_where_a_language_is_spoken(a: char, b: char)
    ensures
        spoken_in(a, b).0 is Spanish <==> (a == 'e' && b == 's') || (a == 'a' && b == 'd')
            || (a == 'm' && b == 'c') || (a == 'g' && b == 'i') || (a == 'a' && b == 'r')
            || (a == 'c' && b == 'o') || (a == 'c' && b == 'l') || (a == 'u' && b == 'y')
            || (a == 'p' && b == 'y') || (a == 'p' && b == 'e') || (a == 'e' && b == 'c')
            || (a == 'b' && b == 'o') || (a == 'v' && b == 'e') || (a == 'm' && b == 'x')
            || (a == 's' && b == 'v') || (a == 'g' && b == 't') || (a == 'h' && b == 'n')
            || (a == 'n' && b == 'i') || (a == 'c' && b == 'r') || (a == 'p' && b == 'a')
            || (a == 'c' && b == 'u') || (a == 'd' && b == 'o') || (a == 'p' && b == 'r'),
        spoken_in(a, b).0 is French <==> (a == 'f' && b == 'r') || (a == 'h' && b == 't')
            || (a == 'g' && b == 'p') || (a == 'm' && b == 'q') || (a == 'm' && b == 'f')
            || (a == 'n' && b == 'c') || (a == 'w' && b == 'f') || (a == 'c' && b == 'i')
            || (a == 'c' && b == 'm') || (a == 's' && b == 'n') || (a == 'm' && b == 'l')
            || (a == 'b' && b == 'f') || (a == 'n' && b == 'e') || (a == 't' && b == 'd')
            || (a == 'c' && b == 'f') || (a == 'c' && b == 'g') || (a == 'g' && b == 'a')
            || (a == 'b' && b == 'j') || (a == 't' && b == 'g') || (a == 'g' && b == 'w')
            || (a == 'g' && b == 'q') || (a == 'd' && b == 'j') || (a == 'b' && b == 'i')
            || (a == 'm' && b == 'g') || (a == 'k' && b == 'm') || (a == 'y' && b == 't')
            || (a == 'r' && b == 'e') || (a == 's' && b == 't') || (a == 'l' && b == 'u'),
        spoken_in(a, b).0 is German <==> (a == 'd' && b == 'e') || (a == 'a' && b == 't')
            || (a == 'c' && b == 'h') || (a == 'l' && b == 'i'),
        spoken_in(a, b).0 is Italian <==> (a == 'i' && b == 't') || (a == 's' && b == 'm'),
        spoken_in(a, b).0 is Portuguese <==> (a == 'p' && b == 't') || (a == 'b' && b == 'r')
            || (a == 'a' && b == 'o') || (a == 'm' && b == 'z') || (a == 'c' && b == 'v'),
        spoken_in(a, b).0 is Dutch <==> (a == 'n' && b == 'l') || (a == 'a' && b == 'w')
            || (a == 'b' && b == 'e'),
        spoken_in(a, b).0 is Swedish <==> (a == 's' && b == 'e'),
        spoken_in(a, b).0 is Norwegian <==> (a == 'n' && b == 'o'),
        spoken_in(a, b).0 is Danish <==> (a == 'd' && b == 'k') || (a == 'f' && b == 'o'),
        spoken_in(a, b).0 is Finnish <==> (a == 'f' && b == 'i'),
        spoken_in(a, b).0 is Icelandic <==> (a == 'i' && b == 's'),
        spoken_in(a, b).0 is Polish <==> (a == 'p' && b == 'l'),
        spoken_in(a, b).0 is Czech <==> (a == 'c' && b == 'z'),
        spoken_in(a, b).0 is Slovak <==> (a == 's' && b == 'k'),
        spoken_in(a, b).0 is Hungarian <==> (a == 'h' && b == 'u'),
        spoken_in(a, b).0 is Romanian <==> (a == 'r' && b == 'o') || (a == 'm' && b == 'd'),
        spoken_in(a, b).0 is Bulgarian <==> (a == 'b' && b == 'g'),
        spoken_in(a, b).0 is Serbian <==> (a == 'r' && b == 's') || (a == 'm' && b == 'e'),
        spoken_in(a, b).0 is Croatian <==> (a == 'h' && b == 'r'),
        spoken_in(a, b).0 is Slovenian <==> (a == 's' && b == 'i'),
        spoken_in(a, b).0 is Bosnian <==> (a == 'b' && b == 'a'),
        spoken_in(a, b).0 is Albanian <==> (a == 'a' && b == 'l') || (a == 'm' && b == 'k'),
        spoken_in(a, b).0 is Greek <==> (a == 'g' && b == 'r') || (a == 'c' && b == 'y'),
        spoken_in(a, b).0 is Russian <==> (a == 'e' && b == 'e') || (a == 'l' && b == 'v')
            || (a == 'l' && b == 't') || (a == 'r' && b == 'u') || (a == 'b' && b == 'y')
            || (a == 'k' && b == 'z') || (a == 'k' && b == 'g') || (a == 'u' && b == 'z')
            || (a == 't' && b == 'j') || (a == 't' && b == 'm'),
        spoken_in(a, b).0 is Ukrainian <==> (a == 'u' && b == 'a'),
        spoken_in(a, b).0 is Georgian <==> (a == 'g' && b == 'e'),
        spoken_in(a, b).0 is Armenian <==> (a == 'a' && b == 'm'),
        spoken_in(a, b).0 is Azerbaijani <==> (a == 'a' && b == 'z'),
        spoken_in(a, b).0 is Turkish <==> (a == 't' && b == 'r'),
        spoken_in(a, b).0 is Hebrew <==> (a == 'i' && b == 'l'),
        spoken_in(a, b).0 is Persian <==> (a == 'i' && b == 'r') || (a == 'a' && b == 'f'),
        spoken_in(a, b).0 is Arabic <==> (a == 's' && b == 'a') || (a == 'a' && b == 'e')
            || (a == 'q' && b == 'a') || (a == 'k' && b == 'w') || (a == 'b' && b == 'h')
            || (a == 'o' && b == 'm') || (a == 'j' && b == 'o') || (a == 'l' && b == 'b')
            || (a == 'i' && b == 'q') || (a == 'y' && b == 'e') || (a == 'e' && b == 'g')
            || (a == 'd' && b == 'z') || (a == 'm' && b == 'a') || (a == 't' && b == 'n')
            || (a == 'l' && b == 'y') || (a == 's' && b == 'd') || (a == 'p' && b == 's')
            || (a == 'm' && b == 'r'),
        spoken_in(a, b).0 is Japanese <==> (a == 'j' && b == 'p'),
        spoken_in(a, b).0 is Korean <==> (a == 'k' && b == 'r') || (a == 'k' && b == 'p'),
        spoken_in(a, b).0 is Chinese <==> (a == 'c' && b == 'n') || (a == 'h' && b == 'k')
            || (a == 'm' && b == 'o') || (a == 't' && b == 'w'),
        spoken_in(a, b).0 is Thai <==> (a == 't' && b == 'h'),
        spoken_in(a, b).0 is Vietnamese <==> (a == 'v' && b == 'n'),
        spoken_in(a, b).0 is Indonesian <==> (a == 'i' && b == 'd'),
        spoken_in(a, b).0 is Malay <==> (a == 'm' && b == 'y') || (a == 's' && b == 'g')
            || (a == 'b' && b == 'n'),
        spoken_in(a, b).0 is Hindi <==> (a == 'i' && b == 'n') || (a == 'p' && b == 'k')
            || (a == 'b' && b == 'd') || (a == 'l' && b == 'k') || (a == 'n' && b == 'p')
            || (a == 'm' && b == 'v'),
        spoken_in(a, b).0 is Swahili <==> (a == 'e' && b == 't') || (a == 's' && b == 'o'),
        spoken_in(a, b).1 == Some(Language::French) <==> (a == 'b' && b == 'e'),
        spoken_in(a, b).1 == Some(Language::German) <==> (a == 'l' && b == 'u'),
        spoken_in(a, b).1 is Some <==> (a == 'b' && b == 'e') || (a == 'l' && b == 'u'),
{
}

/// A country speaks its first language and, where there is one, its second, and no other; a code
/// that is not two letters long stands for English.
pub proof fn lemma_languages_of_a_country(code: Seq<char>, l: Language)
    ensures
        code.len() != 2 ==> (country_languages(code).contains(l) <==> l is English),
        code.len() == 2 ==> (country_languages(code).contains(l) <==> l == spoken_in(
            code[0],
            code[1],
        ).0 || spoken_in(code[0], code[1]).1 == Some(l)),
        1 <= country_languages(code).len() <= 2,
{
    let s = country_languages(code);
    if code.len() == 2 {
        let (first, second) = spoken_in(code[0], code[1]);
        assert(s[0] == first);
        if second is Some {
            assert(s[1] == second->0);
        }
    } else {
        assert(s[0] == Language::English);
    }
}

/// What a level of a language is worth and what it is called: to get by takes 70 points or a mother
/// tongue, to talk takes 40. Who gets by can also talk.
pub proof fn lemma_levels_of_a_language(l: PlayerLanguage)
    ensures
        l.fluent() <==> !(!l.is_native && l.proficiency < 70),
        l.conversational() <==> !(!l.is_native && l.proficiency < 40),
        l.fluent() ==> l.conversational(),
        l.is_native ==> l.level() == "lang_level_native"@,
        !l.is_native && 90 <= l.proficiency ==> l.level() == "lang_level_fluent"@,
        !l.is_native && 70 <= l.proficiency < 90 ==> l.level() == "lang_level_good"@,
        !l.is_native && 40 <= l.proficiency < 70 ==> l.level() == "lang_level_basic"@,
        !l.is_native && 10 <= l.proficiency < 40 ==> l.level() == "lang_level_beginner"@,
        !l.is_native && l.proficiency < 10 ==> l.level() == "lang_level_none"@,
{
}

/// Which languages bridge a dressing room: English and Spanish, and no other.
pub proof fn lemma_bridges(l: Language)
    ensures
        mask_has(bridge_mask(), l) <==> l is English || l is Spanish,
{
    let s = seq![Language::English, Language::Spanish];
    lemma_mask_of(s, l);
    assert(s[0] is English && s[1] is Spanish);
}

/// What a fit is worth: all of it for a language of the club spoken fluently, or where nothing is
/// known of either side; 65 hundredths for one spoken well enough to talk; 45 for a bridge spoken
/// fluently, 25 for one spoken well enough; nothing else is worth anything.
pub proof fn lemma_steps_of_fit(fluent: u64, conversational: u64, club: u64)
    ensures
        ({
            let r = affinity(fluent, conversational, club);
            let unknown = club == 0 || (fluent == 0 && conversational == 0);
            let speaks = fluent & club != 0;
            let talks = conversational & club != 0;
            let bridge = fluent & bridge_mask() != 0;
            let half = conversational & bridge_mask() != 0;
            &&& r == 100 <==> unknown || speaks
            &&& r == 65 <==> !unknown && !speaks && talks
            &&& r == 45 <==> !unknown && !speaks && !talks && bridge
            &&& r == 25 <==> !unknown && !speaks && !talks && !bridge && half
            &&& r == 0 <==> !unknown && !speaks && !talks && !bridge && !half
        }),
{
}

/// Who learns how fast: the young up to 22 by three tenths more and up to 24 by 15 hundredths, from
/// 31 by 15 hundredths less and from 33 by three tenths. Stars learn less, and everybody less as he
/// comes close.
pub proof fn lemma_who_learns_how_fast(age: u8, ability: u8, proficiency: u8)
    ensures
        ({
            let f = learning_factors(age, ability, proficiency);
            &&& f.age == 130 <==> age <= 22
            &&& f.age == 115 <==> 23 <= age <= 24
            &&& f.age == 100 <==> 25 <= age <= 30
            &&& f.age == 85 <==> 31 <= age <= 32
            &&& f.age == 70 <==> age >= 33
            &&& f.star == 40 <==> ability > 160
            &&& f.star == 65 <==> 145 < ability <= 160
            &&& f.star == 85 <==> 130 < ability <= 145
            &&& f.star == 100 <==> ability <= 130
            &&& f.progress == 40 <==> proficiency >= 85
            &&& f.progress == 60 <==> 70 <= proficiency < 85
            &&& f.progress == 80 <==> 50 <= proficiency < 70
            &&& f.progress == 100 <==> proficiency < 50
        }),
{
}

/// What character does for learning: the most adaptable player learns six times as fast as the
/// least, the most professional thirteen sixths as fast, but for the rounding of a millionth.
pub proof fn lemma_character_learns(adaptability: u16, professionalism: u16, f: LearningFactors)
    ensures
        ({
            let slow = weekly_gain(0, professionalism, f);
            let fast = weekly_gain(2000, professionalism, f);
            let lazy = weekly_gain(adaptability, 0, f);
            let keen = weekly_gain(adaptability, 2000, f);
            &&& 6 * slow <= fast <= 6 * slow + 5
            &&& -13 < 6 * keen - 13 * lazy < 13
        }),
{
    let (x, y, z) = (f.age as int, f.star as int, f.progress as int);
    let p = 12000 + 7 * professionalism;
    let a = 7 * (1200 + 3 * adaptability);
    assert(7 * (1200 + 3 * 2000u16) * p * x * y * z == 6 * (7 * (1200 + 3 * 0u16) * p * x * y * z))
        by (nonlinear_arith);
    assert(6 * (a * (12000 + 7 * 2000u16) * x * y * z) == 13 * (a * (12000 + 7 * 0u16) * x * y * z))
        by (nonlinear_arith);
}

} // verus!
