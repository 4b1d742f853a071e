//! Classification of a single Unicode scalar value into the small set of
//! semantic categories that a text-editing engine uses to drive cursor
//! motion, word-boundary detection, and line splitting.
//!
//! The classifier is a total function: every `char` yields exactly one
//! [`CharCategory`], decided by a fixed precedence order over a family of
//! predicates (script ranges first, then line endings, whitespace, word
//! characters, punctuation, and finally a catch-all).

pub mod unicode;

use vstd::prelude::*;

verus! {

/// The line-ending policy the host configures: either only a line feed
/// ends a line, or the extended set of Unicode line and paragraph
/// separators does as well.
#[derive(Clone, Copy, Debug, Eq, PartialEq)]
pub enum LineEndingPolicy {
    /// Only U+000A (line feed) is a line ending.
    LineFeedOnly,
    /// Line feed plus vertical tab, form feed, next line, line separator,
    /// and paragraph separator are line endings.
    Unicode,
}

/// The closed set of mutually exclusive categories a scalar value can
/// belong to. A value of this type carries no data beyond its tag.
#[derive(Debug, Eq, PartialEq)]
pub enum CharCategory {
    Whitespace,
    Eol,
    Word,
    Punctuation,
    Unknown,
    Hiragana,
    Katakana,
    Kanji,
}

/// Whether a scalar value lies in one of the hiragana blocks:
/// Hiragana, Kana Extended-A, Kana Extended-B, Kana Supplement,
/// and Small Kana Extension.
pub open spec fn is_hiragana(c: char) -> bool {
    ||| (0x3041 <= c as u32 && c as u32 <= 0x3096)
    ||| (0x3099 <= c as u32 && c as u32 <= 0x309F)
    ||| (0x1B100 <= c as u32 && c as u32 <= 0x1B12F)
    ||| (0x1AFF0 <= c as u32 && c as u32 <= 0x1AFFF)
    ||| (0x1B000 <= c as u32 && c as u32 <= 0x1B0FF)
    ||| (0x1B130 <= c as u32 && c as u32 <= 0x1B16F)
}

/// Whether a scalar value lies in the Katakana block.
pub open spec fn is_katakana(c: char) -> bool {
    0x30A0 <= c as u32 && c as u32 <= 0x30FF
}

/// Whether a scalar value lies in one of the kanji blocks:
/// CJK Unified Ideographs with Extensions A through H, and the
/// CJK Compatibility Ideographs block and its Supplement.
pub open spec fn is_kanji(c: char) -> bool {
    ||| (0x4E00 <= c as u32 && c as u32 <= 0x9FFF)
    ||| (0x3400 <= c as u32 && c as u32 <= 0x4DBF)
    ||| (0x20000 <= c as u32 && c as u32 <= 0x2A6DF)
    ||| (0x2A700 <= c as u32 && c as u32 <= 0x2B739)
    ||| (0x2B740 <= c as u32 && c as u32 <= 0x2B81D)
    ||| (0x2B820 <= c as u32 && c as u32 <= 0x2CEA1)
    ||| (0x2CEB0 <= c as u32 && c as u32 <= 0x2EBE0)
    ||| (0x30000 <= c as u32 && c as u32 <= 0x3134A)
    ||| (0x31350 <= c as u32 && c as u32 <= 0x323AF)
    ||| (0x2EBF0 <= c as u32 && c as u32 <= 0x2EE5D)
    ||| (0xF900 <= c as u32 && c as u32 <= 0xFAFF)
    ||| (0x2F800 <= c as u32 && c as u32 <= 0x2FA1F)
}

/// Determine whether a character is a hiragana character.
pub fn char_is_hiragana(ch: char) -> (r: bool)
    ensures
        r == is_hiragana(ch),
{
    let u = ch as u32;
    (0x3041 <= u && u <= 0x3096) // Hiragana
        || (0x3099 <= u && u <= 0x309F) // Hiragana voicing marks and iteration marks
        || (0x1B100 <= u && u <= 0x1B12F) // Kana Extended-A
        || (0x1AFF0 <= u && u <= 0x1AFFF) // Kana Extended-B
        || (0x1B000 <= u && u <= 0x1B0FF) // Kana Supplement
        || (0x1B130 <= u && u <= 0x1B16F) // Small Kana Extension
}

/// Determine whether a character is a katakana character.
pub fn char_is_katakana(ch: char) -> (r: bool)
    ensures
        r == is_katakana(ch),
{
    let u = ch as u32;
    0x30A0 <= u && u <= 0x30FF // Katakana
}

/// Determine whether a character is a kanji, or CJK Unified Ideographs,
/// character.
pub fn char_is_kanji(ch: char) -> (r: bool)
    ensures
        r == is_kanji(ch),
{
    let u = ch as u32;
    (0x4E00 <= u && u <= 0x9FFF) // CJK Unified Ideographs
        || (0x3400 <= u && u <= 0x4DBF) // CJK Unified Ideographs Extension A
        || (0x20000 <= u && u <= 0x2A6DF) // CJK Unified Ideographs Extension B
        || (0x2A700 <= u && u <= 0x2B739) // CJK Unified Ideographs Extension C
        || (0x2B740 <= u && u <= 0x2B81D) // CJK Unified Ideographs Extension D
        || (0x2B820 <= u && u <= 0x2CEA1) // CJK Unified Ideographs Extension E
        || (0x2CEB0 <= u && u <= 0x2EBE0) // CJK Unified Ideographs Extension F
        || (0x30000 <= u && u <= 0x3134A) // CJK Unified Ideographs Extension G
        || (0x31350 <= u && u <= 0x323AF) // CJK Unified Ideographs Extension H
        || (0x2EBF0 <= u && u <= 0x2EE5D) // CJK Unified Ideographs Extension I
        || (0xF900 <= u && u <= 0xFAFF) // CJK Compatibility Ideographs
        || (0x2F800 <= u && u <= 0x2FA1F) // CJK Compatibility Ideographs Supplement
}

/// Whether a scalar value is a line ending under the given policy.
pub open spec fn is_line_ending(policy: LineEndingPolicy, c: char) -> bool {
    match policy {
        LineEndingPolicy::LineFeedOnly => c == '\n',
        LineEndingPolicy::Unicode => {
            ||| c == '\n'
            ||| c == '\u{000B}'
            ||| c == '\u{000C}'
            ||| c == '\u{0085}'
            ||| c == '\u{2028}'
            ||| c == '\u{2029}'
        },
    }
}

/// Determine whether a character is a line ending under the given policy.
pub fn char_is_line_ending_with(policy: LineEndingPolicy, ch: char) -> (r: bool)
    ensures
        r == is_line_ending(policy, ch),
{
    match policy {
        LineEndingPolicy::LineFeedOnly => ch == '\n',
        LineEndingPolicy::Unicode => {
            ch == '\n' || ch == '\u{000B}' || ch == '\u{000C}' || ch == '\u{0085}'
                || ch == '\u{2028}' || ch == '\u{2029}'
        },
    }
}

/// Determine whether a character is a line ending under the default
/// policy, which recognizes only the line feed.
pub fn char_is_line_ending(ch: char) -> (r: bool)
    ensures
        r == is_line_ending(LineEndingPolicy::LineFeedOnly, ch),
{
    char_is_line_ending_with(LineEndingPolicy::LineFeedOnly, ch)
}

/// Whether a scalar value belongs to the narrow whitespace set: an
/// explicit list of non-breaking and special spaces, plus the contiguous
/// run from the en quad through the zero-width space.
pub open spec fn is_narrow_whitespace(c: char) -> bool {
    ||| c == '\u{0009}'
    ||| c == '\u{0020}'
    ||| c == '\u{00A0}'
    ||| c == '\u{180E}'
    ||| c == '\u{202F}'
    ||| c == '\u{205F}'
    ||| c == '\u{3000}'
    ||| c == '\u{FEFF}'
    ||| (0x2000 <= c as u32 && c as u32 <= 0x200B)
}

/// Determine whether a character qualifies as (non-line-break)
/// whitespace.
///
/// This is a deliberately narrow, display-aware test, distinct from the
/// permissive `char::is_whitespace` property the classifier itself uses:
/// it recognizes only an enumerated set of spacing characters.
pub fn char_is_whitespace(ch: char) -> (r: bool)
    ensures
        r == is_narrow_whitespace(ch),
{
    // The Ogham space mark (U+1680) is deliberately absent: it is usually
    // displayed as a dash, not as whitespace.
    match ch {
        '\u{0009}' | // Character Tabulation
        '\u{0020}' | // Space
        '\u{00A0}' | // No-break Space
        '\u{180E}' | // Mongolian Vowel Separator
        '\u{202F}' | // Narrow No-break Space
        '\u{205F}' | // Medium Mathematical Space
        '\u{3000}' | // Ideographic Space
        '\u{FEFF}'   // Zero Width No-break Space
        => true,

        // En Quad, Em Quad, En Space, Em Space, Three-per-em Space,
        // Four-per-em Space, Six-per-em Space, Figure Space,
        // Punctuation Space, Thin Space, Hair Space, Zero Width Space.
        _ => {
            let u = ch as u32;
            0x2000 <= u && u <= 0x200B
        },
    }
}

/// Whether a scalar value is word-forming: alphanumeric under the Unicode
/// alphanumeric property, or the underscore.
pub open spec fn is_word_char(c: char) -> bool {
    unicode::is_unicode_alphanumeric(c) || c == '_'
}

/// Determine whether a character is word-forming.
pub fn char_is_word(ch: char) -> (r: bool)
    ensures
        r == is_word_char(ch),
{
    unicode::unicode_alphanumeric(ch) || ch == '_'
}

/// Whether a general category name belongs to the set this library counts
/// as punctuation: every punctuation category, together with the math,
/// currency, and modifier symbol categories. The widening is deliberate,
/// so that, for example, mathematical operators and currency signs read as
/// punctuation rather than as unknown.
pub open spec fn is_punctuation_category(name: Seq<char>) -> bool {
    ||| name == "OtherPunctuation"@
    ||| name == "OpenPunctuation"@
    ||| name == "ClosePunctuation"@
    ||| name == "InitialPunctuation"@
    ||| name == "FinalPunctuation"@
    ||| name == "ConnectorPunctuation"@
    ||| name == "DashPunctuation"@
    ||| name == "MathSymbol"@
    ||| name == "CurrencySymbol"@
    ||| name == "ModifierSymbol"@
}

/// Decide, from a general category name, whether that category counts as
/// punctuation for this library.
pub fn category_name_is_punctuation(name: &String) -> (r: bool)
    ensures
        r == is_punctuation_category(name@),
{
    *name == String::from_str("OtherPunctuation")
        || *name == String::from_str("OpenPunctuation")
        || *name == String::from_str("ClosePunctuation")
        || *name == String::from_str("InitialPunctuation")
        || *name == String::from_str("FinalPunctuation")
        || *name == String::from_str("ConnectorPunctuation")
        || *name == String::from_str("DashPunctuation")
        || *name == String::from_str("MathSymbol")
        || *name == String::from_str("CurrencySymbol")
        || *name == String::from_str("ModifierSymbol")
}

/// Whether a scalar value's general category counts as punctuation.
pub open spec fn is_punctuation_char(c: char) -> bool {
    is_punctuation_category(unicode::general_category_name_of(c))
}

/// Determine whether a character is punctuation, under this library's
/// widened reading of the Unicode general categories.
pub fn char_is_punctuation(ch: char) -> (r: bool)
    ensures
        r == is_punctuation_char(ch),
{
    let name = unicode::general_category_name(ch);
    category_name_is_punctuation(&name)
}

/// The category of a scalar value under the given line-ending policy:
/// the first of the predicates, in precedence order, that holds of it.
///
/// The precedence is a deliberate design choice. Scripts come before the
/// generic whitespace and word tests so that kana marks and CJK-adjacent
/// values are never miscategorized under the generic properties, and line
/// endings come before generic whitespace because every line-ending
/// character is also generic whitespace, yet an editor must treat the two
/// distinctly.
pub open spec fn spec_categorize(policy: LineEndingPolicy, c: char) -> CharCategory {
    if is_hiragana(c) {
        CharCategory::Hiragana
    } else if is_katakana(c) {
        CharCategory::Katakana
    } else if is_kanji(c) {
        CharCategory::Kanji
    } else if is_line_ending(policy, c) {
        CharCategory::Eol
    } else if unicode::is_unicode_whitespace(c) {
        CharCategory::Whitespace
    } else if is_word_char(c) {
        CharCategory::Word
    } else if is_punctuation_char(c) {
        CharCategory::Punctuation
    } else {
        CharCategory::Unknown
    }
}

/// Classify a character under the given line-ending policy. Total: every
/// character yields exactly one category, with no error path.
pub fn categorize_char_with(policy: LineEndingPolicy, ch: char) -> (cat: CharCategory)
    ensures
        cat == spec_categorize(policy, ch),
{
    if char_is_hiragana(ch) {
        CharCategory::Hiragana
    } else if char_is_katakana(ch) {
        CharCategory::Katakana
    } else if char_is_kanji(ch) {
        CharCategory::Kanji
    } else if char_is_line_ending_with(policy, ch) {
        CharCategory::Eol
    } else if unicode::unicode_whitespace(ch) {
        CharCategory::Whitespace
    } else if char_is_word(ch) {
        CharCategory::Word
    } else if char_is_punctuation(ch) {
        CharCategory::Punctuation
    } else {
        CharCategory::Unknown
    }
}

/// Classify a character under the default policy, which recognizes only
/// the line feed as a line ending.
pub fn categorize_char(ch: char) -> (cat: CharCategory)
    ensures
        cat == spec_categorize(LineEndingPolicy::LineFeedOnly, ch),
{
    categorize_char_with(LineEndingPolicy::LineFeedOnly, ch)
}

/// Totality: under either policy, every scalar value is assigned one of
/// the eight categories; there is no undefined or absent outcome.
pub proof fn lemma_categorize_total(policy: LineEndingPolicy, c: char)
    ensures
        spec_categorize(policy, c) == CharCategory::Whitespace
            || spec_categorize(policy, c) == CharCategory::Eol
            || spec_categorize(policy, c) == CharCategory::Word
            || spec_categorize(policy, c) == CharCategory::Punctuation
            || spec_categorize(policy, c) == CharCategory::Unknown
            || spec_categorize(policy, c) == CharCategory::Hiragana
            || spec_categorize(policy, c) == CharCategory::Katakana
            || spec_categorize(policy, c) == CharCategory::Kanji,
{
}

/// Determinism: the category of a scalar value is a function of the value
/// and the policy alone, so classifying the same value twice yields the
/// same category.
pub proof fn lemma_categorize_deterministic(policy: LineEndingPolicy, c1: char, c2: char)
    requires
        c1 == c2,
    ensures
        spec_categorize(policy, c1) == spec_categorize(policy, c2),
{
}

/// Disjointness by precedence: when a scalar value satisfies several of
/// the predicates, its category is that of the highest-precedence
/// predicate that holds, in the order hiragana, katakana, kanji, line
/// ending, whitespace, word, punctuation; a value satisfying none of them
/// is unknown.
pub proof fn lemma_categorize_precedence(policy: LineEndingPolicy, c: char)
    ensures
        is_hiragana(c) ==> spec_categorize(policy, c) == CharCategory::Hiragana,
        !is_hiragana(c) && is_katakana(c) ==> spec_categorize(policy, c)
            == CharCategory::Katakana,
        !is_hiragana(c) && !is_katakana(c) && is_kanji(c) ==> spec_categorize(policy, c)
            == CharCategory::Kanji,
        !is_hiragana(c) && !is_katakana(c) && !is_kanji(c) && is_line_ending(policy, c)
            ==> spec_categorize(policy, c) == CharCategory::Eol,
        !is_hiragana(c) && !is_katakana(c) && !is_kanji(c) && !is_line_ending(policy, c)
            && unicode::is_unicode_whitespace(c) ==> spec_categorize(policy, c)
            == CharCategory::Whitespace,
        !is_hiragana(c) && !is_katakana(c) && !is_kanji(c) && !is_line_ending(policy, c)
            && !unicode::is_unicode_whitespace(c) && is_word_char(c) ==> spec_categorize(
            policy,
            c,
        ) == CharCategory::Word,
        !is_hiragana(c) && !is_katakana(c) && !is_kanji(c) && !is_line_ending(policy, c)
            && !unicode::is_unicode_whitespace(c) && !is_word_char(c) && is_punctuation_char(c)
            ==> spec_categorize(policy, c) == CharCategory::Punctuation,
        !is_hiragana(c) && !is_katakana(c) && !is_kanji(c) && !is_line_ending(policy, c)
            && !unicode::is_unicode_whitespace(c) && !is_word_char(c) && !is_punctuation_char(c)
            ==> spec_categorize(policy, c) == CharCategory::Unknown,
{
}

/// Script coverage: the script predicates name disjoint blocks, so every
/// scalar value inside a listed hiragana, katakana, or kanji range is
/// classified as exactly that script, under either policy.
pub proof fn lemma_script_coverage(policy: LineEndingPolicy, c: char)
    ensures
        is_hiragana(c) ==> spec_categorize(policy, c) == CharCategory::Hiragana,
        is_katakana(c) ==> spec_categorize(policy, c) == CharCategory::Katakana,
        is_kanji(c) ==> spec_categorize(policy, c) == CharCategory::Kanji,
{
}

/// Line-ending precedence: a scalar value the line-ending recognizer
/// accepts is classified as a line ending, never as whitespace — even
/// though every such value also has the generic whitespace property. The
/// line-ending characters of both policies lie outside the script ranges,
/// so no hypothesis beyond the recognizer's answer is needed.
pub proof fn lemma_line_ending_precedence(policy: LineEndingPolicy, c: char)
    requires
        is_line_ending(policy, c),
    ensures
        spec_categorize(policy, c) == CharCategory::Eol,
{
}

} // verus!
