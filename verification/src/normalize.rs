//! Unicode canonical composition of message text, so that a letter spelled with
//! combining characters is seen as the letter it composes to.

use vstd::prelude::*;

verus! {

/// What NFC normalization returns for `text`.
pub uninterp spec fn nfc_output(text: Seq<char>) -> Seq<char>;

/// Whether normalizing `text` gives `text` back.
pub open spec fn is_normalized(text: Seq<char>) -> bool {
    nfc_output(text) == text
}

/// The normal form of `text`: what normalization returns for it, as long as
/// that is itself normalized, and otherwise `text` as it stands.
///
/// Normalization only ever returns normalized text, so for every text that is
/// normalized at run time this is its NFC form. The proviso extends that to
/// all sequences, which makes the function idempotent by definition.
pub open spec fn normal_form(text: Seq<char>) -> Seq<char> {
    if is_normalized(nfc_output(text)) {
        nfc_output(text)
    } else {
        text
    }
}

/// Collects what `unicode_normalization::UnicodeNormalization::nfc` yields for
/// the characters of `text`.
///
/// Not proved: that the result is the NFC form of `text`, which here only has
/// a name, and that it is in NFC already, so that normalizing it once more
/// changes nothing (the forms of Unicode Standard Annex #15, which the crate
/// implements, are idempotent).
#[verifier::external_body]
fn nfc_collect(text: &str) -> (out: String)
    ensures
        out@ == nfc_output(text@),
        nfc_output(out@) == out@,
{
    unicode_normalization::UnicodeNormalization::nfc(text.chars()).collect::<String>()
}

/// Brings `text` into Unicode Normalization Form C.
pub fn normalize(text: &str) -> (out: String)
    ensures
        out@ == normal_form(text@),
        is_normalized(out@),
{
    nfc_collect(text)
}

/// Normalizing twice gives what normalizing once gives.
pub proof fn lemma_normal_form_idempotent(text: Seq<char>)
    ensures
        normal_form(normal_form(text)) == normal_form(text),
{
}

} // verus!
