//! Recovery phrases.

use vstd::prelude::*;

verus! {

/// What parsing `words` as a recovery phrase gives: the phrase in its normal form, or the text of
/// the error.
pub uninterp spec fn parsed_mnemonic(words: Seq<char>) -> Result<Seq<char>, Seq<char>>;

/// `<bip39::Mnemonic as FromStr>::from_str`: the outcome is named, and depends on `words` alone.
/// The phrase comes back as its `Display` text, its words with one space between neighbours, the
/// error as its `Display` text.
#[verifier::external_body]
fn parse(words: &str) -> (outcome: Result<String, String>)
    ensures
        match outcome {
            Ok(phrase) => parsed_mnemonic(words@) == Ok::<Seq<char>, Seq<char>>(phrase@),
            Err(error) => parsed_mnemonic(words@) == Err::<Seq<char>, Seq<char>>(error@),
        },
{
    match words.parse::<bip39::Mnemonic>() {
        Ok(mnemonic) => Ok(mnemonic.to_string()),
        Err(error) => Err(error.to_string()),
    }
}

/// Parses a recovery phrase: its normal form, or the text of the error.
pub fn parse_mnemonic(words: &str) -> (outcome: Result<String, String>)
    ensures
        match outcome {
            Ok(phrase) => parsed_mnemonic(words@) == Ok::<Seq<char>, Seq<char>>(phrase@),
            Err(error) => parsed_mnemonic(words@) == Err::<Seq<char>, Seq<char>>(error@),
        },
{
    parse(words)
}

} // verus!
