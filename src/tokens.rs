use vstd::prelude::*;
use crate::model::{model_named, Encoding, Model};
use tiktoken_rs::CoreBPE;

verus! {

/// tiktoken_rs::CoreBPE, a loaded byte-pair-encoding tokenizer, carried as an
/// opaque value.
#[verifier::external_type_specification]
#[verifier::external_body]
pub struct ExCoreBPE(CoreBPE);

/// The token ids that an encoding gives a text when every special token the
/// encoding knows is allowed in it.
pub uninterp spec fn special_encoding(encoding: Encoding, text: Seq<char>) -> Seq<usize>;

/// Why a text could not be tokenized.
#[derive(Clone, Copy, Debug, PartialEq, Eq, Structural)]
pub enum TokenError {
    UnsupportedModel,
}

/// The longest text, in characters, that is handed to the tokenizer. Its
/// splitting pattern backtracks once per character of a whitespace run and
/// fails past a million steps, so texts stay well under that.
pub const MAX_TEXT_CHARS: usize = 500_000;

/// Relies on tiktoken_rs::cl100k_base: builds the cl100k tokenizer from the
/// table that the crate embeds and fixed patterns, which always succeeds.
#[verifier::external_body]
fn cl100k_base() -> (r: Option<CoreBPE>)
    ensures
        r is Some,
{
    tiktoken_rs::cl100k_base().ok()
}

/// Relies on tiktoken_rs::r50k_base: builds the r50k tokenizer from the table
/// that the crate embeds and fixed patterns, which always succeeds.
#[verifier::external_body]
fn r50k_base() -> (r: Option<CoreBPE>)
    ensures
        r is Some,
{
    tiktoken_rs::r50k_base().ok()
}

/// A loaded tokenizer together with the scheme it was loaded for. The fields
/// are private: `Tokenizer::load` is the only way to pair them.
pub struct Tokenizer {
    encoding: Encoding,
    bpe: CoreBPE,
}

/// Relies on CoreBPE::encode_with_special_tokens: the ids of `text` under the
/// tokenizer's scheme, special tokens included; an empty text has none.
#[verifier::external_body]
fn encode_with_special_tokens(tokenizer: &Tokenizer, text: &str) -> (r: Vec<usize>)
    requires
        text@.len() <= MAX_TEXT_CHARS,
    ensures
        r@ == special_encoding(tokenizer.encoding, text@),
        text@.len() == 0 ==> r@.len() == 0,
{
    tokenizer.bpe.encode_with_special_tokens(text)
}

impl Tokenizer {
    pub closed spec fn encoding_spec(&self) -> Encoding {
        self.encoding
    }

    /// Loads the tokenizer of an encoding scheme.
    pub fn load(encoding: Encoding) -> (r: Tokenizer)
        ensures
            r.encoding_spec() == encoding,
    {
        let bpe = match encoding {
            Encoding::Cl100k => cl100k_base(),
            Encoding::R50k => r50k_base(),
        };
        Tokenizer { encoding, bpe: bpe.unwrap() }
    }

    /// Loads the tokenizer that a model uses.
    pub fn for_model(model: Model) -> (r: Tokenizer)
        ensures
            r.encoding_spec() == model.encoding_spec(),
    {
        Tokenizer::load(model.encoding())
    }

    pub fn encoding(&self) -> (r: Encoding)
        ensures
            r == self.encoding_spec(),
    {
        self.encoding
    }

    /// The number of tokens in `text`, special tokens included.
    pub fn count(&self, text: &str) -> (r: usize)
        requires
            text@.len() <= MAX_TEXT_CHARS,
        ensures
            r == special_encoding(self.encoding_spec(), text@).len(),
            text@.len() == 0 ==> r == 0,
    {
        encode_with_special_tokens(self, text).len()
    }
}

/// Counts the tokens of `text` under the scheme of the model named `model`.
pub fn count_tokens(text: &str, model: &str) -> (r: Result<usize, TokenError>)
    requires
        text@.len() <= MAX_TEXT_CHARS,
    ensures
        model_named(model@) is None ==> r == Err::<usize, TokenError>(
            TokenError::UnsupportedModel,
        ),
        model_named(model@) is Some ==> r == Ok::<usize, TokenError>(
            special_encoding(model_named(model@)->Some_0.encoding_spec(), text@).len() as usize,
        ),
        text@.len() == 0 && model_named(model@) is Some ==> r == Ok::<usize, TokenError>(0),
{
    match Model::from_name(model) {
        None => Err(TokenError::UnsupportedModel),
        Some(m) => Ok(Tokenizer::for_model(m).count(text)),
    }
}

} // verus!
