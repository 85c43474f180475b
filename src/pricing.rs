use vstd::prelude::*;
use crate::model::{model_named, str_eq, Model};

verus! {

/// Which half of an exchange is priced.
#[derive(Clone, Copy, Debug, PartialEq, Eq, Structural)]
pub enum Side {
    Request,
    Answer,
}

/// Why a price could not be computed.
#[derive(Clone, Copy, Debug, PartialEq, Eq, Structural)]
pub enum PriceError {
    UnsupportedModel,
    UnknownOperation,
}

/// Table entries are prices per 1000 tokens, counted in 1/RATE_SCALE of a
/// currency unit (0.002 per 1000 tokens is the entry 20).
pub const RATE_SCALE: u128 = 10_000;

/// Computed prices are counted in 1/PRICE_SCALE of a currency unit. With the
/// rate scale above, one token at rate `q` costs exactly `q` such units.
pub const PRICE_SCALE: u128 = 10_000_000;

/// The price table, per 1000 tokens, in units of 1/RATE_SCALE.
pub open spec fn rate(model: Model, side: Side) -> nat {
    match model {
        Model::Gpt4 => match side {
            Side::Request => 300,
            Side::Answer => 600,
        },
        Model::Gpt35Turbo => 20,
        Model::Davinci => 200,
        Model::Curie => 20,
        Model::Babbage => 5,
        Model::Ada => 4,
    }
}

/// The exact price of `tokens` tokens, in units of 1/PRICE_SCALE.
pub open spec fn price_units(tokens: nat, model: Model, side: Side) -> nat {
    tokens * rate(model, side)
}

/// The side that an operation name selects.
pub open spec fn side_named(name: Seq<char>) -> Option<Side> {
    if name == "request"@ {
        Some(Side::Request)
    } else if name == "answer"@ {
        Some(Side::Answer)
    } else {
        None
    }
}

/// What pricing by names gives: the model is checked before the operation.
pub open spec fn priced(tokens: nat, model: Seq<char>, operation: Seq<char>) -> Result<
    nat,
    PriceError,
> {
    match model_named(model) {
        None => Err(PriceError::UnsupportedModel),
        Some(m) => match side_named(operation) {
            None => Err(PriceError::UnknownOperation),
            Some(s) => Ok(price_units(tokens, m, s)),
        },
    }
}

impl Side {
    /// Looks a side up by its operation name, `request` or `answer`.
    pub fn from_name(name: &str) -> (r: Option<Side>)
        ensures
            r == side_named(name@),
    {
        if str_eq(name, "request") {
            Some(Side::Request)
        } else if str_eq(name, "answer") {
            Some(Side::Answer)
        } else {
            None
        }
    }
}

/// The table entry for a model and a side.
pub fn rate_of(model: Model, side: Side) -> (r: u128)
    ensures
        r == rate(model, side),
{
    match model {
        Model::Gpt4 => match side {
            Side::Request => 300,
            Side::Answer => 600,
        },
        Model::Gpt35Turbo => 20,
        Model::Davinci => 200,
        Model::Curie => 20,
        Model::Babbage => 5,
        Model::Ada => 4,
    }
}

/// The price of `num_tokens` tokens, in units of 1/PRICE_SCALE.
pub fn price(num_tokens: usize, model: Model, side: Side) -> (r: u128)
    ensures
        r == price_units(num_tokens as nat, model, side),
        r <= 0xffff_ffff_ffff_ffff * 600,
{
    let q = rate_of(model, side);
    assert(num_tokens * q <= 0xffff_ffff_ffff_ffff * 600) by (nonlinear_arith)
        requires
            num_tokens <= 0xffff_ffff_ffff_ffff,
            q <= 600,
    ;
    (num_tokens as u128) * q
}

/// Prices `num_tokens` tokens for a model and an operation given by name.
pub fn calculate_price(num_tokens: usize, model: &str, operation: &str) -> (r: Result<
    u128,
    PriceError,
>)
    ensures
        match priced(num_tokens as nat, model@, operation@) {
            Ok(p) => r == Ok::<u128, PriceError>(p as u128),
            Err(e) => r == Err::<u128, PriceError>(e),
        },
{
    match Model::from_name(model) {
        None => Err(PriceError::UnsupportedModel),
        Some(m) => match Side::from_name(operation) {
            None => Err(PriceError::UnknownOperation),
            Some(s) => Ok(price(num_tokens, m, s)),
        },
    }
}

/// The price is the token count times the table entry divided by 1000:
/// `price / PRICE_SCALE == tokens * (rate / RATE_SCALE) / 1000`, exactly.
pub proof fn lemma_price_follows_table(tokens: nat, model: Seq<char>, operation: Seq<char>)
    requires
        model_named(model) is Some,
        side_named(operation) is Some,
    ensures
        priced(tokens, model, operation) matches Ok(p) && p * (RATE_SCALE * 1000) == tokens * rate(
            model_named(model)->Some_0,
            side_named(operation)->Some_0,
        ) * PRICE_SCALE,
{
    let q = rate(model_named(model)->Some_0, side_named(operation)->Some_0);
    assert(tokens * q * 10_000_000 == tokens * q * (10_000 * 1000)) by (nonlinear_arith);
}

/// Pricing fails for every model name outside the table, whatever the operation.
pub proof fn lemma_unknown_model_is_refused(tokens: nat, model: Seq<char>, operation: Seq<char>)
    requires
        model_named(model) is None,
    ensures
        priced(tokens, model, operation) == Err::<nat, PriceError>(PriceError::UnsupportedModel),
{
}

} // verus!
