use vstd::prelude::*;
use vstd::string::StringExecFns;
use crate::model::{model_named, Model};
use crate::pricing::{price, price_units, Side};
use crate::text::push_char;
use crate::tokens::{special_encoding, Tokenizer, TokenError, MAX_TEXT_CHARS};

verus! {

/// Token counts and prices of one request and its answer. Prices are in
/// units of 1/PRICE_SCALE of a currency unit.
#[derive(Clone, Copy, Debug, PartialEq, Eq, Structural)]
pub struct Report {
    pub request_tokens: usize,
    pub answer_tokens: usize,
    pub request_price: u128,
    pub answer_price: u128,
    pub total_price: u128,
}

impl Report {
    /// Counts and prices agree with the table, and the total is the exact sum.
    pub open spec fn is_report_for(self, model: Model) -> bool {
        &&& self.request_price == price_units(self.request_tokens as nat, model, Side::Request)
        &&& self.answer_price == price_units(self.answer_tokens as nat, model, Side::Answer)
        &&& self.total_price == self.request_price + self.answer_price
    }

    /// Prices the given token counts for a model.
    pub fn new(model: Model, request_tokens: usize, answer_tokens: usize) -> (r: Report)
        ensures
            r.request_tokens == request_tokens,
            r.answer_tokens == answer_tokens,
            r.is_report_for(model),
    {
        let request_price = price(request_tokens, model, Side::Request);
        let answer_price = price(answer_tokens, model, Side::Answer);
        Report {
            request_tokens,
            answer_tokens,
            request_price,
            answer_price,
            total_price: request_price + answer_price,
        }
    }

    /// The three-line report, each price with five decimals.
    pub fn to_text(&self) -> (r: String)
        ensures
            r@ == report_text(*self),
    {
        let mut out = String::from_str("Request price: ");
        push_money(&mut out, self.request_price);
        out.append(" for ");
        push_decimal(&mut out, self.request_tokens as u128);
        out.append(" tokens\nAnswer price: ");
        push_money(&mut out, self.answer_price);
        out.append(" for ");
        push_decimal(&mut out, self.answer_tokens as u128);
        out.append(" tokens\nTotal price: ");
        push_money(&mut out, self.total_price);
        out.append("\n");
        out
    }
}

/// Tokenizes both texts with the model's scheme and prices them.
pub fn estimate(request: &str, answer: &str, model: &str) -> (r: Result<Report, TokenError>)
    requires
        request@.len() <= MAX_TEXT_CHARS,
        answer@.len() <= MAX_TEXT_CHARS,
    ensures
        model_named(model@) is None <==> r == Err::<Report, TokenError>(
            TokenError::UnsupportedModel,
        ),
        model_named(model@) is Some ==> r is Ok,
        r matches Ok(rep) ==> {
            let m = model_named(model@)->Some_0;
            &&& rep.is_report_for(m)
            &&& rep.request_tokens == special_encoding(m.encoding_spec(), request@).len()
            &&& rep.answer_tokens == special_encoding(m.encoding_spec(), answer@).len()
        },
        answer@.len() == 0 ==> (r matches Ok(rep) ==> rep.answer_tokens == 0 && rep.answer_price
            == 0 && rep.total_price == rep.request_price),
{
    match Model::from_name(model) {
        None => Err(TokenError::UnsupportedModel),
        Some(m) => {
            let t = Tokenizer::for_model(m);
            let request_tokens = t.count(request);
            let answer_tokens = t.count(answer);
            Ok(Report::new(m, request_tokens, answer_tokens))
        },
    }
}

/// The character of a decimal digit.
pub open spec fn digit_char(d: nat) -> char {
    (d + 48) as char
}

/// The decimal numeral of `n`, without leading zeros.
pub open spec fn decimal(n: nat) -> Seq<char>
    decreases n,
{
    if n < 10 {
        seq![digit_char(n)]
    } else {
        decimal(n / 10).push(digit_char(n % 10))
    }
}

/// `n` below 100000 as exactly five digits.
pub open spec fn five_digits(n: nat) -> Seq<char> {
    seq![
        digit_char(n / 10000),
        digit_char(n / 1000 % 10),
        digit_char(n / 100 % 10),
        digit_char(n / 10 % 10),
        digit_char(n % 10),
    ]
}

/// A price of `units` (1/10^7 of a currency unit) rounded half up to
/// 1/10^5 and written with a dollar sign and five decimals.
pub open spec fn money(units: nat) -> Seq<char> {
    let r = (units + 50) / 100;
    "$"@ + decimal(r / 100000) + "."@ + five_digits(r % 100000)
}

pub open spec fn report_text(rep: Report) -> Seq<char> {
    "Request price: "@ + money(rep.request_price as nat) + " for "@ + decimal(
        rep.request_tokens as nat,
    ) + " tokens\nAnswer price: "@ + money(rep.answer_price as nat) + " for "@ + decimal(
        rep.answer_tokens as nat,
    ) + " tokens\nTotal price: "@ + money(rep.total_price as nat) + "\n"@
}

fn digit(d: u128) -> (c: char)
    requires
        d < 10,
    ensures
        c == digit_char(d as nat),
{
    ((d as u8) + 48u8) as char
}

/// Appends the decimal numeral of `n`.
pub fn push_decimal(out: &mut String, n: u128)
    ensures
        final(out)@ == old(out)@ + decimal(n as nat),
    decreases n,
{
    if n >= 10 {
        push_decimal(out, n / 10);
    }
    push_char(out, digit(n % 10));
    assert(final(out)@ =~= old(out)@ + decimal(n as nat));
}

/// Appends a price with a dollar sign and five decimals.
pub fn push_money(out: &mut String, units: u128)
    ensures
        final(out)@ == old(out)@ + money(units as nat),
{
    let r: u128 = if units > u128::MAX - 50 {
        (units / 100) + if units % 100 >= 50 { 1 } else { 0 }
    } else {
        (units + 50) / 100
    };
    assert(r == (units + 50) / 100);
    out.append("$");
    push_decimal(out, r / 100000);
    out.append(".");
    let f = r % 100000;
    push_char(out, digit(f / 10000));
    push_char(out, digit(f / 1000 % 10));
    push_char(out, digit(f / 100 % 10));
    push_char(out, digit(f / 10 % 10));
    push_char(out, digit(f % 10));
    assert(final(out)@ =~= old(out)@ + money(units as nat));
}

} // verus!
