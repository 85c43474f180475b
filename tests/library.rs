use gptokenomics::invocation::{plan_sources, InvocationError, Options, Source};
use gptokenomics::model::{str_eq, Encoding, Model};
use gptokenomics::pricing::{calculate_price, price, PriceError, Side, PRICE_SCALE, RATE_SCALE};
use gptokenomics::report::{estimate, Report};
use gptokenomics::text::{chars_of, join_lines};
use gptokenomics::tokens::{count_tokens, TokenError, Tokenizer, MAX_TEXT_CHARS};

const MODELS: [&str; 6] = ["gpt-4", "gpt-3.5-turbo", "davinci", "curie", "babbage", "ada"];

fn no_options() -> Options {
    Options {
        request_file: None,
        request_data: None,
        answer_file: None,
        answer_data: None,
        answer: false,
        request: false,
    }
}

#[test]
fn empty_text_has_no_tokens_for_every_model() {
    for m in MODELS {
        assert_eq!(count_tokens("", m), Ok(0), "model {}", m);
    }
}

#[test]
fn hello_is_one_token() {
    assert_eq!(count_tokens("Hello", "gpt-3.5-turbo"), Ok(1));
    assert_eq!(count_tokens("Hello", "davinci"), Ok(1));
    assert_eq!(count_tokens("Hello world", "gpt-4"), Ok(2));
}

#[test]
fn special_tokens_are_counted_as_one() {
    assert_eq!(count_tokens("<|endoftext|>", "gpt-4"), Ok(1));
    assert_eq!(count_tokens("<|endoftext|>", "ada"), Ok(1));
}

#[test]
fn tokenizer_follows_model_encoding() {
    let t = Tokenizer::for_model(Model::Curie);
    assert_eq!(t.encoding(), Encoding::R50k);
    assert_eq!(t.count("Hello world"), 2);
    let t = Tokenizer::for_model(Model::Gpt4);
    assert_eq!(t.encoding(), Encoding::Cl100k);
}

#[test]
fn unknown_model_is_refused_by_counting() {
    assert_eq!(count_tokens("Hello", "gpt-5"), Err(TokenError::UnsupportedModel));
    assert_eq!(count_tokens("", "GPT-4"), Err(TokenError::UnsupportedModel));
    assert_eq!(count_tokens("", ""), Err(TokenError::UnsupportedModel));
}

#[test]
fn unknown_model_is_refused_by_pricing() {
    assert_eq!(calculate_price(10, "gpt-5", "request"), Err(PriceError::UnsupportedModel));
    assert_eq!(calculate_price(10, "gpt-5", "bogus"), Err(PriceError::UnsupportedModel));
    assert_eq!(calculate_price(10, "ada ", "answer"), Err(PriceError::UnsupportedModel));
}

#[test]
fn unknown_operation_is_refused() {
    assert_eq!(calculate_price(10, "ada", "reply"), Err(PriceError::UnknownOperation));
}

#[test]
fn price_follows_table() {
    // 1000 tokens cost exactly the table entry.
    assert_eq!(calculate_price(1000, "gpt-4", "request"), Ok(300_000));
    assert_eq!(calculate_price(1000, "gpt-4", "answer"), Ok(600_000));
    assert_eq!(calculate_price(1000, "gpt-3.5-turbo", "request"), Ok(20_000));
    assert_eq!(calculate_price(1000, "davinci", "answer"), Ok(200_000));
    assert_eq!(calculate_price(1000, "curie", "request"), Ok(20_000));
    assert_eq!(calculate_price(1000, "babbage", "answer"), Ok(5_000));
    assert_eq!(calculate_price(1000, "ada", "request"), Ok(4_000));
    assert_eq!(calculate_price(0, "gpt-4", "answer"), Ok(0));
    // price / PRICE_SCALE == tokens * (entry / RATE_SCALE) / 1000
    let tokens = 1234usize;
    let p = price(tokens, Model::Gpt4, Side::Answer);
    let expected = tokens as f64 * 0.06 / 1000.0;
    assert!((p as f64 / PRICE_SCALE as f64 - expected).abs() < 1e-12);
    assert_eq!(p * RATE_SCALE * 1000, tokens as u128 * 600 * PRICE_SCALE);
}

#[test]
fn largest_token_count_does_not_overflow() {
    assert_eq!(price(usize::MAX, Model::Gpt4, Side::Answer), usize::MAX as u128 * 600);
}

#[test]
fn hello_with_empty_answer() {
    let rep = estimate("Hello", "", "gpt-3.5-turbo").expect("supported model");
    assert_eq!(rep.request_tokens, 1);
    assert_eq!(rep.answer_tokens, 0);
    assert_eq!(rep.answer_price, 0);
    assert_eq!(rep.total_price, rep.request_price);
    let text = rep.to_text();
    assert!(text.contains("Answer price: $0.00000 for 0 tokens"));
    assert_eq!(
        text,
        "Request price: $0.00000 for 1 tokens\nAnswer price: $0.00000 for 0 tokens\nTotal price: $0.00000\n"
    );
}

#[test]
fn estimate_refuses_unknown_model() {
    assert_eq!(estimate("a", "b", "gpt-5"), Err(TokenError::UnsupportedModel));
}

#[test]
fn total_is_sum_of_prices() {
    let rep = Report::new(Model::Gpt4, 1000, 500);
    assert_eq!(rep.request_price, 300_000);
    assert_eq!(rep.answer_price, 300_000);
    assert_eq!(rep.total_price, rep.request_price + rep.answer_price);
    assert_eq!(
        rep.to_text(),
        "Request price: $0.03000 for 1000 tokens\nAnswer price: $0.03000 for 500 tokens\nTotal price: $0.06000\n"
    );
}

#[test]
fn prices_round_half_up_to_five_decimals() {
    // 75 ada tokens: 300 units, $0.00003; 37 tokens: 148 units, $0.00001.
    let rep = Report::new(Model::Ada, 37, 75);
    assert_eq!(
        rep.to_text(),
        "Request price: $0.00001 for 37 tokens\nAnswer price: $0.00003 for 75 tokens\nTotal price: $0.00004\n"
    );
    // 10 babbage tokens: 50 units, a tie, rounds up.
    let rep = Report::new(Model::Babbage, 10, 0);
    assert!(rep.to_text().starts_with("Request price: $0.00001 for 10 tokens\n"));
    // large counts carry into the whole part
    let rep = Report::new(Model::Gpt4, 2_000_000, 0);
    assert!(rep.to_text().starts_with("Request price: $60.00000 for 2000000 tokens\n"));
}

#[test]
fn file_lines_are_joined_without_trailing_newline() {
    assert_eq!(join_lines("foo\nbar\n"), "foo\nbar");
    assert_eq!(join_lines("foo\nbar"), "foo\nbar");
}

#[test]
fn joining_handles_crlf_and_empty_lines() {
    assert_eq!(join_lines(""), "");
    assert_eq!(join_lines("\n"), "");
    assert_eq!(join_lines("\n\n"), "\n");
    assert_eq!(join_lines("a\r\nb\r\n"), "a\nb");
    assert_eq!(join_lines("a\n\nb"), "a\n\nb");
    assert_eq!(join_lines("x\r"), "x\r");
    assert_eq!(join_lines("x\ry"), "x\ry");
    assert_eq!(join_lines("é\nü"), "é\nü");
}

#[test]
fn chars_are_kept_in_order() {
    assert_eq!(chars_of("aé"), vec!['a', 'é']);
}

#[test]
fn both_stdin_flags_are_refused() {
    let mut o = no_options();
    o.answer = true;
    o.request = true;
    o.request_file = Some("never-read.txt".to_string());
    assert!(matches!(plan_sources(&o), Err(InvocationError::BothFromStdin)));
}

#[test]
fn sources_follow_precedence() {
    let plan = plan_sources(&no_options()).unwrap();
    assert!(matches!(plan.request, Source::Empty));
    assert!(matches!(plan.answer, Source::Empty));

    let mut o = no_options();
    o.request_file = Some("req.txt".to_string());
    o.request_data = Some("inline".to_string());
    o.request = true;
    o.answer_data = Some("ans".to_string());
    let plan = plan_sources(&o).unwrap();
    assert!(matches!(plan.request, Source::File(ref p) if p == "req.txt"));
    assert!(matches!(plan.answer, Source::Inline(ref t) if t == "ans"));

    let mut o = no_options();
    o.request_data = Some("Hello".to_string());
    o.answer = true;
    let plan = plan_sources(&o).unwrap();
    assert!(matches!(plan.request, Source::Inline(ref t) if t == "Hello"));
    assert!(matches!(plan.answer, Source::Stdin));

    let mut o = no_options();
    o.request = true;
    o.answer_file = Some("ans.txt".to_string());
    let plan = plan_sources(&o).unwrap();
    assert!(matches!(plan.request, Source::Stdin));
    assert!(matches!(plan.answer, Source::File(ref p) if p == "ans.txt"));
}

#[test]
fn model_names_are_exact() {
    assert_eq!(Model::from_name("gpt-4"), Some(Model::Gpt4));
    assert_eq!(Model::from_name("gpt-3.5-turbo"), Some(Model::Gpt35Turbo));
    assert_eq!(Model::from_name("davinci"), Some(Model::Davinci));
    assert_eq!(Model::from_name("curie"), Some(Model::Curie));
    assert_eq!(Model::from_name("babbage"), Some(Model::Babbage));
    assert_eq!(Model::from_name("ada"), Some(Model::Ada));
    assert_eq!(Model::from_name("Ada"), None);
    assert_eq!(Model::Babbage.encoding(), Encoding::R50k);
    assert_eq!(Model::Gpt35Turbo.encoding(), Encoding::Cl100k);
    assert_eq!(Side::from_name("answer"), Some(Side::Answer));
    assert!(str_eq("abc", "abc"));
    assert!(!str_eq("abc", "abd"));
    assert!(!str_eq("abc", "ab"));
}

#[test]
fn whitespace_run_is_counted() {
    assert!(MAX_TEXT_CHARS >= 2000);
    let text = " ".repeat(2000);
    assert!(count_tokens(&text, "gpt-4").unwrap() > 0);
    assert!(count_tokens(&text, "ada").unwrap() > 0);
}

#[test]
fn models_sharing_a_scheme_count_alike() {
    let text = "The quick brown fox <|endoftext|> jumps";
    assert_eq!(count_tokens(text, "gpt-4"), count_tokens(text, "gpt-3.5-turbo"));
    assert_eq!(count_tokens(text, "davinci"), count_tokens(text, "curie"));
    assert_eq!(count_tokens(text, "babbage"), count_tokens(text, "ada"));
}
