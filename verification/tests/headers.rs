use amqp_tools::cli::Cli;
use amqp_tools::headers::{parse_headers, render_headers, split_entry};
use amqp_tools::text::{find_first, push_decimal};
use lapin::types::{AMQPValue, FieldTable};

fn strings(items: &[&str]) -> Vec<String> {
    items.iter().map(|s| s.to_string()).collect()
}

fn table(items: &[(&str, &str)]) -> FieldTable {
    let mut t = FieldTable::default();
    for (k, v) in items {
        t.insert((*k).into(), AMQPValue::LongString((*v).into()));
    }
    t
}

#[test]
fn parse_reads_each_entry() {
    let got = parse_headers(&strings(&["a=1", "b=2"]));
    assert_eq!(got, table(&[("a", "1"), ("b", "2")]));
    assert_eq!(got.inner().len(), 2);
}

#[test]
fn parse_of_nothing_is_an_empty_table() {
    let got = parse_headers(&Vec::new());
    assert_eq!(got, FieldTable::default());
    assert_eq!(got.inner().len(), 0);
}

#[test]
fn parse_last_value_wins() {
    let got = parse_headers(&strings(&["a=1", "b=2", "a=3"]));
    assert_eq!(got, table(&[("a", "3"), ("b", "2")]));
    assert_eq!(got.inner().len(), 2);
}

#[test]
fn parse_drops_entry_without_separator() {
    let got = parse_headers(&strings(&["a=1", "broken", "b=2"]));
    assert_eq!(got, table(&[("a", "1"), ("b", "2")]));
    assert_eq!(got, parse_headers(&strings(&["a=1", "b=2"])));
}

#[test]
fn parse_splits_at_first_separator_only() {
    let got = parse_headers(&strings(&["a=b=c"]));
    assert_eq!(got, table(&[("a", "b=c")]));
}

#[test]
fn parse_keeps_empty_key_and_empty_value() {
    let got = parse_headers(&strings(&["=v", "k="]));
    assert_eq!(got, table(&[("", "v"), ("k", "")]));
}

#[test]
fn parse_counts_characters_not_bytes() {
    let got = parse_headers(&strings(&["ключ=значение", "é=ü=ö"]));
    assert_eq!(got, table(&[("ключ", "значение"), ("é", "ü=ö")]));
}

#[test]
fn split_entry_cases() {
    assert_eq!(split_entry("key=value"), Some(("key", "value")));
    assert_eq!(split_entry("key"), None);
    assert_eq!(split_entry(""), None);
    assert_eq!(split_entry("="), Some(("", "")));
    assert_eq!(split_entry("a==b"), Some(("a", "=b")));
}

#[test]
fn find_first_cases() {
    assert_eq!(find_first("abc=def=g", '='), Some(3));
    assert_eq!(find_first("abc", '='), None);
    assert_eq!(find_first("é=1", '='), Some(1));
}

#[test]
fn push_decimal_cases() {
    let mut s = String::from("n:");
    push_decimal(&mut s, 0);
    assert_eq!(s, "n:0");
    push_decimal(&mut s, 7);
    assert_eq!(s, "n:07");
    let mut s = String::new();
    push_decimal(&mut s, 1234567890);
    assert_eq!(s, "1234567890");
    let mut s = String::new();
    push_decimal(&mut s, u32::MAX);
    assert_eq!(s, "4294967295");
}

#[test]
fn cli_getters() {
    let cli = Cli {
        url: "amqp://localhost:5672".to_string(),
        exchange: "ex".to_string(),
        routing_key: Some("rk".to_string()),
        headers: Some(strings(&["a=1", "b=2"])),
    };
    assert_eq!(cli.url(), "amqp://localhost:5672");
    assert_eq!(cli.exchange(), "ex");
    assert_eq!(cli.routing_key(), "rk");
    assert_eq!(cli.headers(), Some(table(&[("a", "1"), ("b", "2")])));
}

#[test]
fn cli_defaults() {
    let cli = Cli {
        url: "amqp://host:1".to_string(),
        exchange: "ex".to_string(),
        routing_key: None,
        headers: None,
    };
    assert_eq!(cli.routing_key(), "");
    assert_eq!(cli.headers(), None);
}

#[test]
fn cli_no_headers_differs_from_empty_headers() {
    let mut cli = Cli {
        url: String::new(),
        exchange: String::new(),
        routing_key: None,
        headers: Some(Vec::new()),
    };
    assert_eq!(cli.headers(), Some(FieldTable::default()));
    cli.headers = None;
    assert_eq!(cli.headers(), None);
}

#[test]
fn render_no_headers_is_empty() {
    assert_eq!(render_headers(&None), "");
    assert_eq!(render_headers(&Some(FieldTable::default())), "");
}

#[test]
fn render_joins_by_ascending_key() {
    let t = table(&[("b", "2"), ("a", "1"), ("c", "x=y")]);
    assert_eq!(render_headers(&Some(t)), "a=1, b=2, c=x=y");
}

#[test]
fn render_single_header_has_no_separator() {
    assert_eq!(render_headers(&Some(table(&[("k", "v")]))), "k=v");
}

#[test]
fn render_value_of_another_kind_is_empty() {
    let mut t = table(&[("name", "n")]);
    t.insert("flag".into(), AMQPValue::Boolean(true));
    t.insert("size".into(), AMQPValue::LongUInt(3));
    assert_eq!(render_headers(&Some(t)), "flag=, name=n, size=");
}

#[test]
fn render_follows_parse() {
    let t = parse_headers(&strings(&["z=26", "nothing", "a=1", "z=0"]));
    assert_eq!(render_headers(&Some(t)), "a=1, z=0");
}

#[test]
fn render_orders_keys_character_by_character() {
    let t = table(&[("日", "3"), ("é", "2"), ("z", "1"), ("ab", "5"), ("a", "4"), ("", "0")]);
    assert_eq!(render_headers(&Some(t)), "=0, a=4, ab=5, z=1, é=2, 日=3");
}

#[test]
fn render_shows_ill_formed_text_leniently() {
    let mut t = FieldTable::default();
    t.insert("raw".into(), AMQPValue::LongString(vec![0x68, 0x69, 0xff].into()));
    assert_eq!(render_headers(&Some(t)), "raw=hi\u{fffd}");
}
