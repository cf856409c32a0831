//! The renderer's output format against the reference pretty encoder:
//! both must produce the same document for the same titles.
use catalogue_scraper::json::render_json;
use catalogue_scraper::record::Record;

fn reference_pretty(titles: &[&str]) -> String {
    let mut entries: Vec<serde_json::Value> = Vec::new();
    for title in titles {
        let mut object = serde_json::Map::new();
        object.insert(
            "title".to_owned(),
            serde_json::Value::String((*title).to_owned()),
        );
        entries.push(serde_json::Value::Object(object));
    }
    serde_json::to_string_pretty(&serde_json::Value::Array(entries)).unwrap()
}

fn rendered(titles: &[&str]) -> String {
    let records: Vec<Record> = titles
        .iter()
        .map(|t| Record { title: (*t).to_owned() })
        .collect();
    render_json(&records)
}

#[test]
fn matches_reference_encoder_on_plain_titles() {
    let titles = ["Sapiens", "Dune1", "A Tale of Two Cities"];
    assert_eq!(rendered(&titles), reference_pretty(&titles));
}

#[test]
fn matches_reference_encoder_on_empty_input() {
    let titles: [&str; 0] = [];
    assert_eq!(rendered(&titles), reference_pretty(&titles));
}

#[test]
fn matches_reference_encoder_on_escaped_characters() {
    let titles = ["say \"hi\"", "back\\slash", "line\nbreak", "tab\there", "bell\u{07}ring"];
    assert_eq!(rendered(&titles), reference_pretty(&titles));
}

#[test]
fn matches_reference_encoder_on_non_ascii_titles() {
    let titles = ["Der Process", "\u{00c9}mile Zola \u{2014} Germinal", "\u{4e09}\u{56fd}\u{6f14}\u{4e49}"];
    assert_eq!(rendered(&titles), reference_pretty(&titles));
}

#[test]
fn escapes_quotes_and_control_characters() {
    let out = rendered(&["a\"b\\c\nd\u{01}e"]);
    assert_eq!(
        out,
        "[\n  {\n    \"title\": \"a\\\"b\\\\c\\nd\\u0001e\"\n  }\n]"
    );
}
