use catalogue_scraper::aggregate::{append_all, ResultAggregator};
use catalogue_scraper::extract::{extract_titles, page_records, PageOutcome};
use catalogue_scraper::json::render_json;
use catalogue_scraper::limiter::RateLimiter;
use catalogue_scraper::record::Record;
use catalogue_scraper::run::{Phase, Run};
use catalogue_scraper::urls::{build_page_urls, page_url};
use catalogue_scraper::Config;

fn record(title: &str) -> Record {
    Record { title: title.to_owned() }
}

#[test]
fn default_config_matches_reference() {
    let c = Config::default();
    assert_eq!(c.base_url, "https://books.toscrape.com/");
    assert_eq!(c.page_count, 5);
    assert_eq!(c.min_title_len, 4);
    assert_eq!(c.rate_per_sec, 1);
}

#[test]
fn page_urls_reference_layout() {
    let urls = build_page_urls("https://books.toscrape.com/", 5);
    assert_eq!(urls.len(), 5);
    assert_eq!(urls[0], "https://books.toscrape.com/index.html");
    assert_eq!(urls[1], "https://books.toscrape.com/catalogue/page-2.html");
    assert_eq!(urls[2], "https://books.toscrape.com/catalogue/page-3.html");
    assert_eq!(urls[3], "https://books.toscrape.com/catalogue/page-4.html");
    assert_eq!(urls[4], "https://books.toscrape.com/catalogue/page-5.html");
}

#[test]
fn page_urls_zero_pages() {
    let urls = build_page_urls("https://example.org/", 0);
    assert!(urls.is_empty());
}

#[test]
fn page_url_two_digit_page_number() {
    let url = page_url("https://example.org/", 12);
    assert_eq!(url, "https://example.org/catalogue/page-12.html");
}

#[test]
fn extract_keeps_long_titles_and_rejects_short_ones() {
    let html = "<html><body>\
        <h3><a title=\"Sapiens\" href=\"a.html\">x</a></h3>\
        <h3><a title=\"It\" href=\"b.html\">y</a></h3>\
        <h3><a title=\"Dune\" href=\"c.html\">z</a></h3>\
        </body></html>";
    let out = extract_titles(html, 4);
    let kept: Vec<&str> = out.kept.iter().map(|r| r.title.as_str()).collect();
    assert_eq!(kept, vec!["Sapiens"]);
    assert_eq!(out.rejected, vec!["It".to_owned(), "Dune".to_owned()]);
}

#[test]
fn scenario_single_page_three_titles() {
    let html = "<html><body>\
        <h3><a title=\"Sapiens\">x</a></h3>\
        <h3><a title=\"It\">y</a></h3>\
        <h3><a title=\"Dune1\">z</a></h3>\
        </body></html>";
    let out = extract_titles(html, 4);
    let rendered = render_json(&out.kept);
    assert_eq!(
        rendered,
        "[\n  {\n    \"title\": \"Sapiens\"\n  },\n  {\n    \"title\": \"Dune1\"\n  }\n]"
    );
}

#[test]
fn extract_no_matches_is_empty_not_an_error() {
    let out = extract_titles("<html><body><p>no headings here</p></body></html>", 4);
    assert!(out.kept.is_empty());
    assert!(out.rejected.is_empty());
}

#[test]
fn extract_skips_elements_without_the_attribute() {
    let html = "<html><body>\
        <h3><a href=\"a.html\">bare anchor</a></h3>\
        <h3><a title=\"Counted\">x</a></h3>\
        </body></html>";
    let out = extract_titles(html, 4);
    assert_eq!(out.kept.len(), 1);
    assert_eq!(out.kept[0].title, "Counted");
    assert!(out.rejected.is_empty());
}

#[test]
fn extract_threshold_is_strict() {
    let html = "<html><body>\
        <h3><a title=\"Four\">x</a></h3>\
        <h3><a title=\"Fives\">y</a></h3>\
        </body></html>";
    let out = extract_titles(html, 4);
    assert_eq!(out.kept.len(), 1);
    assert_eq!(out.kept[0].title, "Fives");
    assert_eq!(out.rejected, vec!["Four".to_owned()]);
}

#[test]
fn extraction_is_idempotent() {
    let html = "<html><body>\
        <h3><a title=\"Sapiens\">x</a></h3>\
        <h3><a title=\"It\">y</a></h3>\
        </body></html>";
    let first = extract_titles(html, 4);
    let second = extract_titles(html, 4);
    let first_kept: Vec<&str> = first.kept.iter().map(|r| r.title.as_str()).collect();
    let second_kept: Vec<&str> = second.kept.iter().map(|r| r.title.as_str()).collect();
    assert_eq!(first_kept, second_kept);
    assert_eq!(first.rejected, second.rejected);
}

#[test]
fn failed_page_contributes_nothing() {
    let outcome = PageOutcome::TransportError("connection refused".to_owned());
    let out = page_records(&outcome, 4);
    assert!(out.kept.is_empty());
    assert!(out.rejected.is_empty());
}

#[test]
fn fetched_page_contributes_its_extraction() {
    let body = "<html><body><h3><a title=\"Sapiens\">x</a></h3></body></html>";
    let outcome = PageOutcome::Body(body.to_owned());
    let out = page_records(&outcome, 4);
    assert_eq!(out.kept.len(), 1);
    assert_eq!(out.kept[0].title, "Sapiens");
}

#[test]
fn limiter_admits_one_per_second() {
    let mut limiter = RateLimiter::new(1);
    assert!(limiter.try_acquire(0));
    assert!(!limiter.try_acquire(1));
    assert!(!limiter.try_acquire(999_999_999));
    assert_eq!(limiter.next_ready(), 1_000_000_000);
    assert!(limiter.try_acquire(1_000_000_000));
    assert_eq!(limiter.next_ready(), 2_000_000_000);
}

#[test]
fn limiter_spaces_admissions_by_the_interval() {
    let mut limiter = RateLimiter::new(4);
    assert!(limiter.try_acquire(0));
    assert!(!limiter.try_acquire(249_999_999));
    assert!(limiter.try_acquire(250_000_000));
    assert!(limiter.try_acquire(600_000_000));
    assert_eq!(limiter.next_ready(), 850_000_000);
}

#[test]
fn limiter_refusal_changes_nothing() {
    let mut limiter = RateLimiter::new(1);
    assert!(limiter.try_acquire(5));
    let before = limiter.next_ready();
    assert!(!limiter.try_acquire(6));
    assert_eq!(limiter.next_ready(), before);
}

#[test]
fn aggregator_keeps_every_batch_in_order() {
    let mut agg = ResultAggregator::new();
    assert_eq!(agg.len(), 0);
    agg.append(vec![record("Sapiens"), record("Dune1")]);
    agg.append(vec![]);
    agg.append(vec![record("Hamlet"), record("Persuasion"), record("Middlemarch")]);
    assert_eq!(agg.len(), 5);
    let records = agg.snapshot();
    let titles: Vec<&str> = records.iter().map(|r| r.title.as_str()).collect();
    assert_eq!(titles, vec!["Sapiens", "Dune1", "Hamlet", "Persuasion", "Middlemarch"]);
}

#[test]
fn aggregator_append_all_sums_batch_sizes() {
    let mut agg = ResultAggregator::new();
    agg.append(vec![record("Sapiens")]);
    let batches = vec![
        vec![record("Dune1")],
        vec![],
        vec![record("Hamlet"), record("Persuasion")],
    ];
    append_all(&mut agg, batches);
    assert_eq!(agg.len(), 4);
    let records = agg.snapshot();
    let titles: Vec<&str> = records.iter().map(|r| r.title.as_str()).collect();
    assert_eq!(titles, vec!["Sapiens", "Dune1", "Hamlet", "Persuasion"]);
}

#[test]
fn run_joins_every_task_before_writing() {
    let mut run = Run::new(3);
    assert!(matches!(run.phase, Phase::Dispatching));
    run.note_dispatched();
    run.note_dispatched();
    run.note_dispatched();
    assert_eq!(run.dispatched, 3);
    run.begin_join();
    run.note_joined();
    run.note_joined();
    run.note_joined();
    assert_eq!(run.joined, 3);
    run.begin_write();
    assert!(matches!(run.phase, Phase::Writing));
    run.finish();
    assert!(matches!(run.phase, Phase::Done));
}

#[test]
fn run_over_zero_pages_writes_at_once() {
    let mut run = Run::new(0);
    run.begin_join();
    run.begin_write();
    assert!(matches!(run.phase, Phase::Writing));
    assert_eq!(run.dispatched, 0);
    assert_eq!(run.joined, 0);
}

#[test]
fn render_empty_collection_as_empty_array() {
    let records: Vec<Record> = Vec::new();
    assert_eq!(render_json(&records), "[]");
}

#[test]
fn render_single_record() {
    let records = vec![record("Sapiens")];
    assert_eq!(render_json(&records), "[\n  {\n    \"title\": \"Sapiens\"\n  }\n]");
}
