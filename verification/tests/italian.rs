use data_fetcher::italian::{
    apply_cell, fill_from_description, fill_from_table, italian_word, word_from_items, FeedItem,
    ItalianError, ItalianWord, TableRow,
};
use data_fetcher::italian::WordReading;

const DESCRIPTION: &str = "<table>\
<tr><th>Part of speech:</th><td>noun</td></tr>\
<tr><th>Example sentence:</th><td>Il gatto dorme.</td></tr>\
<tr><th>Sentence meaning:</th><td>The cat sleeps.</td></tr>\
</table>";

fn feed(items: &str) -> Vec<u8> {
    format!(
        "<?xml version=\"1.0\"?><rss version=\"2.0\"><channel><title>Italian Word of the Day</title>\
<link>http://example.com</link><description>Words</description>{items}</channel></rss>"
    )
    .into_bytes()
}

fn item(title: Option<&str>, description: Option<&str>) -> String {
    let mut s = String::from("<item>");
    if let Some(t) = title {
        s.push_str(&format!("<title>{t}</title>"));
    }
    if let Some(d) = description {
        s.push_str(&format!("<description><![CDATA[{d}]]></description>"));
    }
    s.push_str("</item>");
    s
}

fn strings(v: &[&str]) -> Vec<String> {
    v.iter().map(|s| s.to_string()).collect()
}

#[test]
fn default_word_is_empty() {
    let w = ItalianWord::default();
    assert_eq!(w.word, "");
    assert_eq!(w.part_of_speech, "");
    assert_eq!(w.italian_sentence, "");
    assert_eq!(w.english_sentence, "");
}

#[test]
fn apply_cell_known_headers() {
    let mut w = ItalianWord::default();
    apply_cell(&mut w, "part of speech:", "verb");
    apply_cell(&mut w, "example sentence:", "Io canto.");
    apply_cell(&mut w, "sentence meaning:", "I sing.");
    assert_eq!(w.part_of_speech, "verb");
    assert_eq!(w.italian_sentence, "Io canto.");
    assert_eq!(w.english_sentence, "I sing.");
    assert_eq!(w.word, "");
}

#[test]
fn apply_cell_unknown_header_changes_nothing() {
    let mut w = ItalianWord::default();
    apply_cell(&mut w, "pronunciation:", "kan-to");
    apply_cell(&mut w, "Part of speech:", "verb");
    assert_eq!(w.part_of_speech, "");
    assert_eq!(w.italian_sentence, "");
    assert_eq!(w.english_sentence, "");
}

#[test]
fn fill_from_table_lowercases_headers() {
    let mut w = ItalianWord::default();
    let rows = vec![TableRow {
        headers: strings(&["PART OF SPEECH:"]),
        cells: strings(&["adjective"]),
    }];
    fill_from_table(&mut w, &rows);
    assert_eq!(w.part_of_speech, "adjective");
}

#[test]
fn fill_from_table_pairs_up_to_the_shorter_list() {
    let mut w = ItalianWord::default();
    let rows = vec![
        TableRow {
            headers: strings(&["Part of speech:", "Example sentence:"]),
            cells: strings(&["noun"]),
        },
        TableRow {
            headers: strings(&["Sentence meaning:"]),
            cells: strings(&["It rains.", "extra"]),
        },
    ];
    fill_from_table(&mut w, &rows);
    assert_eq!(w.part_of_speech, "noun");
    assert_eq!(w.italian_sentence, "");
    assert_eq!(w.english_sentence, "It rains.");
}

#[test]
fn later_rows_override_earlier_ones() {
    let mut w = ItalianWord::default();
    let rows = vec![
        TableRow { headers: strings(&["Part of speech:"]), cells: strings(&["noun"]) },
        TableRow { headers: strings(&["Part of speech:"]), cells: strings(&["verb"]) },
    ];
    fill_from_table(&mut w, &rows);
    assert_eq!(w.part_of_speech, "verb");
}

#[test]
fn fill_from_description_reads_the_table() {
    let mut w = ItalianWord::default();
    w.word = "gatto".to_string();
    fill_from_description(&mut w, DESCRIPTION);
    assert_eq!(w.word, "gatto");
    assert_eq!(w.part_of_speech, "noun");
    assert_eq!(w.italian_sentence, "Il gatto dorme.");
    assert_eq!(w.english_sentence, "The cat sleeps.");
}

#[test]
fn fill_from_description_without_table_changes_nothing() {
    let mut w = ItalianWord::default();
    fill_from_description(&mut w, "<p>No table here</p>");
    assert_eq!(w.part_of_speech, "");
    assert_eq!(w.italian_sentence, "");
    assert_eq!(w.english_sentence, "");
}

#[test]
fn word_from_items_no_items() {
    assert!(matches!(word_from_items(&Vec::new()), Err(ItalianError::WordError)));
}

#[test]
fn word_from_items_missing_description() {
    let items = vec![FeedItem { title: Some("gatto".to_string()), description: None }];
    assert!(matches!(word_from_items(&items), Err(ItalianError::DescriptionError)));
}

#[test]
fn word_from_items_missing_title() {
    let items = vec![FeedItem { title: None, description: Some(DESCRIPTION.to_string()) }];
    let w = word_from_items(&items).unwrap().word;
    assert_eq!(w.word, "WORD NOT FOUND");
    assert_eq!(w.part_of_speech, "noun");
}

#[test]
fn word_from_items_uses_first_item_only() {
    let items = vec![
        FeedItem { title: Some("primo".to_string()), description: Some("<p>none</p>".to_string()) },
        FeedItem { title: Some("secondo".to_string()), description: Some(DESCRIPTION.to_string()) },
    ];
    let w = word_from_items(&items).unwrap().word;
    assert_eq!(w.word, "primo");
    assert_eq!(w.part_of_speech, "");
}

#[test]
fn italian_word_from_feed() {
    let bytes = feed(&(item(Some("gatto"), Some(DESCRIPTION)) + &item(Some("cane"), None)));
    let w = italian_word(&bytes).unwrap().word;
    assert_eq!(w.word, "gatto");
    assert_eq!(w.part_of_speech, "noun");
    assert_eq!(w.italian_sentence, "Il gatto dorme.");
    assert_eq!(w.english_sentence, "The cat sleeps.");
}

#[test]
fn italian_word_not_rss() {
    assert!(matches!(italian_word(b"this is not xml"), Err(ItalianError::RssError(_))));
}

#[test]
fn italian_word_empty_channel() {
    assert!(matches!(italian_word(&feed("")), Err(ItalianError::WordError)));
}

#[test]
fn italian_word_first_item_without_description() {
    let bytes = feed(&item(Some("gatto"), None));
    assert!(matches!(italian_word(&bytes), Err(ItalianError::DescriptionError)));
}

#[test]
fn italian_word_first_item_without_title() {
    let bytes = feed(&item(None, Some(DESCRIPTION)));
    let w = italian_word(&bytes).unwrap().word;
    assert_eq!(w.word, "WORD NOT FOUND");
    assert_eq!(w.english_sentence, "The cat sleeps.");
}

#[test]
fn apply_cell_reports_whether_the_header_is_known() {
    let mut w = ItalianWord::default();
    assert!(apply_cell(&mut w, "sentence meaning:", "It is hot."));
    assert!(!apply_cell(&mut w, "gender:", "f"));
    assert_eq!(w.english_sentence, "It is hot.");
}

#[test]
fn fill_from_table_reports_unknown_headers_in_order() {
    let mut w = ItalianWord::default();
    let rows = vec![
        TableRow { headers: strings(&["Gender:", "Part of speech:"]), cells: strings(&["f", "noun"]) },
        TableRow { headers: strings(&["PRONUNCIATION:"]), cells: strings(&["GAT-to"]) },
    ];
    let unknown = fill_from_table(&mut w, &rows);
    assert_eq!(unknown, strings(&["gender:", "pronunciation:"]));
    assert_eq!(w.part_of_speech, "noun");
}

#[test]
fn unknown_row_changes_no_field_and_is_reported() {
    let with_extra = DESCRIPTION.replace("</table>", "<tr><th>Gender:</th><td>f</td></tr></table>");
    let plain: WordReading = italian_word(&feed(&item(Some("casa"), Some(DESCRIPTION)))).unwrap();
    let extra: WordReading = italian_word(&feed(&item(Some("casa"), Some(&with_extra)))).unwrap();
    assert_eq!(plain.word.word, extra.word.word);
    assert_eq!(plain.word.part_of_speech, extra.word.part_of_speech);
    assert_eq!(plain.word.italian_sentence, extra.word.italian_sentence);
    assert_eq!(plain.word.english_sentence, extra.word.english_sentence);
    assert!(plain.unknown_headers.is_empty());
    assert_eq!(extra.unknown_headers, strings(&["gender:"]));
}

#[test]
fn fill_from_description_reports_unknown_headers() {
    let mut w = ItalianWord::default();
    let unknown = fill_from_description(&mut w, "<table><tr><th>Note:</th><td>x</td></tr></table>");
    assert_eq!(unknown, strings(&["note:"]));
}
