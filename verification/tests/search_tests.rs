use lightpdf::search::search_texts;

#[test]
fn test_search_is_case_insensitive() {
    // The hit depends on real case folding: if folding handed its text
    // back unchanged, "HELLO" would never match "hello".
    let texts = vec!["HELLO WORLD".to_string(), "nothing here".to_string()];
    let results = search_texts(&texts, "hello");
    assert_eq!(results.len(), 1);
    assert_eq!(results[0].page, 0);
    assert_eq!(results[0].preview, "HELLO WORLD");

    let results = search_texts(&texts, "HERE");
    assert_eq!(results.len(), 1);
    assert_eq!(results[0].page, 1);
}

#[test]
fn test_search_reports_pages_in_order() {
    let texts = vec![
        "alpha beta".to_string(),
        "gamma".to_string(),
        "beta again".to_string(),
    ];
    let results = search_texts(&texts, "beta");
    let pages: Vec<usize> = results.iter().map(|r| r.page).collect();
    assert_eq!(pages, [0, 2]);
}

#[test]
fn test_search_without_hits_is_empty() {
    let texts = vec!["alpha".to_string(), "beta".to_string()];
    assert!(search_texts(&texts, "gamma").is_empty());
}

#[test]
fn test_preview_window_around_hit() {
    // The hit sits deep in the text: the preview keeps thirty
    // characters of context on each side and marks the cut front.
    let text = format!("{}needle{}", "a".repeat(50), "b".repeat(50));
    let results = search_texts(&vec![text], "NEEDLE");
    assert_eq!(results.len(), 1);
    let expected = format!("...{}needle{}", "a".repeat(30), "b".repeat(30));
    assert_eq!(results[0].preview, expected);
}

#[test]
fn test_preview_at_text_start_has_no_ellipsis() {
    let results = search_texts(&vec!["needle in a haystack".to_string()], "needle");
    assert_eq!(results.len(), 1);
    assert_eq!(results[0].preview, "needle in a haystack");
}
