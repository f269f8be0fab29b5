use rmenu::MAX_SUGGESTIONS;
use rmenu::index::ExecutableIndex;
use rmenu::ranker::rank;

fn index_of(names: &[&str]) -> ExecutableIndex {
    let owned: Vec<String> = names.iter().map(|s| s.to_string()).collect();
    ExecutableIndex::from_names(owned)
}

fn chars_of(s: &str) -> Vec<char> {
    s.chars().collect()
}

#[test]
fn ranked_by_ascending_length() {
    // index = {"ls","less","lua"}, buffer = "l": all three match, and the
    // order is fixed by their distinct lengths (2, 3, 4).
    let index = index_of(&["ls", "less", "lua"]);
    let ranked = rank(&index, &chars_of("l"));
    assert_eq!(ranked, vec!["ls".to_string(), "lua".to_string(), "less".to_string()]);
}

#[test]
fn every_result_starts_with_prefix() {
    let index = index_of(&["less", "ls", "vim", "lua", "link", "cat"]);
    let ranked = rank(&index, &chars_of("l"));
    assert_eq!(ranked.len(), 4);
    for name in &ranked {
        assert!(name.starts_with("l"));
    }
}

#[test]
fn never_more_than_max_suggestions() {
    let index = index_of(&["a1", "a22", "a333", "a4444", "a55555", "a666666", "a7777777"]);
    let ranked = rank(&index, &chars_of("a"));
    assert_eq!(ranked.len(), MAX_SUGGESTIONS);
}

#[test]
fn truncation_keeps_the_shortest() {
    let index = index_of(&["a1", "a22", "a333", "a4444", "a55555", "a666666", "a7777777"]);
    let ranked = rank(&index, &chars_of("a"));
    // The two longest matches are the ones cut off.
    assert_eq!(
        ranked,
        vec![
            "a1".to_string(),
            "a22".to_string(),
            "a333".to_string(),
            "a4444".to_string(),
            "a55555".to_string(),
        ]
    );
}

#[test]
fn empty_prefix_matches_the_whole_index() {
    let index = index_of(&["gcc", "vim", "ls"]);
    let ranked = rank(&index, &chars_of(""));
    assert_eq!(ranked.len(), 3);
    for name in &ranked {
        assert!(["gcc", "vim", "ls"].contains(&name.as_str()));
    }
    for pair in ranked.windows(2) {
        assert!(pair[0].len() <= pair[1].len());
    }
}

#[test]
fn empty_prefix_is_capped_too() {
    let index = index_of(&["a", "bb", "ccc", "dddd", "eeeee", "ffffff"]);
    let ranked = rank(&index, &chars_of(""));
    assert_eq!(ranked.len(), MAX_SUGGESTIONS);
    // "ffffff" is the unique longest name, so it is the one left out.
    assert!(!ranked.contains(&"ffffff".to_string()));
}

#[test]
fn no_match_means_empty_list() {
    let index = index_of(&["vim"]);
    let ranked = rank(&index, &chars_of("xy"));
    assert!(ranked.is_empty());
}

#[test]
fn matching_is_case_sensitive() {
    let index = index_of(&["Vim", "vim"]);
    let ranked = rank(&index, &chars_of("V"));
    assert_eq!(ranked, vec!["Vim".to_string()]);
}

#[test]
fn results_are_distinct_index_members() {
    let index = index_of(&["ls", "ls", "lua"]);
    let ranked = rank(&index, &chars_of("l"));
    assert_eq!(ranked, vec!["ls".to_string(), "lua".to_string()]);
}
