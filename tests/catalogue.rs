use gitmoji::catalogue::{contains_ignoring_case, fetch_emojis, get_emojis, list_emojis, search_emojis, CacheAction};
use gitmoji::error::GitmojiError;
use gitmoji::prompts::Emoji;

const DOC: &str = r#"{"gitmojis":[
 {"emoji":"🎨","entity":"&#x1f3a8;","code":":art:","description":"Improve structure / format of the code.","name":"art"},
 {"emoji":"🐛","entity":"&#x1f41b;","code":":bug:","description":"Fix a bug.","name":"bug"},
 {"emoji":"✨","entity":"&#x2728;","code":":sparkles:","description":"Introduce new features.","name":"sparkles"}
]}"#;

fn names(es: &[Emoji]) -> Vec<String> {
    es.iter().map(|e| e.name.clone()).collect()
}

#[test]
fn reads_entries_in_order() {
    let es = get_emojis(DOC).unwrap();
    assert_eq!(names(&es), vec!["art", "bug", "sparkles"]);
    assert_eq!(es[1].code, ":bug:");
    assert_eq!(es[1].emoji, "🐛");
    assert_eq!(es[1].description, "Fix a bug.");
}

#[test]
fn empty_list_is_an_empty_catalogue() {
    assert_eq!(get_emojis(r#"{"gitmojis":[]}"#).unwrap().len(), 0);
}

#[test]
fn malformed_document_is_a_json_error() {
    assert!(matches!(get_emojis("{\"gitmojis\": ["), Err(GitmojiError::JsonError(_))));
    assert!(matches!(get_emojis(""), Err(GitmojiError::JsonError(_))));
}

#[test]
fn document_without_list_is_refused() {
    assert!(matches!(get_emojis(r#"{"emojis":[]}"#), Err(GitmojiError::Other(_))));
    assert!(matches!(get_emojis(r#"{"gitmojis":{}}"#), Err(GitmojiError::Other(_))));
    assert!(matches!(get_emojis("[1, 2]"), Err(GitmojiError::Other(_))));
}

#[test]
fn entry_without_text_field_is_refused() {
    let doc = r#"{"gitmojis":[{"emoji":"🐛","code":":bug:","name":"bug"}]}"#;
    assert!(matches!(get_emojis(doc), Err(GitmojiError::Other(_))));
    let doc = r#"{"gitmojis":[{"emoji":"🐛","code":":bug:","name":"bug","description":7}]}"#;
    assert!(matches!(get_emojis(doc), Err(GitmojiError::Other(_))));
    let doc = r#"{"gitmojis":[{"emoji":"","code":":bug:","name":"bug","description":"Fix"}]}"#;
    assert!(matches!(get_emojis(doc), Err(GitmojiError::Other(_))));
}

#[test]
fn duplicate_names_are_refused() {
    let doc = r#"{"gitmojis":[
     {"emoji":"🐛","code":":bug:","name":"bug","description":"Fix a bug."},
     {"emoji":"🐞","code":":beetle:","name":"bug","description":"Another."}]}"#;
    assert!(matches!(get_emojis(doc), Err(GitmojiError::Other(_))));
}

#[test]
fn search_matches_name_or_description_ignoring_case() {
    let es = get_emojis(DOC).unwrap();
    assert_eq!(names(&search_emojis(&es, "BUG")), vec!["bug"]);
    assert_eq!(names(&search_emojis(&es, "introduce")), vec!["sparkles"]);
    assert_eq!(names(&search_emojis(&es, "i")), vec!["art", "bug", "sparkles"]);
    assert_eq!(names(&search_emojis(&es, "zzz")), Vec::<String>::new());
}

#[test]
fn empty_query_returns_whole_catalogue() {
    let es = get_emojis(DOC).unwrap();
    assert_eq!(names(&search_emojis(&es, "")), names(&es));
}

#[test]
fn search_is_repeatable_and_stable() {
    let es = get_emojis(DOC).unwrap();
    let once = search_emojis(&es, "F");
    let again = search_emojis(&es, "F");
    assert_eq!(names(&once), names(&again));
    assert_eq!(names(&search_emojis(&once, "F")), names(&once));
    assert_eq!(names(&once), vec!["art", "bug", "sparkles"]);
}

#[test]
fn folded_substring() {
    assert!(contains_ignoring_case("Fix a Bug", "a bUG"));
    assert!(contains_ignoring_case("abc", ""));
    assert!(!contains_ignoring_case("ab", "abc"));
    assert!(!contains_ignoring_case("Émoji", "émoji"));
}

#[test]
fn existing_cache_is_read_without_fetch() {
    assert_eq!(list_emojis(true, false), CacheAction::Read);
}

#[test]
fn missing_cache_or_refresh_fetches() {
    assert_eq!(list_emojis(false, false), CacheAction::Fetch);
    assert_eq!(list_emojis(true, true), CacheAction::Fetch);
    assert_eq!(list_emojis(false, true), CacheAction::Fetch);
}

#[test]
fn fetched_document_is_written_verbatim() {
    let (text, es) = fetch_emojis(Ok(DOC.to_string())).unwrap();
    assert_eq!(text, DOC);
    assert_eq!(es.len(), 3);
}

#[test]
fn failed_fetch_leaves_nothing_to_write() {
    let r = fetch_emojis(Err(GitmojiError::ReqwestError("offline".to_string())));
    assert!(matches!(r, Err(GitmojiError::ReqwestError(_))));
    let r = fetch_emojis(Ok("<html>".to_string()));
    assert!(matches!(r, Err(GitmojiError::JsonError(_))));
    let r = fetch_emojis(Ok("{}".to_string()));
    assert!(matches!(r, Err(GitmojiError::Other(_))));
}

#[test]
fn list_is_found_among_other_members() {
    let doc = r#"{"version": 3, "emojis": [], "gitmojis": [
     {"name":"bug","description":"Fix a bug.","extra":{"a":[1,2]},"code":":bug:","emoji":"🐛"}]}"#;
    let es = get_emojis(doc).unwrap();
    assert_eq!(names(&es), vec!["bug"]);
    assert_eq!(es[0].code, ":bug:");
    assert_eq!(es[0].emoji, "🐛");
    assert_eq!(es[0].description, "Fix a bug.");
}

#[test]
fn refresh_returns_document_entries_in_order() {
    let (_, es) = fetch_emojis(Ok(DOC.to_string())).unwrap();
    assert_eq!(names(&es), vec!["art", "bug", "sparkles"]);
    assert_eq!(es[2].code, ":sparkles:");
}

#[test]
fn refresh_with_record_lacking_fields_is_refused() {
    let r = fetch_emojis(Ok(r#"{"gitmojis":[{"name":"bug"}]}"#.to_string()));
    assert!(matches!(r, Err(GitmojiError::Other(_))));
}
