use gitmoji::commit::{assemble_title, commit, next_step, CommitStep};
use gitmoji::configuration::{new_configuration, Configuration, EmojiFormat};
use gitmoji::error::GitmojiError;
use gitmoji::prompts::Emoji;

fn sparkles() -> Emoji {
    Emoji::new(
        ":sparkles:".to_string(),
        "✨".to_string(),
        "sparkles".to_string(),
        "Introduce new features.".to_string(),
    )
}

fn bug() -> Emoji {
    Emoji::new(":bug:".to_string(), "🐛".to_string(), "bug".to_string(), "Fix a bug".to_string())
}

#[test]
fn glyph_title_with_scope_and_issue() {
    let t = assemble_title(
        &sparkles(),
        EmojiFormat::EMOJI,
        &Some("core".to_string()),
        "add search",
        &Some("42".to_string()),
    );
    assert_eq!(t, "✨ core: add search (42)");
}

#[test]
fn code_title_without_options() {
    let t = assemble_title(&sparkles(), EmojiFormat::CODE, &None, "add search", &None);
    assert_eq!(t, ":sparkles: add search");
}

#[test]
fn commit_with_every_option() {
    let config = new_configuration(true, EmojiFormat::EMOJI, true, true, true);
    let req = commit(
        &config,
        &vec![bug(), sparkles()],
        1,
        Some("core".to_string()),
        "add search".to_string(),
        "body".to_string(),
        Some("42".to_string()),
    )
    .unwrap();
    assert_eq!(req.title, "✨ core: add search (42)");
    assert_eq!(req.message, "body");
    assert!(req.stage_all);
    assert!(req.signed);
    assert_eq!(req.commit_args(), vec!["commit", "-S", "-m", "✨ core: add search (42)", "-m", "body"]);
}

#[test]
fn single_entry_plain_commit() {
    let config = Configuration::default();
    let req = commit(&config, &vec![bug()], 0, None, "fix crash".to_string(), "details".to_string(), None)
        .unwrap();
    assert_eq!(req.title, ":bug: fix crash");
    assert_eq!(req.message, "details");
    assert!(!req.stage_all);
    assert!(!req.signed);
    assert_eq!(req.commit_args(), vec!["commit", "-m", ":bug: fix crash", "-m", "details"]);
}

#[test]
fn disabled_prompts_ignore_texts() {
    let config = Configuration::default();
    let req = commit(
        &config,
        &vec![bug()],
        0,
        Some("core".to_string()),
        "fix crash".to_string(),
        String::new(),
        Some("7".to_string()),
    )
    .unwrap();
    assert_eq!(req.title, ":bug: fix crash");
    assert_eq!(req.message, "");
}

#[test]
fn backtick_in_any_field_is_rejected() {
    let config = new_configuration(false, EmojiFormat::CODE, true, false, true);
    let es = vec![bug()];
    let run = |scope: &str, title: &str, message: &str, issue: &str| {
        commit(
            &config,
            &es,
            0,
            Some(scope.to_string()),
            title.to_string(),
            message.to_string(),
            Some(issue.to_string()),
        )
    };
    assert!(run("core", "fix", "msg", "1").is_ok());
    assert!(matches!(run("co`re", "fix", "msg", "1"), Err(GitmojiError::ValidationError(_))));
    assert!(matches!(run("core", "f`ix", "msg", "1"), Err(GitmojiError::ValidationError(_))));
    assert!(matches!(run("core", "fix", "m`sg", "1"), Err(GitmojiError::ValidationError(_))));
    assert!(matches!(run("core", "fix", "msg", "`1"), Err(GitmojiError::ValidationError(_))));
}

#[test]
fn empty_required_fields_are_rejected() {
    let config = new_configuration(false, EmojiFormat::CODE, true, false, true);
    let es = vec![bug()];
    let r = commit(&config, &es, 0, Some(String::new()), "fix".to_string(), String::new(), Some("1".to_string()));
    assert!(matches!(r, Err(GitmojiError::ValidationError(_))));
    let r = commit(&config, &es, 0, Some("core".to_string()), String::new(), String::new(), Some("1".to_string()));
    assert!(matches!(r, Err(GitmojiError::ValidationError(_))));
    let r = commit(&config, &es, 0, Some("core".to_string()), "fix".to_string(), String::new(), None);
    assert!(matches!(r, Err(GitmojiError::ValidationError(_))));
}

#[test]
fn empty_catalogue_or_bad_selection_fails() {
    let config = Configuration::default();
    let r = commit(&config, &Vec::new(), 0, None, "fix".to_string(), String::new(), None);
    assert!(matches!(r, Err(GitmojiError::Other(_))));
    let r = commit(&config, &vec![bug()], 1, None, "fix".to_string(), String::new(), None);
    assert!(matches!(r, Err(GitmojiError::Other(_))));
}

#[test]
fn steps_follow_configuration() {
    let plain = Configuration::default();
    let mut steps = vec![CommitStep::SelectEmoji];
    while let Some(s) = next_step(&plain, *steps.last().unwrap()) {
        steps.push(s);
    }
    assert_eq!(
        steps,
        vec![CommitStep::SelectEmoji, CommitStep::AskTitle, CommitStep::AskMessage, CommitStep::Commit]
    );
    let full = new_configuration(false, EmojiFormat::CODE, true, false, true);
    let mut steps = vec![CommitStep::SelectEmoji];
    while let Some(s) = next_step(&full, *steps.last().unwrap()) {
        steps.push(s);
    }
    assert_eq!(
        steps,
        vec![
            CommitStep::SelectEmoji,
            CommitStep::AskScope,
            CommitStep::AskTitle,
            CommitStep::AskMessage,
            CommitStep::AskIssue,
            CommitStep::Commit,
        ]
    );
}
