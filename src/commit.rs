//! Composing a commit: which steps run, how the title is assembled, and what
//! is handed to the version-control call.
use crate::configuration::{Configuration, EmojiFormat};
use crate::error::GitmojiError;
use crate::prompts::{has_backtick, is_valid_issue, is_valid_message, is_valid_scope, is_valid_title, valid_field, valid_message, Emoji};
use vstd::prelude::*;
use vstd::string::*;

verus! {

/// The steps of composing a commit, in the order they run.
#[derive(Clone, Copy, Debug, PartialEq, Eq, Structural)]
pub enum CommitStep {
    SelectEmoji,
    AskScope,
    AskTitle,
    AskMessage,
    AskIssue,
    Commit,
}

/// The step that follows `step` under `config`: the scope and issue steps run
/// only where their prompts are enabled.
pub open spec fn spec_next_step(config: Configuration, step: CommitStep) -> Option<CommitStep> {
    match step {
        CommitStep::SelectEmoji => if config.scope_prompt {
            Some(CommitStep::AskScope)
        } else {
            Some(CommitStep::AskTitle)
        },
        CommitStep::AskScope => Some(CommitStep::AskTitle),
        CommitStep::AskTitle => Some(CommitStep::AskMessage),
        CommitStep::AskMessage => if config.reffering_issue {
            Some(CommitStep::AskIssue)
        } else {
            Some(CommitStep::Commit)
        },
        CommitStep::AskIssue => Some(CommitStep::Commit),
        CommitStep::Commit => None,
    }
}

/// The step after `step`; `None` after the commit itself.
pub fn next_step(config: &Configuration, step: CommitStep) -> (r: Option<CommitStep>)
    ensures
        r == spec_next_step(*config, step),
{
    match step {
        CommitStep::SelectEmoji => if config.scope_prompt {
            Some(CommitStep::AskScope)
        } else {
            Some(CommitStep::AskTitle)
        },
        CommitStep::AskScope => Some(CommitStep::AskTitle),
        CommitStep::AskTitle => Some(CommitStep::AskMessage),
        CommitStep::AskMessage => if config.reffering_issue {
            Some(CommitStep::AskIssue)
        } else {
            Some(CommitStep::Commit)
        },
        CommitStep::AskIssue => Some(CommitStep::Commit),
        CommitStep::Commit => None,
    }
}

/// Every step that a commit under `config` runs, in order: the emoji, the
/// scope where its prompt is enabled, the title, the message, the issue where
/// its prompt is enabled, and the commit.
pub open spec fn steps(config: Configuration) -> Seq<CommitStep> {
    let scoped = if config.scope_prompt {
        seq![CommitStep::AskScope]
    } else {
        Seq::<CommitStep>::empty()
    };
    let referred = if config.reffering_issue {
        seq![CommitStep::AskIssue]
    } else {
        Seq::<CommitStep>::empty()
    };
    seq![CommitStep::SelectEmoji] + scoped + seq![CommitStep::AskTitle, CommitStep::AskMessage]
        + referred + seq![CommitStep::Commit]
}

/// Walking `next_step` from the emoji selection visits exactly `steps(config)`,
/// each once and in order, and stops after the commit.
pub proof fn lemma_walk_visits_steps(config: Configuration)
    ensures
        steps(config)[0] == CommitStep::SelectEmoji,
        forall|i: int|
            0 <= i < steps(config).len() - 1 ==> spec_next_step(config, #[trigger] steps(config)[i])
                == Some(steps(config)[i + 1]),
        spec_next_step(config, steps(config).last()) is None,
{
    let s = steps(config);
    if config.scope_prompt {
        if config.reffering_issue {
            assert(s =~= seq![CommitStep::SelectEmoji, CommitStep::AskScope, CommitStep::AskTitle, CommitStep::AskMessage, CommitStep::AskIssue, CommitStep::Commit]);
        } else {
            assert(s =~= seq![CommitStep::SelectEmoji, CommitStep::AskScope, CommitStep::AskTitle, CommitStep::AskMessage, CommitStep::Commit]);
        }
    } else {
        if config.reffering_issue {
            assert(s =~= seq![CommitStep::SelectEmoji, CommitStep::AskTitle, CommitStep::AskMessage, CommitStep::AskIssue, CommitStep::Commit]);
        } else {
            assert(s =~= seq![CommitStep::SelectEmoji, CommitStep::AskTitle, CommitStep::AskMessage, CommitStep::Commit]);
        }
    }
}

/// What the emoji is written as at the start of the title.
pub open spec fn marker_of(e: Emoji, format: EmojiFormat) -> Seq<char> {
    match format {
        EmojiFormat::CODE => e.code@,
        EmojiFormat::EMOJI => e.emoji@,
    }
}

pub open spec fn text_of(o: Option<String>) -> Option<Seq<char>> {
    match o {
        Some(s) => Some(s@),
        None => None,
    }
}

/// The title: the marker and a space, then `scope: ` where a scope was
/// collected, then the title text, then ` (issue)` where an issue was collected.
pub open spec fn title_of(
    marker: Seq<char>,
    scope: Option<Seq<char>>,
    title: Seq<char>,
    issue: Option<Seq<char>>,
) -> Seq<char> {
    let scoped = match scope {
        Some(s) => s + seq![':', ' '],
        None => Seq::<char>::empty(),
    };
    let referred = match issue {
        Some(i) => seq![' ', '('] + i + seq![')'],
        None => Seq::<char>::empty(),
    };
    marker + seq![' '] + scoped + title + referred
}

/// Assembles the title of a commit.
pub fn assemble_title(
    emoji: &Emoji,
    format: EmojiFormat,
    scope: &Option<String>,
    title: &str,
    issue: &Option<String>,
) -> (r: String)
    ensures
        r@ == title_of(marker_of(*emoji, format), text_of(*scope), title@, text_of(*issue)),
{
    let mut r = match format {
        EmojiFormat::CODE => emoji.code.clone(),
        EmojiFormat::EMOJI => emoji.emoji.clone(),
    };
    r.append(" ");
    proof {
        reveal_strlit(" ");
        reveal_strlit(": ");
        reveal_strlit(" (");
        reveal_strlit(")");
    }
    match scope {
        Some(s) => {
            r.append(s.as_str());
            r.append(": ");
        },
        None => {},
    }
    r.append(title);
    match issue {
        Some(i) => {
            r.append(" (");
            r.append(i.as_str());
            r.append(")");
        },
        None => {},
    }
    assert(r@ =~= title_of(marker_of(*emoji, format), text_of(*scope), title@, text_of(*issue)));
    r
}

/// One call of the version-control tool: stage everything first or not, then
/// commit with a title, a message, and signed or not.
#[derive(Clone, Debug)]
pub struct CommitRequest {
    pub stage_all: bool,
    pub title: String,
    pub message: String,
    pub signed: bool,
}

/// Whether the texts collected for a commit under `config` pass the input
/// rules; a scope and an issue count only where their prompts are enabled.
pub open spec fn answers_valid(
    config: Configuration,
    scope: Option<Seq<char>>,
    title: Seq<char>,
    message: Seq<char>,
    issue: Option<Seq<char>>,
) -> bool {
    &&& config.scope_prompt ==> (scope is Some && valid_field(scope->Some_0))
    &&& valid_field(title)
    &&& valid_message(message)
    &&& config.reffering_issue ==> (issue is Some && valid_field(issue->Some_0))
}

/// The scope or issue that counts under a prompt that is enabled or not.
pub open spec fn collected(enabled: bool, o: Option<Seq<char>>) -> Option<Seq<char>> {
    if enabled {
        o
    } else {
        None
    }
}

/// Composes the commit from the entry picked at `selection` and the texts
/// collected: the title as `title_of` assembles it, the message unchanged,
/// staging and signing as `config` says. A text that breaks the input rules
/// gives a validation error, and an empty catalogue or a selection outside it
/// gives an error too, before anything is assembled.
pub fn commit(
    config: &Configuration,
    emojis: &Vec<Emoji>,
    selection: usize,
    scope: Option<String>,
    title: String,
    message: String,
    issue: Option<String>,
) -> (r: Result<CommitRequest, GitmojiError>)
    ensures
        r is Ok <==> (selection < emojis@.len() && answers_valid(
            *config,
            text_of(scope),
            title@,
            message@,
            text_of(issue),
        )),
        selection >= emojis@.len() ==> (r is Err && r->Err_0 is Other),
        selection < emojis@.len() && !answers_valid(*config, text_of(scope), title@, message@, text_of(issue))
            ==> (r is Err && r->Err_0 is ValidationError),
        has_backtick(title@) || has_backtick(message@) ==> r is Err,
        config.scope_prompt && scope is Some && has_backtick(scope->Some_0@) ==> r is Err,
        config.reffering_issue && issue is Some && has_backtick(issue->Some_0@) ==> r is Err,
        r is Ok ==> {
            &&& r->Ok_0.stage_all == config.auto_add
            &&& r->Ok_0.signed == config.signed_commit
            &&& r->Ok_0.message@ == message@
            &&& r->Ok_0.title@ == title_of(
                marker_of(emojis@[selection as int], config.emoji_format),
                collected(config.scope_prompt, text_of(scope)),
                title@,
                collected(config.reffering_issue, text_of(issue)),
            )
        },
{
    if emojis.len() == 0 {
        return Err(GitmojiError::Other("The gitmoji list is empty.".to_string()));
    }
    if selection >= emojis.len() {
        return Err(GitmojiError::Other("The selection is not in the gitmoji list.".to_string()));
    }
    let scope = if config.scope_prompt {
        match scope {
            Some(s) => {
                if !is_valid_scope(s.as_str()) {
                    return Err(GitmojiError::ValidationError("Enter a valid scope".to_string()));
                }
                Some(s)
            },
            None => return Err(GitmojiError::ValidationError("Enter a valid scope".to_string())),
        }
    } else {
        None
    };
    if !is_valid_title(title.as_str()) {
        return Err(GitmojiError::ValidationError("Enter a valid title".to_string()));
    }
    if !is_valid_message(message.as_str()) {
        return Err(GitmojiError::ValidationError("Enter a valid message".to_string()));
    }
    let issue = if config.reffering_issue {
        match issue {
            Some(i) => {
                if !is_valid_issue(i.as_str()) {
                    return Err(GitmojiError::ValidationError("Enter a valid issue".to_string()));
                }
                Some(i)
            },
            None => return Err(GitmojiError::ValidationError("Enter a valid issue".to_string())),
        }
    } else {
        None
    };
    let commit_title = assemble_title(&emojis[selection], config.emoji_format, &scope, title.as_str(), &issue);
    Ok(CommitRequest {
        stage_all: config.auto_add,
        title: commit_title,
        message,
        signed: config.signed_commit,
    })
}

/// The arguments of the version-control commit call for `req`: `commit`,
/// then `-S` where the commit is signed, then the title and the message, each
/// after a `-m`.
pub open spec fn spec_commit_args(req: CommitRequest) -> Seq<Seq<char>> {
    let head = if req.signed {
        seq![seq!['c', 'o', 'm', 'm', 'i', 't'], seq!['-', 'S']]
    } else {
        seq![seq!['c', 'o', 'm', 'm', 'i', 't']]
    };
    head + seq![seq!['-', 'm'], req.title@, seq!['-', 'm'], req.message@]
}

impl CommitRequest {
    /// The arguments of the commit call.
    pub fn commit_args(&self) -> (r: Vec<String>)
        ensures
            r@.map_values(|a: String| a@) == spec_commit_args(*self),
    {
        proof {
            reveal_strlit("commit");
            reveal_strlit("-S");
            reveal_strlit("-m");
        }
        let mut r: Vec<String> = Vec::new();
        let c = String::from_str("commit");
        assert(c@ =~= seq!['c', 'o', 'm', 'm', 'i', 't']);
        r.push(c);
        if self.signed {
            let sign = String::from_str("-S");
            assert(sign@ =~= seq!['-', 'S']);
            r.push(sign);
        }
        let m1 = String::from_str("-m");
        assert(m1@ =~= seq!['-', 'm']);
        r.push(m1);
        r.push(self.title.clone());
        let m2 = String::from_str("-m");
        assert(m2@ =~= seq!['-', 'm']);
        r.push(m2);
        r.push(self.message.clone());
        assert(r@.map_values(|a: String| a@) =~= spec_commit_args(*self));
        r
    }
}

} // verus!
