//! The persisted settings that decide which steps a commit goes through.
use crate::error::GitmojiError;
use vstd::prelude::*;

verus! {

/// How the chosen emoji is written at the start of a commit title.
#[derive(Clone, Copy, Debug, PartialEq, Eq, Structural)]
pub enum EmojiFormat {
    /// The textual code, like `:smile:`.
    CODE,
    /// The unicode character itself.
    EMOJI,
}

impl Default for EmojiFormat {
    fn default() -> (r: EmojiFormat)
        ensures
            r == EmojiFormat::CODE,
    {
        EmojiFormat::CODE
    }
}

/// The settings of one installation.
#[derive(Clone, Copy, Debug, PartialEq, Eq, Structural)]
pub struct Configuration {
    /// Stage every change before committing.
    pub auto_add: bool,
    /// Whether the title starts with the emoji's code or its glyph.
    pub emoji_format: EmojiFormat,
    /// Ask for a scope.
    pub scope_prompt: bool,
    /// Ask for a signed commit.
    pub signed_commit: bool,
    /// Ask for a referenced issue.
    pub reffering_issue: bool,
}

/// The configuration that applies where none was ever saved.
pub open spec fn default_configuration() -> Configuration {
    Configuration {
        auto_add: false,
        emoji_format: EmojiFormat::CODE,
        scope_prompt: false,
        signed_commit: false,
        reffering_issue: false,
    }
}

impl Default for Configuration {
    fn default() -> (r: Configuration)
        ensures
            r == default_configuration(),
    {
        Configuration {
            auto_add: false,
            emoji_format: EmojiFormat::CODE,
            scope_prompt: false,
            signed_commit: false,
            reffering_issue: false,
        }
    }
}

/// One setting that the configure flow asks about.
#[derive(Clone, Copy, Debug, PartialEq, Eq, Structural)]
pub enum ConfigField {
    AutoAdd,
    EmojiFormat,
    ScopePrompt,
    SignedCommit,
    IssuePrompt,
}

/// The answer to one configure question, or the value it is seeded with.
#[derive(Clone, Copy, Debug, PartialEq, Eq, Structural)]
pub enum ConfigAnswer {
    /// A yes or no.
    Flag(bool),
    /// A choice of emoji format.
    Format(EmojiFormat),
}

/// The order in which the configure flow asks its questions.
pub open spec fn spec_prompt_order() -> Seq<ConfigField> {
    seq![
        ConfigField::AutoAdd,
        ConfigField::EmojiFormat,
        ConfigField::ScopePrompt,
        ConfigField::SignedCommit,
        ConfigField::IssuePrompt,
    ]
}

/// Whether `a` is an answer of the kind that `field` asks for.
pub open spec fn answer_fits(field: ConfigField, a: ConfigAnswer) -> bool {
    match field {
        ConfigField::EmojiFormat => a is Format,
        _ => a is Flag,
    }
}

/// Whether `answers` holds one fitting answer per question, in the order asked.
pub open spec fn answers_fit(answers: Seq<ConfigAnswer>) -> bool {
    &&& answers.len() == 5
    &&& forall|i: int| 0 <= i < 5 ==> answer_fits(#[trigger] spec_prompt_order()[i], answers[i])
}

pub open spec fn flag_of(a: ConfigAnswer) -> bool {
    match a {
        ConfigAnswer::Flag(b) => b,
        ConfigAnswer::Format(_) => false,
    }
}

pub open spec fn format_of(a: ConfigAnswer) -> EmojiFormat {
    match a {
        ConfigAnswer::Format(f) => f,
        ConfigAnswer::Flag(_) => EmojiFormat::CODE,
    }
}

/// The configuration that fitting `answers` describe.
pub open spec fn configuration_from(answers: Seq<ConfigAnswer>) -> Configuration {
    Configuration {
        auto_add: flag_of(answers[0]),
        emoji_format: format_of(answers[1]),
        scope_prompt: flag_of(answers[2]),
        signed_commit: flag_of(answers[3]),
        reffering_issue: flag_of(answers[4]),
    }
}

/// The current value of `field` in `c`.
pub open spec fn spec_current(c: Configuration, field: ConfigField) -> ConfigAnswer {
    match field {
        ConfigField::AutoAdd => ConfigAnswer::Flag(c.auto_add),
        ConfigField::EmojiFormat => ConfigAnswer::Format(c.emoji_format),
        ConfigField::ScopePrompt => ConfigAnswer::Flag(c.scope_prompt),
        ConfigField::SignedCommit => ConfigAnswer::Flag(c.signed_commit),
        ConfigField::IssuePrompt => ConfigAnswer::Flag(c.reffering_issue),
    }
}

/// The questions of the configure flow, in the order they are asked.
pub fn prompt_order() -> (r: Vec<ConfigField>)
    ensures
        r@ == spec_prompt_order(),
{
    let r = vec![
        ConfigField::AutoAdd,
        ConfigField::EmojiFormat,
        ConfigField::ScopePrompt,
        ConfigField::SignedCommit,
        ConfigField::IssuePrompt,
    ];
    assert(r@ =~= spec_prompt_order());
    r
}

/// Builds a configuration from its five settings.
pub fn new_configuration(
    auto_add: bool,
    emoji_format: EmojiFormat,
    scope_prompt: bool,
    signed_commit: bool,
    reffering_issue: bool,
) -> (r: Configuration)
    ensures
        r.auto_add == auto_add,
        r.emoji_format == emoji_format,
        r.scope_prompt == scope_prompt,
        r.signed_commit == signed_commit,
        r.reffering_issue == reffering_issue,
{
    Configuration { auto_add, emoji_format, scope_prompt, signed_commit, reffering_issue }
}

impl Configuration {
    /// The value that the question on `field` is seeded with.
    pub fn current(&self, field: ConfigField) -> (r: ConfigAnswer)
        ensures
            r == spec_current(*self, field),
            answer_fits(field, r),
    {
        match field {
            ConfigField::AutoAdd => ConfigAnswer::Flag(self.auto_add),
            ConfigField::EmojiFormat => ConfigAnswer::Format(self.emoji_format),
            ConfigField::ScopePrompt => ConfigAnswer::Flag(self.scope_prompt),
            ConfigField::SignedCommit => ConfigAnswer::Flag(self.signed_commit),
            ConfigField::IssuePrompt => ConfigAnswer::Flag(self.reffering_issue),
        }
    }

    /// Adopts the answers of the configure flow, given in the order of
    /// `prompt_order`. The whole record changes, or none of it: answers of the
    /// wrong number or kind leave it as it was and give an error.
    pub fn prompt(&mut self, answers: &Vec<ConfigAnswer>) -> (r: Result<(), GitmojiError>)
        ensures
            r is Ok <==> answers_fit(answers@),
            r is Ok ==> *final(self) == configuration_from(answers@),
            r is Err ==> *final(self) == *old(self),
            r is Err ==> r->Err_0 is Other,
    {
        if answers.len() != 5 {
            return Err(GitmojiError::Other("expected one answer per setting".to_string()));
        }
        let order = prompt_order();
        let mut i: usize = 0;
        while i < 5
            invariant
                order@ == spec_prompt_order(),
                answers@.len() == 5,
                0 <= i <= 5,
                forall|j: int| 0 <= j < i ==> answer_fits(#[trigger] spec_prompt_order()[j], answers@[j]),
            decreases 5 - i,
        {
            let fits = match order[i] {
                ConfigField::EmojiFormat => matches!(answers[i], ConfigAnswer::Format(_)),
                _ => matches!(answers[i], ConfigAnswer::Flag(_)),
            };
            if !fits {
                assert(!answer_fits(spec_prompt_order()[i as int], answers@[i as int]));
                return Err(GitmojiError::Other("answer of the wrong kind".to_string()));
            }
            i = i + 1;
        }
        let auto_add = match answers[0] { ConfigAnswer::Flag(b) => b, ConfigAnswer::Format(_) => false };
        let emoji_format = match answers[1] {
            ConfigAnswer::Format(f) => f,
            ConfigAnswer::Flag(_) => EmojiFormat::CODE,
        };
        let scope_prompt = match answers[2] { ConfigAnswer::Flag(b) => b, ConfigAnswer::Format(_) => false };
        let signed_commit = match answers[3] { ConfigAnswer::Flag(b) => b, ConfigAnswer::Format(_) => false };
        let reffering_issue = match answers[4] { ConfigAnswer::Flag(b) => b, ConfigAnswer::Format(_) => false };
        *self = Configuration { auto_add, emoji_format, scope_prompt, signed_commit, reffering_issue };
        Ok(())
    }

    /// Whether automatic staging is enabled in a freshly loaded record.
    pub fn is_auto_add(loaded: Result<Configuration, GitmojiError>) -> (r: Result<bool, GitmojiError>)
        ensures
            loaded is Ok ==> r == Ok::<bool, GitmojiError>(loaded->Ok_0.auto_add),
            loaded is Err ==> r == Err::<bool, GitmojiError>(loaded->Err_0),
    {
        match loaded {
            Ok(conf) => Ok(conf.auto_add),
            Err(e) => Err(e),
        }
    }

    /// The emoji format of a freshly loaded record.
    pub fn emoji_format(loaded: Result<Configuration, GitmojiError>) -> (r: Result<EmojiFormat, GitmojiError>)
        ensures
            loaded is Ok ==> r == Ok::<EmojiFormat, GitmojiError>(loaded->Ok_0.emoji_format),
            loaded is Err ==> r == Err::<EmojiFormat, GitmojiError>(loaded->Err_0),
    {
        match loaded {
            Ok(conf) => Ok(conf.emoji_format),
            Err(e) => Err(e),
        }
    }

    /// Whether the scope prompt is enabled in a freshly loaded record.
    pub fn is_scope_prompt(loaded: Result<Configuration, GitmojiError>) -> (r: Result<bool, GitmojiError>)
        ensures
            loaded is Ok ==> r == Ok::<bool, GitmojiError>(loaded->Ok_0.scope_prompt),
            loaded is Err ==> r == Err::<bool, GitmojiError>(loaded->Err_0),
    {
        match loaded {
            Ok(conf) => Ok(conf.scope_prompt),
            Err(e) => Err(e),
        }
    }

    /// Whether signed commits are enabled in a freshly loaded record.
    pub fn is_signed_commit(loaded: Result<Configuration, GitmojiError>) -> (r: Result<bool, GitmojiError>)
        ensures
            loaded is Ok ==> r == Ok::<bool, GitmojiError>(loaded->Ok_0.signed_commit),
            loaded is Err ==> r == Err::<bool, GitmojiError>(loaded->Err_0),
    {
        match loaded {
            Ok(conf) => Ok(conf.signed_commit),
            Err(e) => Err(e),
        }
    }

    /// Whether the issue prompt is enabled in a freshly loaded record.
    pub fn is_issue_prompt(loaded: Result<Configuration, GitmojiError>) -> (r: Result<bool, GitmojiError>)
        ensures
            loaded is Ok ==> r == Ok::<bool, GitmojiError>(loaded->Ok_0.reffering_issue),
            loaded is Err ==> r == Err::<bool, GitmojiError>(loaded->Err_0),
    {
        match loaded {
            Ok(conf) => Ok(conf.reffering_issue),
            Err(e) => Err(e),
        }
    }
}

/// Answering every configure question with the value it is seeded with
/// leaves the configuration as it was.
pub proof fn lemma_seeded_answers_keep_configuration(c: Configuration)
    ensures
        answers_fit(seq![
            spec_current(c, ConfigField::AutoAdd),
            spec_current(c, ConfigField::EmojiFormat),
            spec_current(c, ConfigField::ScopePrompt),
            spec_current(c, ConfigField::SignedCommit),
            spec_current(c, ConfigField::IssuePrompt),
        ]),
        configuration_from(seq![
            spec_current(c, ConfigField::AutoAdd),
            spec_current(c, ConfigField::EmojiFormat),
            spec_current(c, ConfigField::ScopePrompt),
            spec_current(c, ConfigField::SignedCommit),
            spec_current(c, ConfigField::IssuePrompt),
        ]) == c,
{
    let a = seq![
        spec_current(c, ConfigField::AutoAdd),
        spec_current(c, ConfigField::EmojiFormat),
        spec_current(c, ConfigField::ScopePrompt),
        spec_current(c, ConfigField::SignedCommit),
        spec_current(c, ConfigField::IssuePrompt),
    ];
    assert forall|i: int| 0 <= i < 5 implies answer_fits(#[trigger] spec_prompt_order()[i], a[i]) by {
        if i == 0 {} else if i == 1 {} else if i == 2 {} else if i == 3 {} else {}
    }
}

} // verus!
