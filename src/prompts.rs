//! What the prompts of the tool decide: the entries a user picks from, how
//! they are labelled, and which typed texts are accepted.
use crate::configuration::EmojiFormat;
use vstd::prelude::*;
use vstd::string::*;

verus! {

/// One entry of the emoji catalogue.
#[derive(Clone, Debug)]
pub struct Emoji {
    /// The textual code, like `:bug:`.
    pub code: String,
    /// A one-line description.
    pub description: String,
    /// The glyph itself.
    pub emoji: String,
    /// The stable name that identifies the entry.
    pub name: String,
}

/// The label under which an entry is offered: its glyph, a dash, its description.
pub open spec fn label_of(e: Emoji) -> Seq<char> {
    e.emoji@ + seq![' ', '-', ' '] + e.description@
}

/// Whether `s` holds a backtick, which would break the quoting of the commit call.
pub open spec fn has_backtick(s: Seq<char>) -> bool {
    exists|i: int| 0 <= i < s.len() && s[i] == '`'
}

/// A scope, title or issue: not empty, and without a backtick.
pub open spec fn valid_field(s: Seq<char>) -> bool {
    s.len() > 0 && !has_backtick(s)
}

/// A message: any text without a backtick, the empty one included.
pub open spec fn valid_message(s: Seq<char>) -> bool {
    !has_backtick(s)
}

impl Emoji {
    /// Builds an entry from its four fields.
    pub fn new(code: String, emoji: String, name: String, description: String) -> (r: Emoji)
        ensures
            r.code@ == code@,
            r.emoji@ == emoji@,
            r.name@ == name@,
            r.description@ == description@,
    {
        Emoji { code, description, emoji, name }
    }

    /// The label under which the entry is offered.
    pub fn to_string(&self) -> (r: String)
        ensures
            r@ == label_of(*self),
    {
        let mut r = self.emoji.clone();
        r.append(" - ");
        r.append(self.description.as_str());
        proof {
            reveal_strlit(" - ");
        }
        assert(r@ =~= label_of(*self));
        r
    }
}

/// Whether `s` holds a backtick.
pub fn contains_backtick(s: &str) -> (r: bool)
    ensures
        r == has_backtick(s@),
{
    let n = s.unicode_len();
    let mut i: usize = 0;
    while i < n
        invariant
            n == s@.len(),
            i <= n,
            forall|j: int| 0 <= j < i ==> s@[j] != '`',
        decreases n - i,
    {
        if s.get_char(i) == '`' {
            return true;
        }
        i = i + 1;
    }
    false
}

/// Whether `s` is accepted as the scope of a commit.
pub fn is_valid_scope(s: &str) -> (r: bool)
    ensures
        r == valid_field(s@),
{
    s.unicode_len() > 0 && !contains_backtick(s)
}

/// Whether `s` is accepted as the title of a commit.
pub fn is_valid_title(s: &str) -> (r: bool)
    ensures
        r == valid_field(s@),
{
    s.unicode_len() > 0 && !contains_backtick(s)
}

/// Whether `s` is accepted as the message of a commit.
pub fn is_valid_message(s: &str) -> (r: bool)
    ensures
        r == valid_message(s@),
{
    !contains_backtick(s)
}

/// Whether `s` is accepted as the issue a commit refers to.
pub fn is_valid_issue(s: &str) -> (r: bool)
    ensures
        r == valid_field(s@),
{
    s.unicode_len() > 0 && !contains_backtick(s)
}

/// The labels of `emojis`, in their order.
pub fn emoji_labels(emojis: &Vec<Emoji>) -> (r: Vec<String>)
    ensures
        r@.len() == emojis@.len(),
        forall|i: int| 0 <= i < r@.len() ==> #[trigger] r@[i]@ == label_of(emojis@[i]),
{
    let mut r: Vec<String> = Vec::new();
    let mut i: usize = 0;
    while i < emojis.len()
        invariant
            i <= emojis@.len(),
            r@.len() == i,
            forall|j: int| 0 <= j < i ==> #[trigger] r@[j]@ == label_of(emojis@[j]),
        decreases emojis@.len() - i,
    {
        r.push(emojis[i].to_string());
        i = i + 1;
    }
    r
}

/// The entry that the user picked by its position in the offered list.
pub fn ask_for_emoji(emojis: &Vec<Emoji>, selection: usize) -> (r: Option<&Emoji>)
    ensures
        selection < emojis@.len() ==> r == Some(&emojis@[selection as int]),
        selection >= emojis@.len() ==> r is None,
{
    if selection < emojis.len() {
        Some(&emojis[selection])
    } else {
        None
    }
}

/// The label under which each emoji format is offered.
pub open spec fn format_label(f: EmojiFormat) -> Seq<char> {
    match f {
        EmojiFormat::CODE => seq![':', 's', 'm', 'i', 'l', 'e', ':'],
        EmojiFormat::EMOJI => seq!['\u{1F604}'],
    }
}

/// The label under which `f` is offered.
pub fn emoji_format_label(f: EmojiFormat) -> (r: String)
    ensures
        r@ == format_label(f),
{
    match f {
        EmojiFormat::CODE => {
            let r = String::from_str(":smile:");
            proof {
                reveal_strlit(":smile:");
            }
            assert(r@ =~= format_label(f));
            r
        },
        EmojiFormat::EMOJI => {
            let r = String::from_str("\u{1F604}");
            proof {
                reveal_strlit("\u{1F604}");
            }
            assert(r@ =~= format_label(f));
            r
        },
    }
}

/// The formats in the order they are offered.
pub open spec fn format_at(i: int) -> EmojiFormat {
    if i == 0 {
        EmojiFormat::CODE
    } else {
        EmojiFormat::EMOJI
    }
}

/// The position at which `f` is offered, which the choice starts on.
pub fn format_selection_default(f: EmojiFormat) -> (r: usize)
    ensures
        r < 2,
        format_at(r as int) == f,
{
    match f {
        EmojiFormat::CODE => 0,
        EmojiFormat::EMOJI => 1,
    }
}

/// The format offered at position `selection`, if there is one.
pub fn config_for_emoji_format(selection: usize) -> (r: Option<EmojiFormat>)
    ensures
        selection < 2 ==> r == Some(format_at(selection as int)),
        selection >= 2 ==> r is None,
{
    if selection == 0 {
        Some(EmojiFormat::CODE)
    } else if selection == 1 {
        Some(EmojiFormat::EMOJI)
    } else {
        None
    }
}

} // verus!
