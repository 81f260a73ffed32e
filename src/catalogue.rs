//! The catalogue of emojis: reading the cached document, deciding when to
//! fetch it anew, and searching it.
use crate::document::{array_member, json_accepts, member, parse_json, parsed_json, text_member, text_member_of, Json};
use crate::error::GitmojiError;
use crate::prompts::Emoji;
use vstd::prelude::*;
use vstd::string::*;

verus! {

/// Every field of every entry is filled, and no name occurs twice.
pub open spec fn well_formed_catalogue(es: Seq<Emoji>) -> bool {
    &&& forall|i: int|
        0 <= i < es.len() ==> {
            &&& (#[trigger] es[i]).code@.len() > 0
            &&& es[i].emoji@.len() > 0
            &&& es[i].name@.len() > 0
            &&& es[i].description@.len() > 0
        }
    &&& forall|i: int, j: int|
        0 <= i < es.len() && 0 <= j < es.len() && i != j ==> (#[trigger] es[i]).name@
            != (#[trigger] es[j]).name@
}

/// The entry that a record describes: its `code`, `emoji`, `name` and
/// `description` members, where each is a string that is not empty.
pub open spec fn entry_of(j: Json) -> Option<Emoji> {
    match (
        text_member_of(j, "code"@),
        text_member_of(j, "emoji"@),
        text_member_of(j, "name"@),
        text_member_of(j, "description"@),
    ) {
        (Some(code), Some(emoji), Some(name), Some(description)) => if code@.len() > 0
            && emoji@.len() > 0 && name@.len() > 0 && description@.len() > 0 {
            Some(Emoji { code, description, emoji, name })
        } else {
            None
        },
        _ => None,
    }
}

/// The entries that `records` describe, in their order, where every record
/// describes one.
pub open spec fn entries_of(records: Seq<Json>) -> Option<Seq<Emoji>>
    decreases records.len(),
{
    if records.len() == 0 {
        Some(Seq::<Emoji>::empty())
    } else {
        match (entries_of(records.drop_last()), entry_of(records.last())) {
            (Some(es), Some(e)) => Some(es.push(e)),
            _ => None,
        }
    }
}

/// The catalogue that a document holds: the entries of its `gitmojis` array,
/// in order, where each record is an entry and no name occurs twice.
pub open spec fn catalogue_of(doc: Json) -> Option<Seq<Emoji>> {
    match member(doc, "gitmojis"@) {
        Some(Json::Array(records)) => match entries_of(records@) {
            Some(es) => if well_formed_catalogue(es) {
                Some(es)
            } else {
                None
            },
            None => None,
        },
        _ => None,
    }
}

/// The entries of a prefix of records are a prefix of the entries of all.
proof fn lemma_entries_prefix(records: Seq<Json>, k: int)
    requires
        0 <= k <= records.len(),
        entries_of(records) is Some,
    ensures
        entries_of(records.subrange(0, k)) is Some,
        entries_of(records.subrange(0, k))->Some_0 == entries_of(records)->Some_0.subrange(0, k),
        entries_of(records)->Some_0.len() == records.len(),
    decreases records.len(),
{
    if records.len() > 0 {
        lemma_entries_prefix(records.drop_last(), if k == records.len() { k - 1 } else { k });
        if k < records.len() {
            assert(records.drop_last().subrange(0, k) =~= records.subrange(0, k));
        } else {
            assert(records.subrange(0, k) =~= records);
        }
        assert(entries_of(records)->Some_0.subrange(0, k) =~= if k == records.len() {
            entries_of(records)->Some_0
        } else {
            entries_of(records.drop_last())->Some_0.subrange(0, k)
        });
    } else {
        assert(records.subrange(0, k) =~= records);
    }
}

/// Reads the entry that one record describes.
fn read_entry(v: &Json) -> (r: Result<Emoji, GitmojiError>)
    ensures
        r is Ok <==> entry_of(*v) is Some,
        r is Ok ==> r->Ok_0 == entry_of(*v)->Some_0,
        r is Err ==> r->Err_0 is Other,
{
    let code = text_member(v, "code");
    let emoji = text_member(v, "emoji");
    let name = text_member(v, "name");
    let description = text_member(v, "description");
    match (code, emoji, name, description) {
        (Some(code), Some(emoji), Some(name), Some(description)) => {
            if code.as_str().unicode_len() == 0 || emoji.as_str().unicode_len() == 0
                || name.as_str().unicode_len() == 0 || description.as_str().unicode_len() == 0 {
                Err(GitmojiError::Other("An entry has an empty field.".to_string()))
            } else {
                Ok(Emoji { code, description, emoji, name })
            }
        },
        _ => Err(GitmojiError::Other("An entry lacks a text field.".to_string())),
    }
}

/// Reads the catalogue from the text of the cached document: the entries of
/// its `gitmojis` array, in their order.
pub fn get_emojis(text: &str) -> (r: Result<Vec<Emoji>, GitmojiError>)
    ensures
        r is Ok <==> (json_accepts(text@) && catalogue_of(parsed_json(text@)) is Some),
        r is Ok ==> r->Ok_0@ == catalogue_of(parsed_json(text@))->Some_0,
        r is Ok ==> well_formed_catalogue(r->Ok_0@),
        !json_accepts(text@) <==> (r is Err && r->Err_0 is JsonError),
        json_accepts(text@) && catalogue_of(parsed_json(text@)) is None ==> (r is Err
            && r->Err_0 is Other),
{
    let doc = match parse_json(text) {
        Ok(doc) => doc,
        Err(e) => return Err(GitmojiError::JsonError(e)),
    };
    let records = match array_member(&doc, "gitmojis") {
        Some(records) => records,
        None => return Err(GitmojiError::Other("Could not find gitmoji list in json.".to_string())),
    };
    let mut emojis: Vec<Emoji> = Vec::new();
    let mut i: usize = 0;
    while i < records.len()
        invariant
            json_accepts(text@),
            doc == parsed_json(text@),
            member(doc, "gitmojis"@) == Some(Json::Array(*records)),
            i <= records@.len(),
            emojis@.len() == i,
            entries_of(records@.subrange(0, i as int)) == Some(emojis@),
            well_formed_catalogue(emojis@),
        decreases records@.len() - i,
    {
        assert(records@.subrange(0, i + 1).drop_last() =~= records@.subrange(0, i as int));
        let entry = match read_entry(&records[i]) {
            Ok(entry) => entry,
            Err(e) => {
                proof {
                    if entries_of(records@) is Some {
                        lemma_entries_prefix(records@, i + 1);
                        let first = records@.subrange(0, i + 1);
                        assert(first.drop_last() =~= records@.subrange(0, i as int));
                        assert(first.last() == records@[i as int]);
                    }
                }
                return Err(e);
            },
        };
        let mut k: usize = 0;
        while k < emojis.len()
            invariant
                json_accepts(text@),
                doc == parsed_json(text@),
                member(doc, "gitmojis"@) == Some(Json::Array(*records)),
                i < records@.len(),
                emojis@.len() == i,
                entries_of(records@.subrange(0, i as int)) == Some(emojis@),
                entry_of(records@[i as int]) == Some(entry),
                k <= emojis@.len(),
                forall|j: int| 0 <= j < k ==> emojis@[j].name@ != entry.name@,
            decreases emojis@.len() - k,
        {
            if emojis[k].name == entry.name {
                proof {
                    if entries_of(records@) is Some {
                        lemma_entries_prefix(records@, i + 1);
                        let all = entries_of(records@)->Some_0;
                        let first = records@.subrange(0, i + 1);
                        assert(first.drop_last() =~= records@.subrange(0, i as int));
                        assert(first.last() == records@[i as int]);
                        assert(entries_of(first) == Some(emojis@.push(entry)));
                        assert(all.subrange(0, i + 1) == emojis@.push(entry));
                        assert(all.subrange(0, i + 1)[k as int] == all[k as int]);
                        assert(all.subrange(0, i + 1)[i as int] == all[i as int]);
                        assert(all[k as int] == emojis@[k as int]);
                        assert(all[i as int] == entry);
                        assert(!well_formed_catalogue(all));
                    }
                }
                return Err(GitmojiError::Other("A name occurs twice in the gitmoji list.".to_string()));
            }
            k = k + 1;
        }
        emojis.push(entry);
        i = i + 1;
    }
    assert(records@.subrange(0, records@.len() as int) =~= records@);
    Ok(emojis)
}

/// What to do to obtain the catalogue.
#[derive(Clone, Copy, Debug, PartialEq, Eq, Structural)]
pub enum CacheAction {
    /// Fetch the remote document; write it to the cache once it has been read.
    Fetch,
    /// Read the cached document as it is.
    Read,
}

/// Decides how the catalogue is obtained: fetched where no cache exists or a
/// refresh is asked for, read from the cache otherwise.
pub fn list_emojis(cache_exists: bool, refetch: bool) -> (r: CacheAction)
    ensures
        r == CacheAction::Fetch <==> (!cache_exists || refetch),
        r == CacheAction::Read <==> (cache_exists && !refetch),
{
    if !cache_exists || refetch {
        CacheAction::Fetch
    } else {
        CacheAction::Read
    }
}

/// Checks a fetched document before it replaces the cache. On success it
/// hands back the exact text to write and the entries it holds; on any
/// failure there is nothing to write, so the cache stays as it was.
pub fn fetch_emojis(response: Result<String, GitmojiError>) -> (r: Result<(String, Vec<Emoji>), GitmojiError>)
    ensures
        response is Err ==> r == Err::<(String, Vec<Emoji>), GitmojiError>(response->Err_0),
        response is Ok && !json_accepts(response->Ok_0@) ==> (r is Err && r->Err_0 is JsonError),
        response is Ok ==> (r is Ok <==> (json_accepts(response->Ok_0@) && catalogue_of(
            parsed_json(response->Ok_0@),
        ) is Some)),
        response is Ok && json_accepts(response->Ok_0@) && catalogue_of(parsed_json(response->Ok_0@))
            is None ==> (r is Err && r->Err_0 is Other),
        r is Ok ==> response is Ok && r->Ok_0.0@ == response->Ok_0@,
        r is Ok ==> r->Ok_0.1@ == catalogue_of(parsed_json(response->Ok_0@))->Some_0,
        r is Ok ==> well_formed_catalogue(r->Ok_0.1@),
{
    match response {
        Ok(text) => {
            match get_emojis(text.as_str()) {
                Ok(emojis) => Ok((text, emojis)),
                Err(e) => Err(e),
            }
        },
        Err(e) => Err(e),
    }
}

/// A character with ASCII capitals mapped to their small letters, as a code point.
pub open spec fn folded(c: char) -> int {
    if 'A' <= c && c <= 'Z' {
        (c as int) + 32
    } else {
        c as int
    }
}

/// Whether `q` occurs in `h` at position `k`, ignoring ASCII case.
pub open spec fn occurs_at(h: Seq<char>, q: Seq<char>, k: int) -> bool {
    &&& 0 <= k <= h.len() - q.len()
    &&& forall|j: int| 0 <= j < q.len() ==> folded(#[trigger] h[k + j]) == folded(q[j])
}

/// Whether `q` occurs anywhere in `h`, ignoring ASCII case.
pub open spec fn contains_folded(h: Seq<char>, q: Seq<char>) -> bool {
    exists|k: int| occurs_at(h, q, k)
}

/// Whether an entry matches a query: by its name or by its description.
pub open spec fn entry_matches(e: Emoji, q: Seq<char>) -> bool {
    contains_folded(e.name@, q) || contains_folded(e.description@, q)
}

/// The entries of `es` that match `q`, in their order.
pub open spec fn search_result(es: Seq<Emoji>, q: Seq<char>) -> Seq<Emoji> {
    es.filter(|e: Emoji| entry_matches(e, q))
}

fn fold_char(c: char) -> (r: u32)
    ensures
        r as int == folded(c),
{
    if 'A' <= c && c <= 'Z' {
        (c as u32) + 32
    } else {
        c as u32
    }
}

/// Whether `q` occurs in `h`, ignoring ASCII case.
pub fn contains_ignoring_case(h: &str, q: &str) -> (r: bool)
    ensures
        r == contains_folded(h@, q@),
{
    let n = h.unicode_len();
    let m = q.unicode_len();
    if m > n {
        return false;
    }
    let mut k: usize = 0;
    while k <= n - m
        invariant
            n == h@.len(),
            m == q@.len(),
            m <= n,
            k <= n - m + 1,
            forall|p: int| 0 <= p < k ==> !occurs_at(h@, q@, p),
        decreases n - m + 1 - k,
    {
        let mut j: usize = 0;
        let mut same = true;
        while j < m
            invariant
                n == h@.len(),
                m == q@.len(),
                k + m <= n,
                j <= m,
                same ==> forall|t: int| 0 <= t < j ==> folded(#[trigger] h@[k + t]) == folded(q@[t]),
                !same ==> !occurs_at(h@, q@, k as int),
            decreases m - j,
        {
            if same && fold_char(h.get_char(k + j)) != fold_char(q.get_char(j)) {
                same = false;
            }
            j = j + 1;
        }
        if same {
            assert(occurs_at(h@, q@, k as int));
            return true;
        }
        k = k + 1;
    }
    false
}

impl Emoji {
    /// A copy of the entry.
    pub fn duplicate(&self) -> (r: Emoji)
        ensures
            r == *self,
    {
        Emoji {
            code: self.code.clone(),
            description: self.description.clone(),
            emoji: self.emoji.clone(),
            name: self.name.clone(),
        }
    }
}

/// The entries whose name or description holds `query`, ignoring ASCII case,
/// in catalogue order. The empty query matches every entry.
pub fn search_emojis(emojis: &Vec<Emoji>, query: &str) -> (r: Vec<Emoji>)
    ensures
        r@ == search_result(emojis@, query@),
{
    let mut r: Vec<Emoji> = Vec::new();
    let mut i: usize = 0;
    while i < emojis.len()
        invariant
            i <= emojis@.len(),
            r@ == search_result(emojis@.subrange(0, i as int), query@),
        decreases emojis@.len() - i,
    {
        let e = &emojis[i];
        proof {
            reveal(Seq::filter);
        }
        assert(emojis@.subrange(0, i + 1).drop_last() =~= emojis@.subrange(0, i as int));
        if contains_ignoring_case(e.name.as_str(), query) || contains_ignoring_case(
            e.description.as_str(),
            query,
        ) {
            r.push(e.duplicate());
        }
        i = i + 1;
    }
    assert(emojis@.subrange(0, emojis@.len() as int) =~= emojis@);
    r
}

/// The empty query matches every entry: searching for it gives the catalogue
/// back unchanged.
pub proof fn lemma_search_empty_query(es: Seq<Emoji>)
    ensures
        search_result(es, Seq::<char>::empty()) == es,
    decreases es.len(),
{
    reveal(Seq::filter);
    if es.len() > 0 {
        lemma_search_empty_query(es.drop_last());
        assert(occurs_at(es.last().name@, Seq::<char>::empty(), 0));
        assert(es.drop_last().push(es.last()) =~= es);
    } else {
        assert(es.filter(|e: Emoji| entry_matches(e, Seq::<char>::empty())) =~= es);
    }
}

/// Searching is stable: searching the result of a search again for the same
/// query gives that result unchanged, in the same order.
pub proof fn lemma_search_idempotent(es: Seq<Emoji>, q: Seq<char>)
    ensures
        search_result(search_result(es, q), q) == search_result(es, q),
    decreases es.len(),
{
    reveal(Seq::filter);
    if es.len() > 0 {
        lemma_search_idempotent(es.drop_last(), q);
        let sub = search_result(es.drop_last(), q);
        if entry_matches(es.last(), q) {
            assert(sub.push(es.last()).drop_last() =~= sub);
        }
    } else {
        assert(search_result(es, q) =~= es);
    }
}

} // verus!
