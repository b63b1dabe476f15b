//! The daemon's configuration: one directive to a line, a key and its
//! value, with `#` comments and values that may stand in double quotes.

use vstd::prelude::*;
use vstd::hash_map::StringHashMap;
use vstd::slice::slice_subrange;
use crate::error::{Error, ErrorView};
use crate::text::{
    find, first_match, is_ascii_whitespace, is_whitespace, lemma_first_match_is,
    lemma_trimmed_keeps_bare, line_len, lines_of, to_chars, to_string, trim, trimmed, CharClass,
};

verus! {

/// `line` up to its comment: what stands before the first `#`. A `#`
/// inside quotes starts a comment too.
pub open spec fn without_comment(line: Seq<char>) -> Seq<char> {
    line.take(first_match(line, CharClass::Hash) as int)
}

/// `value` without one double quote at its start and one at its end, each
/// taken only where it stands.
pub open spec fn unquoted(value: Seq<char>) -> Seq<char> {
    let rest = if value.len() > 0 && value.first() == '"' {
        value.drop_first()
    } else {
        value
    };
    if rest.len() > 0 && rest.last() == '"' {
        rest.drop_last()
    } else {
        rest
    }
}

/// The key and the value that `line` sets, if it sets any. The line loses
/// its comment and the whitespace around it; the first separator parts the
/// key from the value, which is trimmed and unquoted. A line without a
/// separator sets nothing.
pub open spec fn entry_of(line: Seq<char>) -> Option<(Seq<char>, Seq<char>)> {
    let body = trimmed(without_comment(line));
    let split = first_match(body, CharClass::Separator) as int;
    if split < body.len() {
        Some((body.take(split), unquoted(trimmed(body.skip(split + 1)))))
    } else {
        None
    }
}

/// What `lines` set, taken in order: a later line overrides an earlier one
/// with the same key.
pub open spec fn entries_of(lines: Seq<Seq<char>>) -> Map<Seq<char>, Seq<char>>
    decreases lines.len(),
{
    if lines.len() == 0 {
        Map::empty()
    } else {
        let before = entries_of(lines.drop_last());
        match entry_of(lines.last()) {
            Some((key, value)) => before.insert(key, value),
            None => before,
        }
    }
}

/// The configuration that `text` holds.
pub open spec fn config_of(text: Seq<char>) -> Map<Seq<char>, Seq<char>> {
    entries_of(lines_of(text))
}

/// The key of the directive that names the state file.
pub open spec fn state_file_key() -> Seq<char> {
    "state_file"@
}

/// A configuration: what each key is set to.
pub struct Config {
    entries: StringHashMap<String>,
}

impl View for Config {
    type V = Map<Seq<char>, Seq<char>>;

    closed spec fn view(&self) -> Map<Seq<char>, Seq<char>> {
        self.entries@.map_values(|value: String| value@)
    }
}

impl Config {
    /// A configuration that sets nothing.
    pub fn new() -> (config: Config)
        ensures
            config@ == Map::<Seq<char>, Seq<char>>::empty(),
    {
        let config = Config { entries: StringHashMap::new() };
        assert(config@ =~= Map::<Seq<char>, Seq<char>>::empty());
        config
    }

    /// Sets `key` to `value`, whatever it was set to.
    pub fn insert(&mut self, key: String, value: String)
        ensures
            final(self)@ == old(self)@.insert(key@, value@),
    {
        self.entries.insert(key, value);
        assert(self@ =~= old(self)@.insert(key@, value@));
    }

    /// What `key` is set to.
    pub fn get(&self, key: &str) -> (r: Option<&String>)
        ensures
            match r {
                Some(value) => self@.contains_key(key@) && self@[key@] == value@,
                None => !self@.contains_key(key@),
            },
    {
        self.entries.get(key)
    }

    /// Where the state file lies.
    pub fn state_file(&self) -> (r: Result<String, Error>)
        ensures
            match r {
                Ok(path) => self@.contains_key(state_file_key()) && path@ == self@[state_file_key()],
                Err(e) => !self@.contains_key(state_file_key()) && e@ == ErrorView::StateFileUnset,
            },
    {
        match self.get("state_file") {
            Some(path) => Ok(path.clone()),
            None => Err(Error::StateFileUnset),
        }
    }
}

/// Takes one double quote from the start of `value` and one from its end,
/// each only where it stands.
pub fn unquote(value: &[char]) -> (r: &[char])
    ensures
        r@ == unquoted(value@),
{
    let rest: &[char] = if value.len() > 0 && value[0] == '"' {
        slice_subrange(value, 1, value.len())
    } else {
        value
    };
    if rest.len() > 0 && rest[rest.len() - 1] == '"' {
        slice_subrange(rest, 0, rest.len() - 1)
    } else {
        rest
    }
}

/// Reads one line of a configuration.
pub fn parse_entry(line: &[char]) -> (r: Option<(String, String)>)
    ensures
        match r {
            Some((key, value)) => entry_of(line@) == Some((key@, value@)),
            None => entry_of(line@) is None,
        },
{
    let body = trim(slice_subrange(line, 0, find(line, CharClass::Hash)));
    let split = find(body, CharClass::Separator);
    if split < body.len() {
        let key = slice_subrange(body, 0, split);
        let value = unquote(trim(slice_subrange(body, split + 1, body.len())));
        Some((to_string(key), to_string(value)))
    } else {
        None
    }
}

/// Reads a configuration. No text is refused: a line that sets nothing is
/// passed over.
pub fn parse_config(text: &str) -> (config: Config)
    ensures
        config@ == config_of(text@),
{
    let chars = to_chars(text);
    let mut config = Config::new();
    let mut rest: &[char] = chars.as_slice();
    let ghost mut done: Seq<Seq<char>> = Seq::empty();
    while rest.len() > 0
        invariant
            lines_of(text@) == done + lines_of(rest@),
            config@ == entries_of(done),
        decreases rest.len(),
    {
        let n = line_len(rest);
        let line = slice_subrange(rest, 0, n);
        let next = slice_subrange(rest, n, rest.len());
        proof {
            assert(done.push(line@) + lines_of(next@) == done + lines_of(rest@));
            assert(done.push(line@).drop_last() == done);
            done = done.push(line@);
        }
        match parse_entry(line) {
            Some((key, value)) => {
                config.insert(key, value);
            },
            None => {},
        }
        rest = next;
    }
    assert(done + lines_of(rest@) == done);
    config
}

/// Two readings of one text hold the same.
pub proof fn lemma_parsing_twice_agrees(text: Seq<char>, first: Config, second: Config)
    requires
        first@ == config_of(text),
        second@ == config_of(text),
    ensures
        first@ == second@,
{
}

/// A comment sets nothing and changes nothing: whatever follows the first
/// `#` of a line, the line sets what it sets without it.
pub proof fn lemma_comment_is_ignored(head: Seq<char>, comment: Seq<char>)
    requires
        !head.contains('#'),
    ensures
        entry_of(head + seq!['#'] + comment) == entry_of(head),
{
    let line = head + seq!['#'] + comment;
    assert forall|i: int| 0 <= i < head.len() implies head[i] != '#' && line[i] != '#' by {
        assert(head.contains(head[i]));
    }
    lemma_first_match_is(line, CharClass::Hash, head.len() as int);
    lemma_first_match_is(head, CharClass::Hash, head.len() as int);
    assert(without_comment(line) == head);
    assert(without_comment(head) == head);
}

/// Whether `key` can stand as a key: it is not empty, does not begin with
/// whitespace, and holds neither a separator nor a `#`.
pub open spec fn is_key(key: Seq<char>) -> bool {
    &&& key.len() > 0
    &&& !is_whitespace(key.first())
    &&& forall|i: int|
        0 <= i < key.len() ==> !is_ascii_whitespace(#[trigger] key[i]) && key[i] != '#'
}

/// Whether `value` can stand behind a key as it is: it is not empty, holds
/// no `#`, and neither begins nor ends with whitespace.
pub open spec fn is_plain(value: Seq<char>) -> bool {
    &&& value.len() > 0
    &&& !value.contains('#')
    &&& !is_whitespace(value.first())
    &&& !is_whitespace(value.last())
}

/// A line made of a key, a space and a plain value sets the key to the
/// value, unquoted.
pub proof fn lemma_entry_of_pair(key: Seq<char>, value: Seq<char>)
    requires
        is_key(key),
        is_plain(value),
    ensures
        entry_of(key + seq![' '] + value) == Some((key, unquoted(value))),
{
    let line = key + seq![' '] + value;
    assert forall|i: int| 0 <= i < line.len() implies line[i] != '#' by {
        if i > key.len() {
            assert(value.contains(value[i - key.len() - 1]));
        }
    }
    lemma_first_match_is(line, CharClass::Hash, line.len() as int);
    assert(without_comment(line) == line);
    assert(line.first() == key.first());
    assert(line.last() == value.last());
    lemma_trimmed_keeps_bare(line);
    assert forall|i: int| 0 <= i < key.len() implies !is_ascii_whitespace(line[i]) by {
        assert(line[i] == key[i]);
    }
    lemma_first_match_is(line, CharClass::Separator, key.len() as int);
    assert(line.take(key.len() as int) == key);
    assert(line.skip(key.len() as int + 1) == value);
    lemma_trimmed_keeps_bare(value);
}

/// A value may stand bare, in quotes, or behind a quote alone: the line
/// sets the same. This holds of every value that can stand bare and come
/// out as it went in: one that is plain and neither begins nor ends with a
/// quote.
pub proof fn lemma_quotes_are_optional(key: Seq<char>, value: Seq<char>)
    requires
        is_key(key),
        is_plain(value),
        value.first() != '"',
        value.last() != '"',
    ensures
        entry_of(key + seq![' '] + value) == Some((key, value)),
        entry_of(key + seq![' '] + (seq!['"'] + value + seq!['"'])) == Some((key, value)),
        entry_of(key + seq![' '] + (seq!['"'] + value)) == Some((key, value)),
{
    let both = seq!['"'] + value + seq!['"'];
    let open = seq!['"'] + value;
    assert(!both.contains('#')) by {
        if both.contains('#') {
            let i = choose|i: int| 0 <= i < both.len() && both[i] == '#';
            assert(value.contains(value[i - 1]));
        }
    }
    assert(!open.contains('#')) by {
        if open.contains('#') {
            let i = choose|i: int| 0 <= i < open.len() && open[i] == '#';
            assert(value.contains(value[i - 1]));
        }
    }
    assert(open.last() == value.last());
    lemma_entry_of_pair(key, value);
    lemma_entry_of_pair(key, both);
    lemma_entry_of_pair(key, open);
    assert(both.drop_first().drop_last() == value);
    assert(open.drop_first() == value);
}

/// Whether `line` sets `key`.
pub open spec fn sets(line: Seq<char>, key: Seq<char>) -> bool {
    entry_of(line) matches Some(entry) && entry.0 == key
}

/// Of the lines that set a key, the last one decides.
pub proof fn lemma_last_key_wins(lines: Seq<Seq<char>>, at: int, key: Seq<char>, value: Seq<char>)
    requires
        0 <= at < lines.len(),
        entry_of(lines[at]) == Some((key, value)),
        forall|later: int| at < later < lines.len() ==> !sets(#[trigger] lines[later], key),
    ensures
        entries_of(lines).contains_key(key),
        entries_of(lines)[key] == value,
    decreases lines.len(),
{
    if at < lines.len() - 1 {
        let before = lines.drop_last();
        assert(before[at] == lines[at]);
        assert forall|later: int| at < later < before.len() implies !sets(
            #[trigger] before[later],
            key,
        ) by {
            assert(before[later] == lines[later]);
        }
        lemma_last_key_wins(before, at, key, value);
        assert(!sets(lines[lines.len() - 1], key));
    }
}

/// A key that no line sets is not set.
pub proof fn lemma_unset_key_is_absent(lines: Seq<Seq<char>>, key: Seq<char>)
    requires
        forall|at: int| 0 <= at < lines.len() ==> !sets(#[trigger] lines[at], key),
    ensures
        !entries_of(lines).contains_key(key),
    decreases lines.len(),
{
    if lines.len() > 0 {
        let before = lines.drop_last();
        assert forall|at: int| 0 <= at < before.len() implies !sets(#[trigger] before[at], key) by {
            assert(before[at] == lines[at]);
        }
        lemma_unset_key_is_absent(before, key);
        assert(!sets(lines[lines.len() - 1], key));
    }
}

} // verus!
