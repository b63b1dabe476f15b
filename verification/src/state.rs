//! The daemon's state dump, and the song that it names as current.
//!
//! A line `current: N` gives the position of the current song in the
//! playlist; a later line `N:name` gives its name. The dump is read once,
//! from top to bottom, line by line.

use vstd::prelude::*;
use vstd::slice::slice_subrange;
use crate::decimal::{decimal, number_of, parse_number, push_decimal, NumberError};
use crate::error::{Error, ErrorView};
use crate::text::{line_len, lines_of, starts_with, to_chars, to_string, trim, trimmed};

verus! {

/// What a line begins with that gives the position of the current song.
pub open spec fn marker() -> Seq<char> {
    seq!['c', 'u', 'r', 'r', 'e', 'n', 't', ':']
}

/// The length of the marker.
pub const MARKER_LEN: usize = 8;

/// Whether `line` gives the position of the current song.
pub open spec fn has_marker(line: Seq<char>) -> bool {
    marker().is_prefix_of(line)
}

/// What stands behind the marker in `line`, up to the end of the line.
pub open spec fn position_text(line: Seq<char>) -> Seq<char> {
    line.skip(marker().len() as int)
}

/// What the line of the song at position `n` begins with: the position in
/// decimal, without sign or leading zeros, and a colon.
pub open spec fn entry_prefix(n: nat) -> Seq<char> {
    decimal(n).push(':')
}

/// Whether `line` is the line of the song at position `n`.
pub open spec fn has_entry(line: Seq<char>, n: nat) -> bool {
    entry_prefix(n).is_prefix_of(line)
}

/// The name of the song in `line`, the line of the song at position `n`:
/// what stands behind the colon, trimmed.
pub open spec fn song_in(line: Seq<char>, n: nat) -> Seq<char> {
    trimmed(line.skip(entry_prefix(n).len() as int))
}

/// What one line does to a scan.
pub enum Scanned {
    /// The scan goes on, and looks for `goal` from now on.
    Onward { goal: Option<nat> },
    /// The line names the current song.
    Found { song: Seq<char> },
    /// The line gives the position of the current song, and `text` is none.
    Invalid { text: Seq<char>, cause: NumberError },
}

/// What `line` does to a scan that looks for `goal`: for the marker where
/// `goal` is `None`, else for the song at that position.
pub open spec fn scan_line(goal: Option<nat>, line: Seq<char>) -> Scanned {
    match goal {
        None => if has_marker(line) {
            match number_of(trimmed(position_text(line))) {
                Ok(n) => Scanned::Onward { goal: Some(n) },
                Err(cause) => Scanned::Invalid { text: position_text(line), cause },
            }
        } else {
            Scanned::Onward { goal }
        },
        Some(n) => if has_entry(line, n) {
            Scanned::Found { song: song_in(line, n) }
        } else {
            Scanned::Onward { goal }
        },
    }
}

/// What a scan of `lines` ends in that starts out looking for `goal`. It
/// ends at the first line that names the song or gives no valid position.
pub open spec fn scan(goal: Option<nat>, lines: Seq<Seq<char>>) -> Result<Seq<char>, ErrorView>
    decreases lines.len(),
{
    if lines.len() == 0 {
        Err(ErrorView::NoCurrentSong)
    } else {
        match scan_line(goal, lines.first()) {
            Scanned::Onward { goal: next } => scan(next, lines.drop_first()),
            Scanned::Found { song } => Ok(song),
            Scanned::Invalid { text, cause } => Err(ErrorView::InvalidIndex { text, cause }),
        }
    }
}

/// The current song that the dump `text` names.
pub open spec fn current_song_of(text: Seq<char>) -> Result<Seq<char>, ErrorView> {
    scan(None, lines_of(text))
}

/// A scan in progress. It is fed the lines of a dump one by one, so that a
/// dump need not be held in memory as a whole.
pub struct Scanner {
    goal: Option<usize>,
    prefix: Vec<char>,
}

impl View for Scanner {
    type V = Option<nat>;

    /// What the scan looks for: the marker (`None`) or the song at a
    /// position.
    closed spec fn view(&self) -> Option<nat> {
        match self.goal {
            Some(n) => Some(n as nat),
            None => None,
        }
    }
}

impl Scanner {
    #[verifier::type_invariant]
    spec fn holds_prefix(self) -> bool {
        self.goal matches Some(n) ==> self.prefix@ == entry_prefix(n as nat)
    }

    /// A scan that has seen no line yet.
    pub fn new() -> (scanner: Scanner)
        ensures
            scanner@ is None,
    {
        Scanner { goal: None, prefix: Vec::new() }
    }

    /// What the scan ends in when the dump ends before a line has named the
    /// current song.
    pub fn finish(&self) -> (e: Error)
        ensures
            e@ == ErrorView::NoCurrentSong,
    {
        Error::NoCurrentSong
    }

    /// Takes the next line of the dump: `Ok(Some(..))` with the current
    /// song where the line names it, `Ok(None)` where the scan goes on.
    pub fn feed(&mut self, line: &[char]) -> (r: Result<Option<String>, Error>)
        ensures
            match scan_line(old(self)@, line@) {
                Scanned::Onward { goal } => {
                    &&& final(self)@ == goal
                    &&& r matches Ok(None)
                },
                Scanned::Found { song } => {
                    &&& final(self)@ == old(self)@
                    &&& r matches Ok(Some(name))
                    &&& name@ == song
                },
                Scanned::Invalid { text, cause } => {
                    &&& final(self)@ == old(self)@
                    &&& r matches Err(e)
                    &&& e@ == (ErrorView::InvalidIndex { text, cause })
                },
            },
    {
        proof {
            use_type_invariant(&*self);
        }
        match self.goal {
            None => {
                if is_marked(line) {
                    let text = slice_subrange(line, MARKER_LEN, line.len());
                    match parse_number(trim(text)) {
                        Ok(n) => {
                            let mut prefix: Vec<char> = Vec::new();
                            push_decimal(n, &mut prefix);
                            prefix.push(':');
                            *self = Scanner { goal: Some(n), prefix };
                            Ok(None)
                        },
                        Err(cause) => Err(Error::InvalidIndex { text: to_string(text), cause }),
                    }
                } else {
                    Ok(None)
                }
            },
            Some(n) => {
                if starts_with(line, self.prefix.as_slice()) {
                    let name = slice_subrange(line, self.prefix.len(), line.len());
                    Ok(Some(to_string(trim(name))))
                } else {
                    Ok(None)
                }
            },
        }
    }
}

/// Tells whether `line` gives the position of the current song.
pub fn is_marked(line: &[char]) -> (r: bool)
    ensures
        r == has_marker(line@),
{
    let marker: [char; 8] = ['c', 'u', 'r', 'r', 'e', 'n', 't', ':'];
    assert(marker@ =~= self::marker());
    starts_with(line, marker.as_slice())
}

/// Finds the current song that a dump names.
pub fn parse_state(text: &str) -> (r: Result<String, Error>)
    ensures
        match r {
            Ok(song) => current_song_of(text@) == Ok::<Seq<char>, ErrorView>(song@),
            Err(e) => current_song_of(text@) == Err::<Seq<char>, ErrorView>(e@),
        },
{
    let chars = to_chars(text);
    let mut scanner = Scanner::new();
    let mut rest: &[char] = chars.as_slice();
    while rest.len() > 0
        invariant
            current_song_of(text@) == scan(scanner@, lines_of(rest@)),
        decreases rest.len(),
    {
        let n = line_len(rest);
        let line = slice_subrange(rest, 0, n);
        let next = slice_subrange(rest, n, rest.len());
        proof {
            let lines = lines_of(rest@);
            assert(lines.first() == line@);
            assert(lines.drop_first() == lines_of(next@));
        }
        match scanner.feed(line) {
            Ok(Some(song)) => {
                return Ok(song);
            },
            Ok(None) => {},
            Err(e) => {
                return Err(e);
            },
        }
        rest = next;
    }
    Err(scanner.finish())
}

/// A scan that passes over its first `count` lines without a change of
/// goal ends as the scan of the lines behind them does.
pub proof fn lemma_scan_passes(goal: Option<nat>, lines: Seq<Seq<char>>, count: int)
    requires
        0 <= count <= lines.len(),
        forall|i: int| 0 <= i < count ==> passes(goal, #[trigger] lines[i]),
    ensures
        scan(goal, lines) == scan(goal, lines.skip(count)),
    decreases count,
{
    if count == 0 {
        assert(lines.skip(0) == lines);
    } else {
        let rest = lines.drop_first();
        assert(passes(goal, lines[0]));
        assert forall|i: int| 0 <= i < count - 1 implies passes(goal, #[trigger] rest[i]) by {
            assert(rest[i] == lines[i + 1]);
        }
        lemma_scan_passes(goal, rest, count - 1);
        assert(rest.skip(count - 1) == lines.skip(count));
    }
}

/// Whether a scan that looks for `goal` passes over `line` and goes on
/// looking for `goal`.
pub open spec fn passes(goal: Option<nat>, line: Seq<char>) -> bool {
    scan_line(goal, line) == (Scanned::Onward { goal })
}

/// Whether `lines[at]` is the first line that gives a position.
pub open spec fn is_first_marker(lines: Seq<Seq<char>>, at: int) -> bool {
    &&& 0 <= at < lines.len()
    &&& has_marker(lines[at])
    &&& forall|i: int| 0 <= i < at ==> !has_marker(#[trigger] lines[i])
}

/// Whether `lines[at]` is the first line that gives a position, and the
/// position is `n`.
pub open spec fn names_position(lines: Seq<Seq<char>>, at: int, n: nat) -> bool {
    &&& is_first_marker(lines, at)
    &&& number_of(trimmed(position_text(lines[at]))) == Ok::<nat, NumberError>(n)
}

/// A dump in which no line gives a position names no current song.
pub proof fn lemma_no_marker_no_song(text: Seq<char>)
    requires
        forall|i: int| 0 <= i < lines_of(text).len() ==> !has_marker(#[trigger] lines_of(text)[i]),
    ensures
        current_song_of(text) == Err::<Seq<char>, ErrorView>(ErrorView::NoCurrentSong),
{
    let lines = lines_of(text);
    lemma_scan_passes(None, lines, lines.len() as int);
}

/// A dump that gives a position, and in which no later line is the line of
/// the song at that position, names no current song.
pub proof fn lemma_no_entry_no_song(text: Seq<char>, at: int, n: nat)
    requires
        names_position(lines_of(text), at, n),
        forall|i: int| at < i < lines_of(text).len() ==> !has_entry(#[trigger] lines_of(text)[i], n),
    ensures
        current_song_of(text) == Err::<Seq<char>, ErrorView>(ErrorView::NoCurrentSong),
{
    let lines = lines_of(text);
    lemma_scan_passes(None, lines, at);
    let from = lines.skip(at);
    assert(from.first() == lines[at]);
    let later = from.drop_first();
    assert forall|i: int| 0 <= i < later.len() implies passes(Some(n), #[trigger] later[i]) by {
        assert(later[i] == lines[at + 1 + i]);
    }
    lemma_scan_passes(Some(n), later, later.len() as int);
}

/// A dump that gives a position names the song of the first later line
/// that is the line of the song at that position.
pub proof fn lemma_song_is_found(text: Seq<char>, at: int, n: nat, entry: int)
    requires
        names_position(lines_of(text), at, n),
        at < entry < lines_of(text).len(),
        has_entry(lines_of(text)[entry], n),
        forall|i: int| at < i < entry ==> !has_entry(#[trigger] lines_of(text)[i], n),
    ensures
        current_song_of(text) == Ok::<Seq<char>, ErrorView>(song_in(lines_of(text)[entry], n)),
{
    let lines = lines_of(text);
    lemma_scan_passes(None, lines, at);
    let from = lines.skip(at);
    assert(from.first() == lines[at]);
    let later = from.drop_first();
    assert forall|i: int| 0 <= i < entry - at - 1 implies passes(Some(n), #[trigger] later[i]) by {
        assert(later[i] == lines[at + 1 + i]);
    }
    lemma_scan_passes(Some(n), later, entry - at - 1);
    assert(later.skip(entry - at - 1).first() == lines[entry]);
}

/// A dump in which the first line that gives a position gives none that is
/// valid is refused, with what stands behind the marker.
pub proof fn lemma_invalid_position_is_refused(text: Seq<char>, at: int, cause: NumberError)
    requires
        is_first_marker(lines_of(text), at),
        number_of(trimmed(position_text(lines_of(text)[at]))) == Err::<nat, NumberError>(cause),
    ensures
        current_song_of(text) == Err::<Seq<char>, ErrorView>(
            ErrorView::InvalidIndex { text: position_text(lines_of(text)[at]), cause },
        ),
{
    let lines = lines_of(text);
    lemma_scan_passes(None, lines, at);
    assert(lines.skip(at).first() == lines[at]);
}

} // verus!
