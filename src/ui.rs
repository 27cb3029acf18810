//! User commands read from the terminal, one line at a time.
//!
//! A line that is `/connect` followed by white space (or by nothing) asks to
//! dial the one address that follows; any other non-empty line is published
//! verbatim on the node's topic. Words are separated by Unicode white space.
use crate::error::ProtocolError;
use crate::mechanisms::{flood_partial_view, flood_topics, is_multiaddr, mesh_topics, parse_multiaddr};
use crate::protocol::{publish_both, publish_effect};
use libp2p::floodsub::Floodsub;
use libp2p::gossipsub;
use libp2p::Multiaddr;
use vstd::prelude::*;
use vstd::string::*;

verus! {

/// The characters with the Unicode `White_Space` property.
pub open spec fn is_space(c: char) -> bool {
    ('\u{9}' <= c && c <= '\u{d}') || c == ' ' || c == '\u{85}' || c == '\u{a0}' || c == '\u{1680}'
        || ('\u{2000}' <= c && c <= '\u{200a}') || c == '\u{2028}' || c == '\u{2029}' || c
        == '\u{202f}' || c == '\u{205f}' || c == '\u{3000}'
}

/// Whether `c` is white space.
pub fn char_is_space(c: char) -> (r: bool)
    ensures
        r == is_space(c),
{
    ('\u{9}' <= c && c <= '\u{d}') || c == ' ' || c == '\u{85}' || c == '\u{a0}' || c == '\u{1680}'
        || ('\u{2000}' <= c && c <= '\u{200a}') || c == '\u{2028}' || c == '\u{2029}' || c
        == '\u{202f}' || c == '\u{205f}' || c == '\u{3000}'
}

/// The end of the word that starts at `i`: the first position at or after
/// `i` that holds white space, or the end of `s`.
pub open spec fn word_end(s: Seq<char>, i: int) -> int
    decreases s.len() - i,
{
    if i >= s.len() || i < 0 || is_space(s[i]) {
        i
    } else {
        word_end(s, i + 1)
    }
}

/// The words of `s` from position `i` on.
pub open spec fn words_from(s: Seq<char>, i: int) -> Seq<Seq<char>>
    decreases s.len() - i,
{
    if i < 0 || i >= s.len() {
        Seq::empty()
    } else if is_space(s[i]) {
        words_from(s, i + 1)
    } else {
        let e = word_end(s, i);
        if e <= i || e > s.len() {
            Seq::empty()
        } else {
            seq![s.subrange(i, e)] + words_from(s, e)
        }
    }
}

/// The white-space separated words of `s`.
pub open spec fn words(s: Seq<char>) -> Seq<Seq<char>> {
    words_from(s, 0)
}

/// The prefix that marks a dial request.
pub open spec fn connect_prefix() -> Seq<char> {
    seq!['/', 'c', 'o', 'n', 'n', 'e', 'c', 't']
}

/// Whether a line is a dial request: the prefix, then white space or the
/// end of the line.
pub open spec fn is_connect_line(s: Seq<char>) -> bool {
    &&& s.len() >= connect_prefix().len()
    &&& s.subrange(0, connect_prefix().len() as int) == connect_prefix()
    &&& (s.len() == connect_prefix().len() || is_space(s[connect_prefix().len() as int]))
}

proof fn lemma_word_end_bounds(s: Seq<char>, i: int)
    requires
        0 <= i <= s.len(),
    ensures
        i <= word_end(s, i) <= s.len(),
        i < s.len() && !is_space(s[i]) ==> i < word_end(s, i),
    decreases s.len() - i,
{
    if i < s.len() && !is_space(s[i]) {
        lemma_word_end_bounds(s, i + 1);
    }
}

/// The positions `[start, end)` of the words of `s`, in order.
#[verifier::spinoff_prover]
pub fn word_spans(s: &str) -> (r: Vec<(usize, usize)>)
    ensures
        r@.len() == words(s@).len(),
        forall|k: int|
            #![trigger r@[k]]
            0 <= k < r@.len() ==> r@[k].0 <= r@[k].1 <= s@.len() && s@.subrange(
                r@[k].0 as int,
                r@[k].1 as int,
            ) == words(s@)[k],
{
    let n = s.unicode_len();
    let mut spans: Vec<(usize, usize)> = Vec::new();
    let mut i: usize = 0;
    while i < n
        invariant
            n == s@.len(),
            i <= n,
            words(s@) == Seq::new(spans@.len(), |k: int| s@.subrange(spans@[k].0 as int, spans@[k].1 as int))
                + words_from(s@, i as int),
            forall|k: int| 0 <= k < spans@.len() ==> #[trigger] spans@[k].0 <= spans@[k].1 <= i,
        decreases n - i,
    {
        let c = s.get_char(i);
        if char_is_space(c) {
            i = i + 1;
        } else {
            let mut j: usize = i + 1;
            proof {
                lemma_word_end_bounds(s@, i as int);
            }
            while j < n && !char_is_space(s.get_char(j))
                invariant
                    n == s@.len(),
                    i < j <= n,
                    word_end(s@, i as int) == word_end(s@, j as int),
                decreases n - j,
            {
                j = j + 1;
            }
            proof {
                lemma_word_end_bounds(s@, j as int);
            }
            let ghost old_spans = spans@;
            spans.push((i, j));
            assert forall|k: int| 0 <= k < spans@.len() implies #[trigger] spans@[k].0 <= spans@[k].1
                <= j by {
                if k < old_spans.len() {
                    assert(spans@[k] == old_spans[k]);
                }
            }
            assert(words_from(s@, i as int) == seq![s@.subrange(i as int, j as int)] + words_from(s@, j as int));
            assert(Seq::new(spans@.len(), |k: int| s@.subrange(spans@[k].0 as int, spans@[k].1 as int))
                =~= Seq::new(old_spans.len(), |k: int| s@.subrange(old_spans[k].0 as int, old_spans[k].1 as int))
                + seq![s@.subrange(i as int, j as int)]);
            i = j;
        }
    }
    assert(words_from(s@, i as int) == Seq::<Seq<char>>::empty());
    assert(words(s@) =~= Seq::new(spans@.len(), |k: int| s@.subrange(spans@[k].0 as int, spans@[k].1 as int)));
    spans
}

/// Whether `s` is a dial request.
fn starts_with_connect(s: &str) -> (r: bool)
    ensures
        r == is_connect_line(s@),
{
    let prefix = "/connect";
    proof {
        reveal_strlit("/connect");
    }
    assert(prefix@ == connect_prefix());
    let n = s.unicode_len();
    if n < 8 {
        return false;
    }
    let mut i: usize = 0;
    while i < 8
        invariant
            n == s@.len(),
            n >= 8,
            prefix@ == connect_prefix(),
            i <= 8,
            forall|k: int| 0 <= k < i ==> s@[k] == connect_prefix()[k],
        decreases 8 - i,
    {
        if s.get_char(i) != prefix.get_char(i) {
            assert(s@.subrange(0, 8)[i as int] != connect_prefix()[i as int]);
            return false;
        }
        i = i + 1;
    }
    assert(s@.subrange(0, 8) =~= connect_prefix());
    n == 8 || char_is_space(s.get_char(8))
}

/// A command read from the terminal.
#[derive(Debug)]
pub enum Command {
    /// Dial this address.
    Dial(Multiaddr),
    /// A dial request whose address is not a multiaddress.
    InvalidAddress(String),
    /// A dial request without exactly one address.
    Usage,
    /// Publish this text.
    Publish(String),
    /// An empty line.
    Empty,
}

/// What `parse_command` makes of `line`.
pub open spec fn command_of(line: Seq<char>, c: Command) -> bool {
    if line.len() == 0 {
        c is Empty
    } else if is_connect_line(line) {
        if words(line).len() == 2 {
            if is_multiaddr(words(line)[1]) {
                c is Dial
            } else {
                c matches Command::InvalidAddress(a) && a@ == words(line)[1]
            }
        } else {
            c is Usage
        }
    } else {
        c matches Command::Publish(t) && t@ == line
    }
}

/// Reads one line of user input as a command.
pub fn parse_command(line: &str) -> (r: Command)
    ensures
        command_of(line@, r),
{
    if line.is_empty() {
        return Command::Empty;
    }
    if !starts_with_connect(line) {
        return Command::Publish(line.to_owned());
    }
    let spans = word_spans(line);
    if spans.len() != 2 {
        return Command::Usage;
    }
    assert(spans@[1].0 <= spans@[1].1 <= line@.len() && line@.subrange(
        spans@[1].0 as int,
        spans@[1].1 as int,
    ) == words(line@)[1]);
    let (start, end) = spans[1];
    let address = line.substring_char(start, end);
    assert(address@ == words(line@)[1]);
    match parse_multiaddr(address) {
        Some(a) => Command::Dial(a),
        None => Command::InvalidAddress(address.to_owned()),
    }
}

/// What handling a line of user input did, or asks of the caller.
#[derive(Debug)]
pub enum UserAction {
    /// Dial this address.
    Dial(Multiaddr),
    /// A dial request named an address that is not a multiaddress.
    InvalidAddress(String),
    /// A dial request without exactly one address.
    Usage,
    /// The line was published on the topic.
    Published,
    /// Publishing the line failed.
    PublishFailed(ProtocolError),
    /// The line was empty.
    Ignored,
}

/// The publish result that a user action reports.
pub open spec fn publish_result_of(a: UserAction) -> Result<(), ProtocolError> {
    match a {
        UserAction::PublishFailed(e) => Err(e),
        _ => Ok(()),
    }
}

/// Handles one line of user input: a dial request is handed back to the
/// caller, any other non-empty line is published on `topic` through both
/// mechanisms, as the bytes of its UTF-8 encoding.
pub fn handle_user_input(
    line: &str,
    floodsub: &mut Floodsub,
    gossipsub: &mut gossipsub::Behaviour,
    topic: &str,
) -> (r: UserAction)
    ensures
        line@.len() == 0 ==> r is Ignored,
        line@.len() > 0 && is_connect_line(line@) ==> *final(floodsub) == *old(floodsub)
            && *final(gossipsub) == *old(gossipsub) && if words(line@).len() == 2 {
            if is_multiaddr(words(line@)[1]) {
                r is Dial
            } else {
                r matches UserAction::InvalidAddress(a) && a@ == words(line@)[1]
            }
        } else {
            r is Usage
        },
        line@.len() > 0 && !is_connect_line(line@) ==> (r is Published || r is PublishFailed)
            && publish_effect(
            *old(floodsub),
            *old(gossipsub),
            *final(floodsub),
            *final(gossipsub),
            topic@,
            line.spec_bytes(),
            publish_result_of(r),
        ),
        line@.len() == 0 || topic@.len() == 0 ==> *final(floodsub)
            == *old(floodsub) && *final(gossipsub) == *old(gossipsub),
        flood_topics(*final(floodsub)) == flood_topics(*old(floodsub)),
        flood_partial_view(*final(floodsub)) == flood_partial_view(*old(floodsub)),
        mesh_topics(*final(gossipsub)) == mesh_topics(*old(gossipsub)),
{
    match parse_command(line) {
        Command::Dial(a) => UserAction::Dial(a),
        Command::InvalidAddress(a) => UserAction::InvalidAddress(a),
        Command::Usage => UserAction::Usage,
        Command::Empty => UserAction::Ignored,
        Command::Publish(text) => match publish_both(floodsub, gossipsub, topic, text.as_str().as_bytes()) {
            Ok(()) => UserAction::Published,
            Err(e) => UserAction::PublishFailed(e),
        },
    }
}

} // verus!
