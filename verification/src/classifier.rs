//! The line classifier: turns raw process-output lines into structured
//! occurrences.
//!
//! The grammar is the library's own and is stated exactly by the spec
//! functions here. A system message is a line with a bracketed prefix: the
//! text after the last `]` that is followed by a whitespace character and
//! comes after the first `[`. Player arrivals and departures are read out
//! of the system-message text; names are runs of ASCII word characters and
//! ids are runs of digits. A ready line contains the marker text followed
//! by at least one further character.

use vstd::prelude::*;
use vstd::string::StrSliceExecFns;

use crate::text::{
    end_digits, end_digits_from, end_word, end_word_from, find_lit, is_space_char, lit_at,
    lit_match_at, skip_spaces, skip_spaces_from, spec_find_lit, is_space_c,
};

verus! {

/// A chat line attributed to a player.
#[derive(Clone, Debug)]
pub struct PlayerMessage {
    pub player: String,
    pub message: String,
}

impl PlayerMessage {
    pub fn new(player: String, message: String) -> (r: Self)
        ensures
            r.player == player,
            r.message == message,
    {
        Self { player, message }
    }
}

/// What one classified line means.
#[derive(Clone, Debug)]
pub enum Occurrence {
    /// The process reported readiness.
    ServerReady,
    /// A player joined, with the id the server printed.
    PlayerJoined { name: String, xuid: String },
    /// A player left.
    PlayerLeft { name: String },
    /// A line with a bracketed prefix; `message` is the text after it.
    SystemMessage { message: String },
    /// Anything else.
    Plain,
}

/// First `[` at or after `from`.
pub open spec fn find_open(s: Seq<char>, from: int) -> Option<int>
    decreases s.len() - from,
{
    if from < 0 || from >= s.len() {
        None
    } else if s[from] == '[' {
        Some(from)
    } else {
        find_open(s, from + 1)
    }
}

/// A `]` directly followed by a whitespace character.
pub open spec fn valid_close(s: Seq<char>, j: int) -> bool {
    &&& 0 <= j
    &&& j + 1 < s.len()
    &&& s[j] == ']'
    &&& is_space_char(s[j + 1])
}

/// The last valid close before position `upto`.
pub open spec fn find_last_close(s: Seq<char>, upto: int) -> Option<int>
    decreases upto,
{
    if upto <= 0 {
        None
    } else if valid_close(s, upto - 1) {
        Some(upto - 1)
    } else {
        find_last_close(s, upto - 1)
    }
}

/// The system-message text of a line: everything after the last valid
/// close that follows the first `[`, when both exist.
pub open spec fn sys_msg_spec(s: Seq<char>) -> Option<Seq<char>> {
    match find_open(s, 0) {
        None => None,
        Some(i) => match find_last_close(s, s.len() as int) {
            Some(j) => if j > i {
                Some(s.subrange(j + 2, s.len() as int))
            } else {
                None
            },
            None => None,
        },
    }
}

/// A ready marker with at least one character after it.
pub open spec fn ready_at(s: Seq<char>, i: int) -> bool {
    lit_at(s, "Server started"@, i) && i + "Server started"@.len() < s.len()
}

/// Whether a line reports readiness.
pub open spec fn server_started_spec(s: Seq<char>) -> bool {
    exists|i: int| ready_at(s, i)
}

/// The name and id announced by a player-connected system message.
pub open spec fn joined_spec(s: Seq<char>) -> Option<(Seq<char>, Seq<char>)> {
    match spec_find_lit(s, "Player connected:"@, 0) {
        None => None,
        Some(i) => {
            let a = skip_spaces(s, i + "Player connected:"@.len());
            let b = end_word(s, a);
            if b == a || b >= s.len() || s[b] != ',' {
                None
            } else {
                let c = skip_spaces(s, b + 1);
                if !lit_at(s, "xuid:"@, c) {
                    None
                } else {
                    let d = skip_spaces(s, c + "xuid:"@.len());
                    let e = end_digits(s, d);
                    if e == d {
                        None
                    } else {
                        Some((s.subrange(a, b), s.subrange(d, e)))
                    }
                }
            }
        },
    }
}

/// The name announced by a player-disconnected system message.
pub open spec fn left_spec(s: Seq<char>) -> Option<Seq<char>> {
    match spec_find_lit(s, "Player disconnected:"@, 0) {
        None => None,
        Some(i) => {
            let a = skip_spaces(s, i + "Player disconnected:"@.len());
            let b = end_word(s, a);
            if b == a {
                None
            } else {
                Some(s.subrange(a, b))
            }
        },
    }
}

/// What `classify` returns, over the specs of the four parsers: readiness
/// first, then the player changes read out of the system-message text,
/// then the bare system message, else nothing.
pub open spec fn classify_spec_matches(s: Seq<char>, r: &Occurrence) -> bool {
    if server_started_spec(s) {
        r matches Occurrence::ServerReady
    } else {
        match sys_msg_spec(s) {
            Some(m) => match joined_spec(m) {
                Some((n, x)) => r matches Occurrence::PlayerJoined { name, xuid } && name@ == n
                    && xuid@ == x,
                None => match left_spec(m) {
                    Some(n) => r matches Occurrence::PlayerLeft { name } && name@ == n,
                    None => r matches Occurrence::SystemMessage { message } && message@ == m,
                },
            },
            None => r matches Occurrence::Plain,
        }
    }
}

proof fn lemma_find_lit_first(s: Seq<char>, p: Seq<char>, from: int, i: int)
    requires
        spec_find_lit(s, p, from) == Some(i),
    ensures
        from <= i,
        lit_at(s, p, i),
        forall|j: int| from <= j < i ==> !lit_at(s, p, j),
    decreases s.len() - from,
{
    if from < 0 || from + p.len() > s.len() {
    } else if lit_at(s, p, from) {
    } else {
        lemma_find_lit_first(s, p, from + 1, i);
    }
}

proof fn lemma_find_lit_none(s: Seq<char>, p: Seq<char>, from: int)
    requires
        spec_find_lit(s, p, from) is None,
        0 <= from,
    ensures
        forall|j: int| from <= j ==> !lit_at(s, p, j),
    decreases s.len() - from,
{
    if from + p.len() > s.len() {
        assert forall|j: int| from <= j implies !lit_at(s, p, j) by {}
    } else {
        lemma_find_lit_none(s, p, from + 1);
    }
}

/// Whether the line reports readiness: it holds the ready marker with at
/// least one character following it.
pub fn parse_server_started(system_msg: &str) -> (r: bool)
    ensures
        r == server_started_spec(system_msg@),
{
    let slen = system_msg.unicode_len();
    let plen = "Server started".unicode_len();
    match find_lit(system_msg, "Server started", 0) {
        Some(i) => {
            if i + plen < slen {
                proof {
                    lemma_find_lit_first(system_msg@, "Server started"@, 0, i as int);
                    assert(ready_at(system_msg@, i as int));
                }
                true
            } else {
                proof {
                    lemma_find_lit_first(system_msg@, "Server started"@, 0, i as int);
                    if server_started_spec(system_msg@) {
                        let w = choose|w: int| ready_at(system_msg@, w);
                        assert(w + "Server started"@.len() < system_msg@.len());
                        assert(w < i);
                        assert(!lit_at(system_msg@, "Server started"@, w));
                    }
                }
                false
            }
        },
        None => {
            proof {
                lemma_find_lit_none(system_msg@, "Server started"@, 0);
                if server_started_spec(system_msg@) {
                    let w = choose|w: int| ready_at(system_msg@, w);
                    assert(!lit_at(system_msg@, "Server started"@, w));
                }
            }
            false
        },
    }
}

/// First `[` in the line.
fn find_open_from(s: &str, from: usize) -> (r: Option<usize>)
    requires
        from <= s@.len(),
    ensures
        match r {
            Some(i) => find_open(s@, from as int) == Some(i as int) && i < s@.len(),
            None => find_open(s@, from as int) is None,
        },
{
    let slen = s.unicode_len();
    let mut i: usize = from;
    while i < slen
        invariant
            from <= i <= slen,
            slen == s@.len(),
            find_open(s@, from as int) == find_open(s@, i as int),
        decreases slen - i,
    {
        if s.get_char(i) == '[' {
            return Some(i);
        }
        i = i + 1;
    }
    None
}

/// Last `]` followed by whitespace.
fn find_last_close_in(s: &str) -> (r: Option<usize>)
    ensures
        match r {
            Some(j) => find_last_close(s@, s@.len() as int) == Some(j as int) && j + 1 < s@.len(),
            None => find_last_close(s@, s@.len() as int) is None,
        },
{
    let slen = s.unicode_len();
    let mut b: usize = slen;
    while b > 0
        invariant
            b <= slen,
            slen == s@.len(),
            find_last_close(s@, slen as int) == find_last_close(s@, b as int),
        decreases b,
    {
        if s.get_char(b - 1) == ']' && b < slen && is_space_c(s.get_char(b)) {
            proof {
                assert(valid_close(s@, b - 1));
            }
            return Some(b - 1);
        }
        proof {
            assert(!valid_close(s@, b - 1));
        }
        b = b - 1;
    }
    None
}

/// The system-message text of a line, when it has a bracketed prefix.
pub fn parse_system_msg(msg: &str) -> (r: Option<String>)
    ensures
        match sys_msg_spec(msg@) {
            Some(t) => r matches Some(m) && m@ == t,
            None => r is None,
        },
{
    let slen = msg.unicode_len();
    match find_open_from(msg, 0) {
        None => None,
        Some(i) => {
            match find_last_close_in(msg) {
                None => None,
                Some(j) => {
                    if j > i {
                        Some(msg.substring_char(j + 2, slen).to_owned())
                    } else {
                        None
                    }
                },
            }
        },
    }
}

/// The player name and id of a player-connected system message.
pub fn parse_player_joined(system_msg: &str) -> (r: Option<(String, String)>)
    ensures
        match joined_spec(system_msg@) {
            Some((n, x)) => r matches Some(p) && p.0@ == n && p.1@ == x,
            None => r is None,
        },
{
    let slen = system_msg.unicode_len();
    let plen = "Player connected:".unicode_len();
    match find_lit(system_msg, "Player connected:", 0) {
        None => None,
        Some(i) => {
            proof {
                assert(i + plen <= slen);
            }
            let a = skip_spaces_from(system_msg, i + plen);
            let b = end_word_from(system_msg, a);
            if b == a || b >= slen {
                None
            } else if system_msg.get_char(b) != ',' {
                None
            } else {
                let c = skip_spaces_from(system_msg, b + 1);
                if !lit_match_at(system_msg, "xuid:", c) {
                    None
                } else {
                    let xlen = "xuid:".unicode_len();
                    let d = skip_spaces_from(system_msg, c + xlen);
                    let e = end_digits_from(system_msg, d);
                    if e == d {
                        None
                    } else {
                        let name = system_msg.substring_char(a, b).to_owned();
                        let xuid = system_msg.substring_char(d, e).to_owned();
                        Some((name, xuid))
                    }
                }
            }
        },
    }
}

/// The player name of a player-disconnected system message.
pub fn parse_player_left(system_msg: &str) -> (r: Option<String>)
    ensures
        match left_spec(system_msg@) {
            Some(n) => r matches Some(m) && m@ == n,
            None => r is None,
        },
{
    let slen = system_msg.unicode_len();
    let plen = "Player disconnected:".unicode_len();
    match find_lit(system_msg, "Player disconnected:", 0) {
        None => None,
        Some(i) => {
            proof {
                assert(i + plen <= slen);
            }
            let a = skip_spaces_from(system_msg, i + plen);
            let b = end_word_from(system_msg, a);
            if b == a {
                None
            } else {
                Some(system_msg.substring_char(a, b).to_owned())
            }
        },
    }
}

/// Classify one raw line: readiness first, then player changes read out
/// of the system-message text, then the bare system message, else plain.
pub fn classify(line: &str) -> (r: Occurrence)
    ensures
        classify_spec_matches(line@, &r),
{
    if parse_server_started(line) {
        return Occurrence::ServerReady;
    }
    match parse_system_msg(line) {
        None => Occurrence::Plain,
        Some(m) => {
            match parse_player_joined(m.as_str()) {
                Some(p) => Occurrence::PlayerJoined { name: p.0, xuid: p.1 },
                None => {
                    match parse_player_left(m.as_str()) {
                        Some(n) => Occurrence::PlayerLeft { name: n },
                        None => Occurrence::SystemMessage { message: m },
                    }
                },
            }
        },
    }
}

} // verus!
