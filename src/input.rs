use vstd::prelude::*;
use vstd::string::StrSliceExecFns;
use crate::game::{Slot, TicTacToe};

verus! {

/// What a line typed at a prompt amounts to.
#[derive(Clone, Copy, Debug, PartialEq, Eq, Structural)]
pub enum Choice {
    /// The line held nothing but white space, and that was allowed.
    Blank,
    /// The first character of the line, upper-cased, is one of those accepted.
    Picked(char),
    /// Anything else: the player is asked again.
    Rejected,
}

/// What the players want once a game is over.
#[derive(Clone, Copy, Debug, PartialEq, Eq, Structural)]
pub enum GameState {
    Replay,
    Exit,
}

/// The characters of `s` without leading and trailing white space.
pub uninterp spec fn trimmed(s: Seq<char>) -> Seq<char>;

/// The characters of `s` mapped to upper case.
pub uninterp spec fn uppercased(s: Seq<char>) -> Seq<char>;

/// Relies on `str::trim`: removes leading and trailing white space; the result
/// depends on the characters alone.
#[verifier::external_body]
fn trim(s: &str) -> (r: &str)
    ensures
        r@ == trimmed(s@),
{
    s.trim()
}

/// Relies on `str::to_uppercase`: the upper-case equivalent of the text; the
/// result depends on the characters alone.
#[verifier::external_body]
fn to_upper(s: &str) -> (r: String)
    ensures
        r@ == uppercased(s@),
{
    s.to_uppercase()
}

/// The choice made by an already trimmed, upper-cased line `upper`.
pub open spec fn spec_pick(upper: Seq<char>, valid: Seq<char>) -> Choice {
    if upper.len() > 0 && valid.contains(upper[0]) {
        Choice::Picked(upper[0])
    } else {
        Choice::Rejected
    }
}

/// The choice made by a raw input line.
pub open spec fn spec_choice(line: Seq<char>, valid: Seq<char>, allow_empty: bool) -> Choice {
    if allow_empty && trimmed(line).len() == 0 {
        Choice::Blank
    } else {
        spec_pick(uppercased(trimmed(line)), valid)
    }
}

/// Accepts the first character of the trimmed, upper-cased line `upper` when it
/// is one of `valid_chars`.
pub fn pick_choice(upper: &str, valid_chars: &Vec<char>) -> (r: Choice)
    ensures
        r == spec_pick(upper@, valid_chars@),
{
    if upper.unicode_len() == 0 {
        return Choice::Rejected;
    }
    let c = upper.get_char(0);
    let mut i: usize = 0;
    while i < valid_chars.len()
        invariant
            i <= valid_chars@.len(),
            c == upper@[0],
            upper@.len() > 0,
            forall|k: int| 0 <= k < i ==> valid_chars@[k] != c,
        decreases valid_chars@.len() - i,
    {
        if valid_chars[i] == c {
            return Choice::Picked(c);
        }
        i = i + 1;
    }
    Choice::Rejected
}

impl TicTacToe {
    /// Reads one line typed at a prompt: a blank line when `allow_empty`
    /// holds, else the first character of the trimmed line in upper case if it
    /// is one of `valid_chars`.
    pub fn get_input(line: &str, valid_chars: &Vec<char>, allow_empty: bool) -> (r: Choice)
        ensures
            r == spec_choice(line@, valid_chars@, allow_empty),
    {
        let t = trim(line);
        if allow_empty && t.unicode_len() == 0 {
            return Choice::Blank;
        }
        let upper = to_upper(t);
        pick_choice(upper.as_str(), valid_chars)
    }

    /// The symbol that a choice names: `X`, `O`, or `Empty` for anything else.
    pub fn get_slot_input(choice: Choice) -> (r: Slot)
        ensures
            r == (match choice {
                Choice::Picked('X') => Slot::X,
                Choice::Picked('O') => Slot::O,
                _ => Slot::Empty,
            }),
    {
        match choice {
            Choice::Picked('X') => Slot::X,
            Choice::Picked('O') => Slot::O,
            _ => Slot::Empty,
        }
    }

    /// The 0-based row or column that a choice of `'1'`, `'2'` or `'3'` names.
    pub fn get_index_input(choice: Choice) -> (r: Option<usize>)
        ensures
            r == (match choice {
                Choice::Picked('1') => Some(0usize),
                Choice::Picked('2') => Some(1usize),
                Choice::Picked('3') => Some(2usize),
                _ => None,
            }),
    {
        match choice {
            Choice::Picked('1') => Some(0),
            Choice::Picked('2') => Some(1),
            Choice::Picked('3') => Some(2),
            _ => None,
        }
    }

    /// The answer to "play again?": `'Y'` replays, anything else exits.
    pub fn get_replay_input(choice: Choice) -> (r: GameState)
        ensures
            r == (if choice == Choice::Picked('Y') {
                GameState::Replay
            } else {
                GameState::Exit
            }),
    {
        match choice {
            Choice::Picked('Y') => GameState::Replay,
            _ => GameState::Exit,
        }
    }

    /// Whether another game starts after one that ended with `state`.
    pub fn play(state: GameState) -> (r: bool)
        ensures
            r == (state == GameState::Replay),
    {
        match state {
            GameState::Replay => true,
            GameState::Exit => false,
        }
    }
}

} // verus!
