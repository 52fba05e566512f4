//! Spawn commands such as `goblin 10 20`: an NPC type and two coordinates,
//! read three ways that differ only in how they report errors.
use std::num::ParseIntError;
use vstd::prelude::*;
use vstd::std_specs::convert::FromSpecImpl;
use vstd::string::*;

use crate::decimal::{
    decimal_in, displays_as, i32_parse_error_text, parse_i32, parse_u32, u32_parse_error_text,
};
use crate::text::{split_whitespace, ws_tokens};

verus! {

/// Errors of [`parse_spawn`] and [`parse_spawn_from`].
#[derive(Debug)]
pub enum ParseError {
    WrongNumberOfTokens(usize),
    InvalidInt(String),
}

/// A request to spawn an NPC of type `npc_type` at `(x, y)`.
#[derive(Debug, Eq, PartialEq)]
pub struct SpawnCommand {
    pub npc_type: String,
    pub x: i32,
    pub y: i32,
}

/// The value of `s` as an `i32` coordinate, if it is one.
pub open spec fn coordinate(s: Seq<char>) -> Option<int> {
    decimal_in(s, true, i32::MIN as int, i32::MAX as int)
}

/// Whether `cmd` is the command that the three tokens `t` spell.
pub open spec fn spells(t: Seq<Seq<char>>, cmd: SpawnCommand) -> bool {
    &&& cmd.npc_type@ == t[0]
    &&& coordinate(t[1]) == Some(cmd.x as int)
    &&& coordinate(t[2]) == Some(cmd.y as int)
}

/// The coordinate token whose error is reported: the first that is not an
/// `i32`.
pub open spec fn bad_coordinate(t: Seq<Seq<char>>) -> Seq<char> {
    if coordinate(t[1]) is None {
        t[1]
    } else {
        t[2]
    }
}

/// The outcome that both spawn parsers share: the command when there are
/// three tokens and both coordinates read; otherwise the token count is
/// wrong, or a coordinate is not an `i32`, reported with the text of the
/// first bad coordinate's error.
pub open spec fn parse_error_spec(input: Seq<char>, r: Result<SpawnCommand, ParseError>) -> bool {
    let t = ws_tokens(input);
    if t.len() != 3 {
        r matches Err(ParseError::WrongNumberOfTokens(n)) && n == t.len()
    } else {
        match r {
            Ok(cmd) => spells(t, cmd),
            Err(ParseError::InvalidInt(m)) => {
                &&& (coordinate(t[1]) is None || coordinate(t[2]) is None)
                &&& m@ == i32_parse_error_text(bad_coordinate(t))
            },
            Err(ParseError::WrongNumberOfTokens(_)) => false,
        }
    }
}

/// Reads a spawn command, translating each error by hand.
pub fn parse_spawn(input: &str) -> (r: Result<SpawnCommand, ParseError>)
    ensures
        parse_error_spec(input@, r),
{
    let tokens = split_whitespace(input);
    let ghost t = ws_tokens(input@);
    assert(tokens@.len() == t.len());
    if tokens.len() != 3 {
        return Err(ParseError::WrongNumberOfTokens(tokens.len()));
    }
    assert(tokens@[1]@ == t[1] && tokens@[2]@ == t[2] && tokens@[0]@ == t[0]);
    let x = match parse_i32(tokens[1]) {
        Ok(x) => x,
        Err(e) => return Err(ParseError::InvalidInt(e.to_string())),
    };
    let y = match parse_i32(tokens[2]) {
        Ok(y) => y,
        Err(e) => return Err(ParseError::InvalidInt(e.to_string())),
    };
    Ok(SpawnCommand { npc_type: String::from_str(tokens[0]), x, y })
}

impl From<ParseIntError> for ParseError {
    /// Keeps the text that the error displays as. That text is related to the
    /// error, not computed from it by a spec function, so it is stated here
    /// rather than through `from_spec`.
    fn from(e: ParseIntError) -> (r: Self)
        ensures
            r matches ParseError::InvalidInt(m) && to_string_from_display_ensures::<ParseIntError>(
                &e,
                m,
            ),
    {
        ParseError::InvalidInt(e.to_string())
    }
}

impl FromSpecImpl<ParseIntError> for ParseError {
    open spec fn obeys_from_spec() -> bool {
        false
    }

    open spec fn from_spec(v: ParseIntError) -> ParseError {
        arbitrary()
    }
}

/// Reads a spawn command, turning a coordinate error into a [`ParseError`]
/// through its `From` conversion.
pub fn parse_spawn_from(input: &str) -> (r: Result<SpawnCommand, ParseError>)
    ensures
        parse_error_spec(input@, r),
{
    let tokens = split_whitespace(input);
    let ghost t = ws_tokens(input@);
    assert(tokens@.len() == t.len());
    if tokens.len() != 3 {
        return Err(ParseError::WrongNumberOfTokens(tokens.len()));
    }
    assert(tokens@[1]@ == t[1] && tokens@[2]@ == t[2] && tokens@[0]@ == t[0]);
    let x = match parse_i32(tokens[1]) {
        Ok(x) => x,
        Err(e) => return Err(ParseError::from(e)),
    };
    let y = match parse_i32(tokens[2]) {
        Ok(y) => y,
        Err(e) => return Err(ParseError::from(e)),
    };
    Ok(SpawnCommand { npc_type: String::from_str(tokens[0]), x, y })
}

/// Errors of [`parse_spawn_clean`], at the level of the command rather than
/// of its tokens.
#[derive(Debug)]
pub enum ParseErrorClean {
    MalformedCommand(String),
    InvalidCoordinate(ParseIntError),
}

impl ParseErrorClean {
    /// The message that the error shows its user.
    pub fn to_string(&self) -> (r: String)
        ensures
            r@ == match self {
                ParseErrorClean::MalformedCommand(m) => "invalid command format '"@ + m@
                    + "': expected '<type> <x> <y>'"@,
                ParseErrorClean::InvalidCoordinate(_) => "failed to parse coordinate as an integer"@,
            },
    {
        match self {
            ParseErrorClean::MalformedCommand(m) => {
                let mut r = String::from_str("invalid command format '");
                r.append(m.as_str());
                r.append("': expected '<type> <x> <y>'");
                r
            },
            ParseErrorClean::InvalidCoordinate(_) => String::from_str(
                "failed to parse coordinate as an integer",
            ),
        }
    }
}

impl From<ParseIntError> for ParseErrorClean {
    fn from(e: ParseIntError) -> (r: Self) {
        ParseErrorClean::InvalidCoordinate(e)
    }
}

impl FromSpecImpl<ParseIntError> for ParseErrorClean {
    open spec fn obeys_from_spec() -> bool {
        true
    }

    open spec fn from_spec(v: ParseIntError) -> ParseErrorClean {
        ParseErrorClean::InvalidCoordinate(v)
    }
}

/// The outcome of [`parse_spawn_clean`]: the command when there are three
/// tokens and both coordinates read; the whole input when the token count is
/// wrong; otherwise the error of the first bad coordinate.
pub open spec fn clean_outcome(input: Seq<char>, r: Result<SpawnCommand, ParseErrorClean>) -> bool {
    let t = ws_tokens(input);
    if t.len() != 3 {
        r matches Err(ParseErrorClean::MalformedCommand(m)) && m@ == input
    } else {
        match r {
            Ok(cmd) => spells(t, cmd),
            Err(ParseErrorClean::InvalidCoordinate(e)) => {
                &&& (coordinate(t[1]) is None || coordinate(t[2]) is None)
                &&& displays_as(&e, i32_parse_error_text(bad_coordinate(t)))
            },
            Err(ParseErrorClean::MalformedCommand(_)) => false,
        }
    }
}

/// Reads a spawn command; a command without exactly three tokens is
/// reported with the whole input.
pub fn parse_spawn_clean(input: &str) -> (r: Result<SpawnCommand, ParseErrorClean>)
    ensures
        clean_outcome(input@, r),
{
    let tokens = split_whitespace(input);
    let ghost t = ws_tokens(input@);
    assert(tokens@.len() == t.len());
    if tokens.len() != 3 {
        return Err(ParseErrorClean::MalformedCommand(String::from_str(input)));
    }
    assert(tokens@[1]@ == t[1] && tokens@[2]@ == t[2] && tokens@[0]@ == t[0]);
    let x = match parse_i32(tokens[1]) {
        Ok(x) => x,
        Err(e) => return Err(ParseErrorClean::from(e)),
    };
    let y = match parse_i32(tokens[2]) {
        Ok(y) => y,
        Err(e) => return Err(ParseErrorClean::from(e)),
    };
    Ok(SpawnCommand { npc_type: String::from_str(tokens[0]), x, y })
}

/// The value of `s` as a `u32` coordinate, if it is one.
pub open spec fn unsigned_coordinate(s: Seq<char>) -> Option<int> {
    decimal_in(s, false, 0, u32::MAX as int)
}

/// Reads an unsigned coordinate, handing its error back unchanged.
pub fn parse_coord(s: &str) -> (r: Result<u32, ParseIntError>)
    ensures
        r is Ok <==> unsigned_coordinate(s@) is Some,
        r matches Ok(x) ==> unsigned_coordinate(s@) == Some(x as int),
        r matches Err(e) ==> displays_as(&e, u32_parse_error_text(s@)),
{
    let x = match parse_u32(s) {
        Ok(good) => good,
        Err(e) => return Err(e),
    };
    Ok(x)
}

/// Reads an unsigned coordinate that is known to be well formed.
pub fn parse_coord_unwrap(s: &str) -> (x: u32)
    requires
        unsigned_coordinate(s@) is Some,
    ensures
        unsigned_coordinate(s@) == Some(x as int),
{
    parse_u32(s).unwrap()
}

/// The plain spawn parsers give the same outcome: the same command, the same
/// token count, or the same message.
pub proof fn lemma_plain_parsers_agree(
    input: Seq<char>,
    a: Result<SpawnCommand, ParseError>,
    b: Result<SpawnCommand, ParseError>,
)
    requires
        parse_error_spec(input, a),
        parse_error_spec(input, b),
    ensures
        a is Ok <==> b is Ok,
        a matches Ok(c) ==> b matches Ok(d) && c.npc_type@ == d.npc_type@ && c.x == d.x && c.y
            == d.y,
        a matches Err(ParseError::WrongNumberOfTokens(n)) ==> b matches Err(
            ParseError::WrongNumberOfTokens(k),
        ) && n == k,
        a matches Err(ParseError::InvalidInt(m)) ==> b matches Err(ParseError::InvalidInt(k))
            && m@ == k@,
{
}

/// The spawn parsers accept the same inputs and read the same command from
/// them; they differ only in how they report errors, and a coordinate error
/// of the clean parser displays as the plain parser's message.
pub proof fn lemma_parsers_agree(
    input: Seq<char>,
    plain: Result<SpawnCommand, ParseError>,
    clean: Result<SpawnCommand, ParseErrorClean>,
)
    requires
        parse_error_spec(input, plain),
        clean_outcome(input, clean),
    ensures
        plain is Ok <==> clean is Ok,
        plain matches Ok(a) ==> clean matches Ok(b) && a.npc_type@ == b.npc_type@ && a.x == b.x
            && a.y == b.y,
        plain matches Err(ParseError::InvalidInt(m)) ==> clean matches Err(
            ParseErrorClean::InvalidCoordinate(e),
        ) && displays_as(&e, m@),
{
}

/// A malformed command keeps its input verbatim, while the token-level error
/// keeps only the count.
pub proof fn lemma_wrong_count_reported_both_ways(
    input: Seq<char>,
    plain: Result<SpawnCommand, ParseError>,
    clean: Result<SpawnCommand, ParseErrorClean>,
)
    requires
        parse_error_spec(input, plain),
        clean_outcome(input, clean),
        ws_tokens(input).len() != 3,
    ensures
        plain matches Err(ParseError::WrongNumberOfTokens(n)) && n == ws_tokens(input).len(),
        clean matches Err(ParseErrorClean::MalformedCommand(m)) && m@ == input,
{
}

} // verus!
