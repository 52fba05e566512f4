//! `KEY=value` configuration text, read into an [`AppConfig`].
use std::num::ParseIntError;
use vstd::prelude::*;
use vstd::string::*;

use crate::decimal::{
    decimal_in, displays_as, parse_u16, parse_u64, u16_parse_error_text, u64_parse_error_text,
};
use crate::text::{
    cr_stripped, first_index_of, is_first_index, lemma_lines_join, lemma_pieces_nonempty, lines,
    lines_spec, newline_pieces, split_once, split_once_spec, str_eq, strip_cr, trim, trim_spec,
    views,
};

verus! {

#[verifier::external_type_specification]
#[verifier::external_body]
pub struct ExIoError(std::io::Error);

/// Errors of [`parse_config_content`].
#[derive(Debug)]
pub enum ConfigError {
    FileError(std::io::Error),
    InvalidPort(ParseIntError),
    InvalidTimeout(ParseIntError),
    MissingField(String),
}

/// The error that caused a [`ConfigError`].
#[derive(Debug)]
pub enum ErrorSource<'a> {
    Io(&'a std::io::Error),
    ParseInt(&'a ParseIntError),
}

impl<'a> ErrorSource<'a> {
    /// Whether the cause is an integer that did not parse.
    pub fn is_parse_int(&self) -> (r: bool)
        ensures
            r == (self is ParseInt),
    {
        match self {
            ErrorSource::ParseInt(_) => true,
            ErrorSource::Io(_) => false,
        }
    }
}

impl ConfigError {
    /// The error that caused this one: the I/O error of a file that could not
    /// be read, or the integer error of a value that did not parse.
    pub fn source(&self) -> (r: Option<ErrorSource<'_>>)
        ensures
            match self {
                ConfigError::FileError(e) => r == Some(ErrorSource::Io(e)),
                ConfigError::InvalidPort(e) => r == Some(ErrorSource::ParseInt(e)),
                ConfigError::InvalidTimeout(e) => r == Some(ErrorSource::ParseInt(e)),
                ConfigError::MissingField(_) => r is None,
            },
    {
        match self {
            ConfigError::FileError(e) => Some(ErrorSource::Io(e)),
            ConfigError::InvalidPort(e) => Some(ErrorSource::ParseInt(e)),
            ConfigError::InvalidTimeout(e) => Some(ErrorSource::ParseInt(e)),
            ConfigError::MissingField(_) => None,
        }
    }

    /// The message that the error shows its user.
    pub fn to_string(&self) -> (r: String)
        ensures
            match self {
                ConfigError::FileError(e) => exists|t: String|
                    to_string_from_display_ensures::<std::io::Error>(e, t) && r@
                        == "failed to read config file: "@ + t@,
                ConfigError::InvalidPort(_) => r@ == "invalid digit in port number"@,
                ConfigError::InvalidTimeout(_) => r@ == "invalid timeout"@,
                ConfigError::MissingField(f) => r@ == "missing required field: "@ + f@,
            },
    {
        match self {
            ConfigError::FileError(e) => {
                let t = e.to_string();
                let mut r = String::from_str("failed to read config file: ");
                r.append(t.as_str());
                r
            },
            ConfigError::InvalidPort(_) => String::from_str("invalid digit in port number"),
            ConfigError::InvalidTimeout(_) => String::from_str("invalid timeout"),
            ConfigError::MissingField(f) => {
                let mut r = String::from_str("missing required field: ");
                r.append(f.as_str());
                r
            },
        }
    }
}

/// The settings that a configuration must give.
#[derive(Debug, PartialEq, Eq)]
pub struct AppConfig {
    pub port: u16,
    pub timeout: u64,
}

/// Why the lines of a configuration were rejected: the trimmed value of the
/// first `PORT` or `TIMEOUT` line that is not a number of its setting's type.
pub ghost enum ConfigFault {
    BadPort(Seq<char>),
    BadTimeout(Seq<char>),
}

/// The port and timeout that a scan has found so far.
pub type Settings = (Option<u16>, Option<u64>);

/// The settings after one more line: a line without `=` is skipped; a line
/// whose trimmed key is `PORT` or `TIMEOUT` sets that setting to its trimmed
/// value, or rejects the configuration when the value is not a number of the
/// setting's type; any other key is skipped.
pub open spec fn apply_line(s: Settings, line: Seq<char>) -> Result<Settings, ConfigFault> {
    match split_once_spec(line, '=') {
        None => Ok(s),
        Some((key, val)) => {
            let key = trim_spec(key);
            let val = trim_spec(val);
            if key == "PORT"@ {
                match decimal_in(val, false, 0, u16::MAX as int) {
                    Some(p) => Ok((Some(p as u16), s.1)),
                    None => Err(ConfigFault::BadPort(val)),
                }
            } else if key == "TIMEOUT"@ {
                match decimal_in(val, false, 0, u64::MAX as int) {
                    Some(t) => Ok((s.0, Some(t as u64))),
                    None => Err(ConfigFault::BadTimeout(val)),
                }
            } else {
                Ok(s)
            }
        },
    }
}

/// The settings that the lines give, read in order; the first rejected line
/// rejects them all.
pub open spec fn scan_lines(ls: Seq<Seq<char>>) -> Result<Settings, ConfigFault>
    decreases ls.len(),
{
    if ls.len() == 0 {
        Ok((None, None))
    } else {
        match scan_lines(ls.drop_last()) {
            Ok(s) => apply_line(s, ls.last()),
            Err(f) => Err(f),
        }
    }
}

/// The first rejected line decides: once a prefix of the lines is rejected,
/// the whole configuration is rejected the same way, whatever follows.
pub proof fn lemma_rejection_persists(ls: Seq<Seq<char>>, k: int)
    requires
        0 <= k <= ls.len(),
        scan_lines(ls.take(k)) is Err,
    ensures
        scan_lines(ls) == scan_lines(ls.take(k)),
    decreases ls.len(),
{
    if k == ls.len() {
        assert(ls.take(k) =~= ls);
    } else {
        assert(ls.drop_last().take(k) =~= ls.take(k));
        lemma_rejection_persists(ls.drop_last(), k);
    }
}

/// Whether a line leaves the settings alone: it has no `=`, or its trimmed
/// key is neither `PORT` nor `TIMEOUT` (keys are compared exactly, case
/// included).
pub open spec fn is_neutral(line: Seq<char>) -> bool {
    match split_once_spec(line, '=') {
        None => true,
        Some((key, _)) => trim_spec(key) != "PORT"@ && trim_spec(key) != "TIMEOUT"@,
    }
}

/// What the scan gives after `p` decides, through its outcome alone, what it
/// gives after `p` followed by `q`.
proof fn lemma_scan_continues(p: Seq<Seq<char>>, p2: Seq<Seq<char>>, q: Seq<Seq<char>>)
    requires
        scan_lines(p) == scan_lines(p2),
    ensures
        scan_lines(p + q) == scan_lines(p2 + q),
    decreases q.len(),
{
    if q.len() == 0 {
        assert(p + q =~= p);
        assert(p2 + q =~= p2);
    } else {
        lemma_scan_continues(p, p2, q.drop_last());
        assert((p + q).drop_last() =~= p + q.drop_last());
        assert((p2 + q).drop_last() =~= p2 + q.drop_last());
        assert((p + q).last() == q.last());
        assert((p2 + q).last() == q.last());
    }
}

/// Neutral lines after `a` leave the scan of `a` as it was.
proof fn lemma_neutral_lines_vanish(a: Seq<Seq<char>>, x: Seq<Seq<char>>)
    requires
        forall|i: int| 0 <= i < x.len() ==> is_neutral(#[trigger] x[i]),
    ensures
        scan_lines(a + x) == scan_lines(a),
    decreases x.len(),
{
    if x.len() == 0 {
        assert(a + x =~= a);
    } else {
        assert(x.drop_last().len() == x.len() - 1);
        assert forall|i: int| 0 <= i < x.drop_last().len() implies is_neutral(
            #[trigger] x.drop_last()[i],
        ) by {
            assert(x.drop_last()[i] == x[i]);
        }
        lemma_neutral_lines_vanish(a, x.drop_last());
        assert((a + x).drop_last() =~= a + x.drop_last());
        assert((a + x).last() == x[x.len() - 1]);
        assert(is_neutral(x[x.len() - 1]));
    }
}

/// Lines without a `PORT` or `TIMEOUT` key change nothing: whatever stands
/// before and after them, the scan comes out as it would without them.
pub proof fn lemma_other_lines_change_nothing(
    a: Seq<Seq<char>>,
    x: Seq<Seq<char>>,
    b: Seq<Seq<char>>,
)
    requires
        forall|i: int| 0 <= i < x.len() ==> is_neutral(#[trigger] x[i]),
    ensures
        scan_lines(a + x + b) == scan_lines(a + b),
{
    lemma_neutral_lines_vanish(a, x);
    lemma_scan_continues(a + x, a, b);
}

/// A line stays neutral without its trailing carriage return.
proof fn lemma_strip_cr_keeps_neutral(p: Seq<char>)
    requires
        is_neutral(p),
    ensures
        is_neutral(strip_cr(p)),
{
    if p.len() > 0 && p.last() == '\r' {
        let q = p.drop_last();
        match first_index_of(p, '=') {
            None => {
                assert forall|k: int| !is_first_index(q, '=', k) by {
                    if is_first_index(q, '=', k) {
                        assert forall|j: int| 0 <= j < k implies p[j] != '=' by {
                            assert(q[j] == p[j]);
                        }
                        assert(is_first_index(p, '=', k));
                    }
                }
            },
            Some(k) => {
                assert(is_first_index(p, '=', k));
                assert(is_first_index(q, '=', k));
                let k2 = choose|k2: int| is_first_index(q, '=', k2);
                assert(k2 == k) by {
                    if k2 < k {
                        assert(p[k2] != '=');
                    } else if k2 > k {
                        assert(q[k] != '=');
                    }
                }
                assert(q.take(k) =~= p.take(k));
            },
        }
    }
}

/// Text without a `PORT` or `TIMEOUT` line changes nothing: `a`, `x` and `b`
/// joined by newlines read as `a` and `b` joined by one newline, whatever `a`
/// and `b` are, when no line of `x` has either key.
pub proof fn lemma_other_text_changes_nothing(a: Seq<char>, x: Seq<char>, b: Seq<char>)
    requires
        forall|i: int| 0 <= i < lines_spec(x).len() ==> is_neutral(#[trigger] lines_spec(x)[i]),
    ensures
        scan_lines(lines_spec(a + seq!['\n'] + x + seq!['\n'] + b)) == scan_lines(
            lines_spec(a + seq!['\n'] + b),
        ),
        forall|r: Result<AppConfig, ConfigError>|
            config_outcome(a + seq!['\n'] + x + seq!['\n'] + b, r) <==> config_outcome(
                a + seq!['\n'] + b,
                r,
            ),
{
    let long = a + seq!['\n'] + x + seq!['\n'] + b;
    let short = a + seq!['\n'] + b;
    assert(long =~= a.push('\n') + (x.push('\n') + b));
    assert(short =~= a.push('\n') + b);
    lemma_lines_join(a, x.push('\n') + b);
    lemma_lines_join(x, b);
    lemma_lines_join(a, b);
    lemma_pieces_nonempty(x);
    let pa = cr_stripped(newline_pieces(a));
    let px = newline_pieces(x);
    let lb = lines_spec(b);
    assert forall|i: int| 0 <= i < cr_stripped(px).len() implies is_neutral(
        #[trigger] cr_stripped(px)[i],
    ) by {
        if i < px.len() - 1 {
            assert(lines_spec(x)[i] == strip_cr(px[i]));
        } else if px[i].len() == 0 {
            assert(strip_cr(px[i]) =~= px[i]);
            assert forall|k: int| !is_first_index(px[i], '=', k) by {}
        } else {
            assert(lines_spec(x)[i] == px[i]);
            lemma_strip_cr_keeps_neutral(px[i]);
        }
    }
    lemma_other_lines_change_nothing(pa, cr_stripped(px), lb);
    assert(pa + (cr_stripped(px) + lb) =~= pa + cr_stripped(px) + lb);
}

/// What [`parse_config_content`] gives for `content`.
pub open spec fn config_outcome(content: Seq<char>, r: Result<AppConfig, ConfigError>) -> bool {
    match scan_lines(lines_spec(content)) {
        Err(ConfigFault::BadPort(v)) => r matches Err(ConfigError::InvalidPort(e)) && displays_as(
            &e,
            u16_parse_error_text(v),
        ),
        Err(ConfigFault::BadTimeout(v)) => r matches Err(ConfigError::InvalidTimeout(e))
            && displays_as(&e, u64_parse_error_text(v)),
        Ok((None, _)) => r matches Err(ConfigError::MissingField(f)) && f@ == "PORT"@,
        Ok((Some(_), None)) => r matches Err(ConfigError::MissingField(f)) && f@ == "TIMEOUT"@,
        Ok((Some(p), Some(t))) => r == Ok::<AppConfig, ConfigError>(AppConfig { port: p, timeout: t }),
    }
}

/// Reads the `PORT` and `TIMEOUT` settings out of configuration text.
pub fn parse_config_content(content: &str) -> (r: Result<AppConfig, ConfigError>)
    ensures
        config_outcome(content@, r),
{
    let mut port: Option<u16> = None;
    let mut timeout: Option<u64> = None;
    let all = lines(content);
    let ghost ls = lines_spec(content@);
    let mut i: usize = 0;
    assert(ls.take(0) =~= Seq::<Seq<char>>::empty());
    while i < all.len()
        invariant
            views(all@) == ls,
            ls == lines_spec(content@),
            i <= all@.len(),
            scan_lines(ls.take(i as int)) == Ok::<Settings, ConfigFault>((port, timeout)),
        decreases all@.len() - i,
    {
        let line = all[i];
        assert(ls.take(i + 1).drop_last() =~= ls.take(i as int));
        assert(ls.take(i + 1).last() == line@);
        proof {
            reveal_strlit("PORT");
            reveal_strlit("TIMEOUT");
        }
        if let Some((key, val)) = split_once(line, '=') {
            let val = trim(val);
            let key = trim(key);
            if str_eq(key, "PORT") {
                match parse_u16(val) {
                    Ok(p) => port = Some(p),
                    Err(source) => {
                        proof {
                            lemma_rejection_persists(ls, i + 1);
                        }
                        return Err(ConfigError::InvalidPort(source));
                    },
                }
            } else if str_eq(key, "TIMEOUT") {
                match parse_u64(val) {
                    Ok(t) => timeout = Some(t),
                    Err(source) => {
                        proof {
                            lemma_rejection_persists(ls, i + 1);
                        }
                        return Err(ConfigError::InvalidTimeout(source));
                    },
                }
            }
        }
        i += 1;
    }
    assert(ls.take(all@.len() as int) =~= ls);
    let port = match port {
        Some(p) => p,
        None => return Err(ConfigError::MissingField(String::from_str("PORT"))),
    };
    let timeout = match timeout {
        Some(t) => t,
        None => return Err(ConfigError::MissingField(String::from_str("TIMEOUT"))),
    };
    Ok(AppConfig { port, timeout })
}

} // verus!
