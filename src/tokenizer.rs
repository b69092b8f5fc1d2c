//! Splitting a raw command line into argument tokens, with single and double
//! quoting.
use vstd::prelude::*;
use crate::text::string_of;

verus! {

/// Lines longer than this many characters are rejected.
pub const MAX_COMMAND_CHARS: usize = 1000;

/// A character that ends a token when no quoted region is open.
pub open spec fn is_termination(c: char) -> bool {
    c == ' ' || c == '\n'
}

/// A character that opens or closes a quoted region.
pub open spec fn is_quote(c: char) -> bool {
    c == '\'' || c == '"'
}

/// Unicode `White_Space`: the characters that trimming removes.
pub open spec fn is_white_space(c: char) -> bool {
    let u = c as u32;
    (0x09 <= u && u <= 0x0d) || u == 0x20 || u == 0x85 || u == 0xa0 || u == 0x1680
        || (0x2000 <= u && u <= 0x200a) || u == 0x2028 || u == 0x2029 || u == 0x202f
        || u == 0x205f || u == 0x3000
}

/// `s` without its leading white space.
pub open spec fn trim_start(s: Seq<char>) -> Seq<char>
    decreases s.len(),
{
    if s.len() > 0 && is_white_space(s[0]) {
        trim_start(s.drop_first())
    } else {
        s
    }
}

/// `s` without its trailing white space.
pub open spec fn trim_end(s: Seq<char>) -> Seq<char>
    decreases s.len(),
{
    if s.len() > 0 && is_white_space(s.last()) {
        trim_end(s.drop_last())
    } else {
        s
    }
}

/// `s` without leading or trailing white space.
pub open spec fn trim(s: Seq<char>) -> Seq<char> {
    trim_end(trim_start(s))
}

/// What has been read of a line so far: the finished tokens, the token being
/// built, and the delimiter of the open quoted region, if one is open.
pub struct ScanState {
    pub tokens: Seq<Seq<char>>,
    pub buf: Seq<char>,
    pub quote: Option<char>,
}

/// `tokens` with `buf` appended as a token, trimmed, unless nothing is left of
/// it after trimming.
pub open spec fn flush(tokens: Seq<Seq<char>>, buf: Seq<char>) -> Seq<Seq<char>> {
    if trim(buf).len() > 0 {
        tokens.push(trim(buf))
    } else {
        tokens
    }
}

/// The state after reading `c` in state `st`.
pub open spec fn step(st: ScanState, c: char) -> ScanState {
    if is_termination(c) && st.quote is None {
        ScanState { tokens: flush(st.tokens, st.buf), buf: Seq::empty(), quote: None }
    } else if is_quote(c) {
        match st.quote {
            Some(q) => if q == c {
                ScanState { quote: None, ..st }
            } else {
                ScanState { buf: st.buf.push(c), ..st }
            },
            None => ScanState { quote: Some(c), ..st },
        }
    } else {
        ScanState { buf: st.buf.push(c), ..st }
    }
}

/// The state after reading all of `s` from the start of a line.
pub open spec fn scan(s: Seq<char>) -> ScanState
    decreases s.len(),
{
    if s.len() == 0 {
        ScanState { tokens: Seq::empty(), buf: Seq::empty(), quote: None }
    } else {
        step(scan(s.drop_last()), s.last())
    }
}

/// The tokens of the line `s`. A quoted region left open at the end of the
/// line runs to its end.
pub open spec fn tokenize(s: Seq<char>) -> Seq<Seq<char>> {
    flush(scan(s).tokens, scan(s).buf)
}

/// Whether `c` is Unicode white space.
pub fn is_white_space_char(c: char) -> (r: bool)
    ensures
        r == is_white_space(c),
{
    let u = c as u32;
    (0x09 <= u && u <= 0x0d) || u == 0x20 || u == 0x85 || u == 0xa0 || u == 0x1680
        || (0x2000 <= u && u <= 0x200a) || u == 0x2028 || u == 0x2029 || u == 0x202f
        || u == 0x205f || u == 0x3000
}

/// Whether `c` ends a token outside a quoted region.
pub fn is_termination_char(c: char) -> (r: bool)
    ensures
        r == is_termination(c),
{
    c == ' ' || c == '\n'
}

/// Whether `c` opens or closes a quoted region.
pub fn is_quoting_char(c: char) -> (r: bool)
    ensures
        r == is_quote(c),
{
    c == '\'' || c == '"'
}

/// The quoting state of a scan: whether a quoted region is open, and with
/// which delimiter.
pub struct Quoting {
    pub active: bool,
    pub quote_type: Option<char>,
}

impl Quoting {
    /// A region is open exactly when a delimiter is recorded, and the
    /// delimiter is a quote character.
    pub open spec fn wf(&self) -> bool {
        &&& self.active <==> self.quote_type is Some
        &&& self.quote_type matches Some(q) ==> is_quote(q)
    }

    /// No quoted region open.
    pub fn new() -> (r: Quoting)
        ensures
            r.wf(),
            !r.active,
            r.quote_type is None,
    {
        Quoting { active: false, quote_type: None }
    }
}

/// Why a line was rejected.
#[derive(Debug, Clone, Copy, PartialEq, Eq)]
pub enum ParseError {
    /// The line is longer than `MAX_COMMAND_CHARS` characters.
    CommandTooLong,
}

/// Appends the token built in `buf`, trimmed, to `tokens`, unless nothing is
/// left of it after trimming.
fn flush_token(tokens: &mut Vec<String>, buf: &Vec<char>)
    ensures
        final(tokens).deep_view() == flush(old(tokens).deep_view(), buf@),
{
    let t = trim_chars(buf);
    if t.len() > 0 {
        let ghost before = tokens.deep_view();
        let s = string_of(t);
        tokens.push(s);
        assert(tokens.deep_view() =~= before.push(trim(buf@)));
    }
}

/// Splits the line `input` into tokens. Outside a quoted region a space or a
/// newline ends a token; a quote character opens a region that only the same
/// character closes, and in which the other quote character and white space
/// are kept. Each token is trimmed, and empty tokens are dropped.
pub fn parse_command(input: &str) -> (r: Result<Vec<String>, ParseError>)
    ensures
        r is Err <==> input@.len() > MAX_COMMAND_CHARS,
        r matches Err(e) ==> e == ParseError::CommandTooLong,
        r matches Ok(tokens) ==> tokens.deep_view() == tokenize(input@),
{
    let mut quoting = Quoting::new();
    let mut command: Vec<char> = Vec::new();
    let mut commands: Vec<String> = Vec::new();
    let mut length: usize = 0;
    assert(input@.take(0) =~= Seq::<char>::empty());
    assert(commands.deep_view() =~= Seq::<Seq<char>>::empty());
    for c in it: input.chars()
        invariant
            length == it.index(),
            it.seq() == input@,
            quoting.wf(),
            length <= MAX_COMMAND_CHARS,
            scan(input@.take(length as int)) == (ScanState {
                tokens: commands.deep_view(),
                buf: command@,
                quote: if quoting.active { quoting.quote_type } else { None },
            }),
    {
        assert(input@.take(length + 1).drop_last() =~= input@.take(length as int));
        length += 1;
        if length > MAX_COMMAND_CHARS {
            return Err(ParseError::CommandTooLong);
        }
        if is_termination_char(c) && !quoting.active {
            flush_token(&mut commands, &command);
            command = Vec::new();
        } else if is_quoting_char(c) {
            if quoting.active {
                if quoting.quote_type == Some(c) {
                    quoting.active = false;
                    quoting.quote_type = None;
                } else {
                    command.push(c);
                }
            } else {
                quoting.active = true;
                quoting.quote_type = Some(c);
            }
        } else {
            command.push(c);
        }
    }
    assert(input@.take(length as int) =~= input@);
    flush_token(&mut commands, &command);
    Ok(commands)
}

/// The characters of `v` without leading or trailing white space.
pub fn trim_chars(v: &Vec<char>) -> (r: Vec<char>)
    ensures
        r@ == trim(v@),
{
    let n = v.len();
    let mut lo: usize = 0;
    assert(v@.subrange(0, n as int) =~= v@);
    while lo < n && is_white_space_char(v[lo])
        invariant
            lo <= n,
            n == v@.len(),
            trim_start(v@) == trim_start(v@.subrange(lo as int, n as int)),
        decreases n - lo,
    {
        assert(v@.subrange(lo as int, n as int).drop_first() =~= v@.subrange(
            lo + 1,
            n as int,
        ));
        lo = lo + 1;
    }
    assert(trim_start(v@) == v@.subrange(lo as int, n as int));
    let mut hi: usize = n;
    while hi > lo && is_white_space_char(v[hi - 1])
        invariant
            lo <= hi <= n,
            n == v@.len(),
            trim(v@) == trim_end(v@.subrange(lo as int, hi as int)),
        decreases hi - lo,
    {
        assert(v@.subrange(lo as int, hi as int).drop_last() =~= v@.subrange(
            lo as int,
            hi - 1,
        ));
        hi = hi - 1;
    }
    let mut r: Vec<char> = Vec::new();
    let mut i: usize = lo;
    while i < hi
        invariant
            lo <= i <= hi <= n,
            n == v@.len(),
            r@ =~= v@.subrange(lo as int, i as int),
        decreases hi - i,
    {
        r.push(v[i]);
        i = i + 1;
    }
    r
}

} // verus!
