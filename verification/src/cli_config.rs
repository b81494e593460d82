//! Reading the command-line tool's path from the first line of a
//! configuration file, as `BufRead::lines` reads it.

use vstd::prelude::*;
use vstd::string::StrSliceExecFns;
use vstd::utf8::{
    decode_utf8, encode_scalar, encode_utf8, encode_utf8_decode_utf8, encode_utf8_valid_utf8,
    valid_utf8,
};

verus! {

/// Why a configuration file holds no path.
#[derive(Debug, Clone, Copy, PartialEq, Eq, Structural)]
pub enum ConfigError {
    /// The file is empty.
    Empty,
    /// The first line is not valid UTF-8.
    InvalidUtf8,
}

/// The message with which the tool's configuration reader gives up.
pub open spec fn config_error_message(error: ConfigError) -> Seq<char> {
    match error {
        ConfigError::Empty => "The config file is empty"@,
        ConfigError::InvalidUtf8 => "First line is not valid UTF-8"@,
    }
}

impl ConfigError {
    /// The message that goes with this error.
    pub fn message(&self) -> (m: String)
        ensures
            m@ == config_error_message(*self),
    {
        match self {
            ConfigError::Empty => "The config file is empty".to_owned(),
            ConfigError::InvalidUtf8 => "First line is not valid UTF-8".to_owned(),
        }
    }
}

/// Converts `bytes` to a string with `std::str::from_utf8`.  The contract
/// claims what its documentation states: it succeeds exactly on valid UTF-8
/// (as vstd's `valid_utf8` defines it), and the string holds the characters
/// that the bytes encode.
#[verifier::external_body]
fn utf8_to_string(bytes: &[u8]) -> (r: Option<String>)
    ensures
        r is Some <==> valid_utf8(bytes@),
        r matches Some(s) ==> s@ == decode_utf8(bytes@),
{
    match std::str::from_utf8(bytes) {
        Ok(s) => Some(s.to_owned()),
        Err(_) => None,
    }
}

/// The length of the first line of `s` as a buffered reader reads it: up
/// to and including the first newline, or all of `s` when it has none.
pub open spec fn raw_line_len(s: Seq<u8>) -> nat
    decreases s.len(),
{
    if s.len() == 0 {
        0
    } else if s[0] == 10 {
        1
    } else {
        1 + raw_line_len(s.drop_first())
    }
}

/// The bytes of the first line of `s`, newline included.
pub open spec fn raw_first_line(s: Seq<u8>) -> Seq<u8> {
    s.take(raw_line_len(s) as int)
}

/// A line with its terminator removed: a final `\n`, and a `\r` just
/// before it.
pub open spec fn strip_line_end(line: Seq<char>) -> Seq<char> {
    if line.len() > 0 && line.last() == '\n' {
        let rest = line.drop_last();
        if rest.len() > 0 && rest.last() == '\r' {
            rest.drop_last()
        } else {
            rest
        }
    } else {
        line
    }
}

/// What the first line of a configuration file gives.
pub open spec fn config_first_line(contents: Seq<u8>) -> Result<Seq<char>, ConfigError> {
    if contents.len() == 0 {
        Err(ConfigError::Empty)
    } else if !valid_utf8(raw_first_line(contents)) {
        Err(ConfigError::InvalidUtf8)
    } else {
        Ok(strip_line_end(decode_utf8(raw_first_line(contents))))
    }
}

/// Finds the bytes of the first line of `contents`, newline included.
pub fn first_raw_line(contents: &[u8]) -> (line: Vec<u8>)
    ensures
        line@ == raw_first_line(contents@),
{
    let mut line: Vec<u8> = Vec::new();
    let mut i: usize = 0;
    assert(contents@.skip(0) =~= contents@);
    while i < contents.len()
        invariant
            i <= contents@.len(),
            line@ == contents@.take(i as int),
            raw_line_len(contents@) == i + raw_line_len(contents@.skip(i as int)),
        decreases contents@.len() - i,
    {
        let b = contents[i];
        line.push(b);
        assert(line@ =~= contents@.take(i + 1));
        assert(contents@.skip(i as int)[0] == b);
        assert(contents@.skip(i as int).drop_first() =~= contents@.skip(i + 1));
        if b == 10 {
            return line;
        }
        i = i + 1;
    }
    assert(contents@.take(i as int) =~= contents@);
    assert(contents@.skip(i as int).len() == 0);
    line
}
/// Removes the line terminator that `BufRead::lines` removes: a final
/// `\n`, then a `\r` just before it.
pub fn strip_line_ending(line: &str) -> (r: String)
    ensures
        r@ == strip_line_end(line@),
{
    let n = line.unicode_len();
    if n > 0 && line.get_char(n - 1) == '\n' {
        if n > 1 && line.get_char(n - 2) == '\r' {
            line.substring_char(0, n - 2).to_owned()
        } else {
            line.substring_char(0, n - 1).to_owned()
        }
    } else {
        line.to_owned()
    }
}

/// The path that a configuration file names on its first line, from the
/// file's bytes.
pub fn cli_path_from_config(contents: &[u8]) -> (r: Result<String, ConfigError>)
    ensures
        match config_first_line(contents@) {
            Ok(path) => r matches Ok(s) && s@ == path,
            Err(e) => r == Err::<String, ConfigError>(e),
        },
{
    if contents.len() == 0 {
        return Err(ConfigError::Empty);
    }
    let raw = first_raw_line(contents);
    match utf8_to_string(raw.as_slice()) {
        None => Err(ConfigError::InvalidUtf8),
        Some(text) => Ok(strip_line_ending(text.as_str())),
    }
}

proof fn lemma_encode_append(a: Seq<char>, b: Seq<char>)
    ensures
        encode_utf8(a + b) == encode_utf8(a) + encode_utf8(b),
    decreases a.len(),
{
    if a.len() == 0 {
        assert(a + b =~= b);
    } else {
        assert((a + b).drop_first() =~= a.drop_first() + b);
        assert((a + b)[0] == a[0]);
        lemma_encode_append(a.drop_first(), b);
    }
}

proof fn lemma_scalar_no_newline(v: u32)
    requires
        v != 10,
        v <= 0x10FFFF,
    ensures
        forall|i: int| 0 <= i < encode_scalar(v).len() ==> #[trigger] encode_scalar(v)[i] != 10,
{
    let x = v;
    assert(x <= 0x7F ==> (x & 0x7F) as u8 == x) by (bit_vector);
    assert(((0xC0u8 | ((x >> 6) & 0x1F) as u8) & 0x80u8) != 0u8) by (bit_vector);
    assert(((0xE0u8 | ((x >> 12) & 0x0F) as u8) & 0x80u8) != 0u8) by (bit_vector);
    assert(((0xF0u8 | ((x >> 18) & 0x7) as u8) & 0x80u8) != 0u8) by (bit_vector);
    assert(((0x80u8 | (x & 0x3F) as u8) & 0x80u8) != 0u8) by (bit_vector);
    assert(((0x80u8 | ((x >> 6) & 0x3F) as u8) & 0x80u8) != 0u8) by (bit_vector);
    assert(((0x80u8 | ((x >> 12) & 0x3F) as u8) & 0x80u8) != 0u8) by (bit_vector);
    assert(forall|b: u8| (b & 0x80u8) != 0u8 ==> b != 10u8) by (bit_vector);
}

proof fn lemma_encode_no_newline(chars: Seq<char>)
    requires
        forall|i: int| 0 <= i < chars.len() ==> #[trigger] chars[i] != '\n',
    ensures
        forall|j: int| 0 <= j < encode_utf8(chars).len() ==> #[trigger] encode_utf8(chars)[j] != 10,
    decreases chars.len(),
{
    if chars.len() > 0 {
        let c = chars[0];
        lemma_encode_no_newline(chars.drop_first());
        vstd::utf8::char_is_scalar(c);
        vstd::utf8::char_u32_cast(c, c as u32);
        assert((c as u32) != 10u32);
        lemma_scalar_no_newline(c as u32);
        let head = encode_scalar(c as u32);
        let tail = encode_utf8(chars.drop_first());
        assert forall|j: int| 0 <= j < encode_utf8(chars).len() implies #[trigger] encode_utf8(chars)[j] != 10 by {
            if j < head.len() {
                assert(encode_utf8(chars)[j] == head[j]);
            } else {
                assert(encode_utf8(chars)[j] == tail[j - head.len()]);
            }
        }
    }
}

proof fn lemma_raw_line_len(a: Seq<u8>, rest: Seq<u8>)
    requires
        forall|j: int| 0 <= j < a.len() ==> #[trigger] a[j] != 10,
    ensures
        raw_line_len(a + seq![10u8] + rest) == a.len() + 1,
    decreases a.len(),
{
    let s = a + seq![10u8] + rest;
    if a.len() == 0 {
        assert(s[0] == 10);
    } else {
        assert(s[0] == a[0]);
        assert(s.drop_first() =~= a.drop_first() + seq![10u8] + rest);
        lemma_raw_line_len(a.drop_first(), rest);
    }
}

/// A path written as the first line of a configuration file (followed by a
/// newline, then anything) is read back unchanged, provided that it holds no
/// newline and does not end with a carriage return, which the reader would
/// take for part of the line terminator.
pub proof fn lemma_written_path_read_back(path: Seq<char>, rest: Seq<u8>)
    requires
        forall|i: int| 0 <= i < path.len() ==> #[trigger] path[i] != '\n',
        path.len() == 0 || path.last() != '\r',
    ensures
        config_first_line(encode_utf8(path.push('\n')) + rest) == Ok::<Seq<char>, ConfigError>(path),
{
    let line = path.push('\n');
    lemma_encode_append(path, seq!['\n']);
    assert(path + seq!['\n'] =~= line);
    let newline = encode_utf8(seq!['\n']);
    assert(seq!['\n'].drop_first() =~= Seq::<char>::empty());
    assert(('\n' as u32) == 10u32);
    assert((10u32 & 0x7F) as u8 == 10u8) by (bit_vector);
    assert(encode_utf8(Seq::<char>::empty()) =~= Seq::<u8>::empty());
    assert(seq!['\n'][0] as u32 == 10u32);
    assert(encode_scalar(10u32) =~= seq![10u8]);
    assert(newline =~= seq![10u8]);
    lemma_encode_no_newline(path);
    let encoded = encode_utf8(line);
    let contents = encoded + rest;
    assert(contents =~= encode_utf8(path) + seq![10u8] + rest);
    lemma_raw_line_len(encode_utf8(path), rest);
    assert(raw_first_line(contents) =~= encoded);
    encode_utf8_valid_utf8(line);
    encode_utf8_decode_utf8(line);
    assert(line.drop_last() =~= path);
}

} // verus!
