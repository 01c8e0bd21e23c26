//! The interactive color session's line parser: one whitespace-separated
//! command per line, `<key-name> <red> <green> <blue>`, with a
//! field-identified parse error — key first, then red, green, blue — so the
//! session can report the offending field and keep running.

use vstd::prelude::*;
use crate::color::Color;
use crate::keys::{KeyType, StandardKey, GamingKey};

verus! {

/// A key of either bank, remembering which bank matched so the right packet
/// tag is used.
#[derive(Clone, Copy, Debug, PartialEq, Eq, Structural)]
pub enum Key {
    Standard(StandardKey),
    Gaming(GamingKey),
}

impl Key {
    pub open spec fn key_type_spec(self) -> KeyType {
        match self {
            Key::Standard(_) => KeyType::Standard,
            Key::Gaming(_) => KeyType::Gaming,
        }
    }

    pub fn key_type(self) -> (r: KeyType)
        ensures
            r == self.key_type_spec(),
    {
        match self {
            Key::Standard(_) => KeyType::Standard,
            Key::Gaming(_) => KeyType::Gaming,
        }
    }

    pub open spec fn code_spec(self) -> u8 {
        match self {
            Key::Standard(k) => k.code_spec(),
            Key::Gaming(k) => k.code_spec(),
        }
    }

    pub fn code(self) -> (r: u8)
        ensures
            r == self.code_spec(),
    {
        match self {
            Key::Standard(k) => k.code(),
            Key::Gaming(k) => k.code(),
        }
    }
}

/// Which field of a session line failed to parse.
#[derive(Clone, Copy, Debug, PartialEq, Eq, Structural)]
pub enum LineError {
    BadKey,
    BadRed,
    BadGreen,
    BadBlue,
}

/// A line's fields, split at single spaces; adjacent spaces yield empty
/// fields, and the empty line yields one empty field.
pub open spec fn split_at_spaces(s: Seq<char>) -> Seq<Seq<char>>
    decreases s.len(),
{
    if s.len() == 0 {
        seq![Seq::empty()]
    } else if s[0] == ' ' {
        seq![Seq::<char>::empty()] + split_at_spaces(s.skip(1))
    } else {
        let rest = split_at_spaces(s.skip(1));
        seq![seq![s[0]] + rest[0]] + rest.skip(1)
    }
}

/// A split always yields at least one field.
pub proof fn lemma_split_nonempty(s: Seq<char>)
    ensures
        split_at_spaces(s).len() >= 1,
    decreases s.len(),
{
    if s.len() > 0 {
        lemma_split_nonempty(s.skip(1));
    }
}

/// A partial leading token joined onto the first field of a split.
pub open spec fn prepend_token(t: Seq<char>, parts: Seq<Seq<char>>) -> Seq<Seq<char>>
    recommends
        parts.len() >= 1,
{
    seq![t + parts[0]] + parts.skip(1)
}

/// Split a line at single spaces into owned fields.
pub fn tokenize(line: &str) -> (r: Vec<String>)
    ensures
        r.deep_view() == split_at_spaces(line@),
{
    let n = line.unicode_len();
    let ghost full = line@;
    let mut done: Vec<String> = Vec::new();
    let mut start: usize = 0;
    let mut i: usize = 0;
    proof {
        assert(full.skip(0) =~= full);
        lemma_split_nonempty(full);
        assert(full.subrange(0, 0) =~= Seq::<char>::empty());
        assert(prepend_token(Seq::empty(), split_at_spaces(full)) =~= split_at_spaces(full)) by {
            lemma_split_nonempty(full);
            assert(Seq::<char>::empty() + split_at_spaces(full)[0] =~= split_at_spaces(full)[0]);
        }
    }
    while i < n
        invariant
            start <= i <= n,
            n == full.len(),
            line@ == full,
            split_at_spaces(full) == done.deep_view() + prepend_token(
                full.subrange(start as int, i as int),
                split_at_spaces(full.skip(i as int)),
            ),
        decreases n - i,
    {
        let c = line.get_char(i);
        proof {
            assert(full.skip(i as int)[0] == full[i as int]);
            assert(full.skip(i as int).skip(1) =~= full.skip(i + 1));
            lemma_split_nonempty(full.skip(i + 1));
        }
        if c == ' ' {
            let tok = line.substring_char(start, i).to_owned();
            proof {
                let cur = full.subrange(start as int, i as int);
                let rest = split_at_spaces(full.skip(i + 1));
                assert(split_at_spaces(full.skip(i as int)) == seq![Seq::<char>::empty()] + rest);
                assert(prepend_token(cur, seq![Seq::<char>::empty()] + rest) =~= seq![cur] + rest)
                    by {
                    assert(cur + (seq![Seq::<char>::empty()] + rest)[0] =~= cur);
                    assert((seq![Seq::<char>::empty()] + rest).skip(1) =~= rest);
                }
                assert(prepend_token(Seq::<char>::empty(), rest) =~= rest) by {
                    assert(Seq::<char>::empty() + rest[0] =~= rest[0]);
                }
            }
            let ghost prev = done.deep_view();
            done.push(tok);
            proof {
                assert(full.subrange(i + 1, i + 1) =~= Seq::<char>::empty());
                assert(done.deep_view() =~= prev.push(tok@));
            }
            start = i + 1;
        } else {
            proof {
                let cur = full.subrange(start as int, i as int);
                let rest = split_at_spaces(full.skip(i + 1));
                let c0 = full[i as int];
                assert(split_at_spaces(full.skip(i as int)) == prepend_token(seq![c0], rest)) by {
                    assert(seq![c0] + rest[0] == seq![full.skip(i as int)[0]] + split_at_spaces(
                        full.skip(i as int).skip(1),
                    )[0]);
                    assert(rest.skip(1) == split_at_spaces(full.skip(i as int).skip(1)).skip(1));
                }
                assert(prepend_token(cur, prepend_token(seq![c0], rest)) =~= prepend_token(
                    cur + seq![c0],
                    rest,
                )) by {
                    assert(cur + (prepend_token(seq![c0], rest))[0] =~= (cur + seq![c0]) + rest[0]);
                    assert(prepend_token(seq![c0], rest).skip(1) =~= rest.skip(1));
                }
                assert(full.subrange(start as int, i + 1) =~= cur + seq![c0]);
            }
        }
        i = i + 1;
    }
    let tok = line.substring_char(start, n).to_owned();
    proof {
        assert(full.skip(n as int) =~= Seq::<char>::empty());
        let cur = full.subrange(start as int, n as int);
        assert(split_at_spaces(Seq::<char>::empty()) == seq![Seq::<char>::empty()]);
        assert(prepend_token(cur, seq![Seq::<char>::empty()]) =~= seq![cur]) by {
            assert(cur + Seq::<char>::empty() =~= cur);
            assert(seq![Seq::<char>::empty()].skip(1) =~= Seq::<Seq<char>>::empty());
        }
    }
    let ghost prev = done.deep_view();
    done.push(tok);
    proof {
        assert(done.deep_view() =~= prev.push(tok@));
        assert(done.deep_view() =~= split_at_spaces(full));
    }
    done
}

/// Whether a character is a decimal digit.
pub open spec fn is_digit(c: char) -> bool {
    48 <= c as u32 <= 57
}

/// The decimal value of a digit string.
pub open spec fn digits_value(s: Seq<char>) -> int
    decreases s.len(),
{
    if s.len() == 0 {
        0
    } else {
        digits_value(s.drop_last()) * 10 + (s.last() as u32 - 48)
    }
}

proof fn lemma_digits_value_nonneg(s: Seq<char>)
    requires
        forall|i: int| 0 <= i < s.len() ==> is_digit(#[trigger] s[i]),
    ensures
        digits_value(s) >= 0,
    decreases s.len(),
{
    if s.len() > 0 {
        assert(forall|i: int| 0 <= i < s.drop_last().len() ==> s.drop_last()[i] == s[i]);
        lemma_digits_value_nonneg(s.drop_last());
    }
}

proof fn lemma_digits_value_mono(s: Seq<char>, i: int)
    requires
        0 <= i <= s.len(),
        forall|k: int| 0 <= k < s.len() ==> is_digit(#[trigger] s[k]),
    ensures
        digits_value(s.take(i)) <= digits_value(s),
    decreases s.len() - i,
{
    if i < s.len() {
        assert(s.take(i + 1).drop_last() =~= s.take(i));
        assert(s.take(i + 1).last() == s[i]);
        assert(forall|k: int| 0 <= k < s.take(i).len() ==> s.take(i)[k] == s[k]);
        lemma_digits_value_nonneg(s.take(i));
        assert(digits_value(s.take(i + 1)) == digits_value(s.take(i)) * 10 + (s[i] as u32 - 48));
        lemma_digits_value_mono(s, i + 1);
    } else {
        assert(s.take(i) =~= s);
    }
}

/// The value of a decimal color-channel field: every character a digit, the
/// field nonempty, and the value at most 255.
pub open spec fn parse_u8_spec(s: Seq<char>) -> Option<u8> {
    if s.len() > 0 && (forall|i: int| 0 <= i < s.len() ==> is_digit(#[trigger] s[i]))
        && digits_value(s) <= 255 {
        Some(digits_value(s) as u8)
    } else {
        None
    }
}

/// Parse one decimal color-channel field.
pub fn parse_u8(s: &str) -> (r: Option<u8>)
    ensures
        r == parse_u8_spec(s@),
{
    let n = s.unicode_len();
    if n == 0 {
        return None;
    }
    let mut acc: u32 = 0;
    let mut i: usize = 0;
    proof {
        assert(s@.take(0) =~= Seq::<char>::empty());
    }
    while i < n
        invariant
            i <= n,
            n == s@.len(),
            forall|k: int| 0 <= k < i ==> is_digit(#[trigger] s@[k]),
            acc == digits_value(s@.take(i as int)),
            acc <= 255,
        decreases n - i,
    {
        let c = s.get_char(i);
        let cv = c as u32;
        proof {
            assert(s@.take(i + 1).drop_last() =~= s@.take(i as int));
            assert(s@.take(i + 1).last() == s@[i as int]);
        }
        if cv < 48 || cv > 57 {
            return None;
        }
        acc = acc * 10 + (cv - 48);
        if acc > 255 {
            proof {
                assert(digits_value(s@.take(i + 1)) > 255);
                if forall|k: int| 0 <= k < s@.len() ==> is_digit(#[trigger] s@[k]) {
                    lemma_digits_value_mono(s@, i + 1);
                }
            }
            return None;
        }
        i = i + 1;
    }
    proof {
        assert(s@.take(n as int) =~= s@);
    }
    Some(acc as u8)
}

/// Which key, if any, carries a name: the standard bank is consulted first
/// and, only on failure there, the gaming bank.
pub open spec fn key_of_name(s: Seq<char>) -> Option<Key> {
    match StandardKey::of_name_spec(s) {
        Some(k) => Some(Key::Standard(k)),
        None => match GamingKey::of_name_spec(s) {
            Some(g) => Some(Key::Gaming(g)),
            None => None,
        },
    }
}

/// The meaning of one session line, with field precedence: an unparseable
/// key name is reported before any channel error, then red before green
/// before blue; a missing field is that field's error.
pub open spec fn parse_line_spec(s: Seq<char>) -> Result<(Key, Color), LineError> {
    let ts = split_at_spaces(s);
    match key_of_name(ts[0]) {
        None => Err(LineError::BadKey),
        Some(k) => if ts.len() < 2 {
            Err(LineError::BadRed)
        } else {
            match parse_u8_spec(ts[1]) {
                None => Err(LineError::BadRed),
                Some(red) => if ts.len() < 3 {
                    Err(LineError::BadGreen)
                } else {
                    match parse_u8_spec(ts[2]) {
                        None => Err(LineError::BadGreen),
                        Some(green) => if ts.len() < 4 {
                            Err(LineError::BadBlue)
                        } else {
                            match parse_u8_spec(ts[3]) {
                                None => Err(LineError::BadBlue),
                                Some(blue) => Ok((k, Color { red, green, blue })),
                            }
                        },
                    }
                },
            }
        },
    }
}

/// Parse one line of the interactive color session.
pub fn parse_color_line(line: &str) -> (r: Result<(Key, Color), LineError>)
    ensures
        r == parse_line_spec(line@),
{
    let tokens = tokenize(line);
    proof {
        lemma_split_nonempty(line@);
        assert(tokens.deep_view().len() == tokens@.len());
        assert(tokens@[0]@ == tokens.deep_view()[0]);
    }
    let key: Key;
    if let Some(k) = StandardKey::from_name(tokens[0].as_str()) {
        key = Key::Standard(k);
    } else if let Some(g) = GamingKey::from_name(tokens[0].as_str()) {
        key = Key::Gaming(g);
    } else {
        return Err(LineError::BadKey);
    }
    if tokens.len() < 2 {
        return Err(LineError::BadRed);
    }
    proof {
        assert(tokens@[1]@ == tokens.deep_view()[1]);
    }
    let red = match parse_u8(tokens[1].as_str()) {
        Some(v) => v,
        None => {
            return Err(LineError::BadRed);
        },
    };
    if tokens.len() < 3 {
        return Err(LineError::BadGreen);
    }
    proof {
        assert(tokens@[2]@ == tokens.deep_view()[2]);
    }
    let green = match parse_u8(tokens[2].as_str()) {
        Some(v) => v,
        None => {
            return Err(LineError::BadGreen);
        },
    };
    if tokens.len() < 4 {
        return Err(LineError::BadBlue);
    }
    proof {
        assert(tokens@[3]@ == tokens.deep_view()[3]);
    }
    let blue = match parse_u8(tokens[3].as_str()) {
        Some(v) => v,
        None => {
            return Err(LineError::BadBlue);
        },
    };
    Ok((key, Color::new(red, green, blue)))
}

} // verus!
