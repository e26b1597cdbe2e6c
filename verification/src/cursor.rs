//! Token cursor.
//!
//! The cursor owns the raw source bytes and scans them on demand into a
//! bounded lookahead buffer. Peeking at offset `k` never consumes; consuming
//! always advances monotonically; there is no rollback past a consumption
//! boundary. The cursor also tracks the strict-mode flag of the current
//! scope and the scanner goal symbol, which must be set before the token
//! crossing a `/` ambiguity is requested.

use vstd::prelude::*;
use crate::error::Error;
use crate::interner::Interner;
use crate::span::{LinearPosition, LinearSpan, Position, Span};
use crate::tokens::{InputElement, Keyword, Punctuator, Token, TokenKind};

verus! {

/// True when `post` contains every name of `pre` at the same handles.
pub open spec fn interner_extends(pre: Interner, post: Interner) -> bool {
    &&& post.view_names().len() >= pre.view_names().len()
    &&& forall|i: int| 0 <= i < pre.view_names().len() ==> post.view_names()[i]
        == pre.view_names()[i]
}

/// A scanning position: byte offset plus the 1-based line/column it
/// corresponds to.
#[derive(Debug, Clone, Copy, PartialEq, Eq, Structural)]
struct ScanPoint {
    p: usize,
    line: u32,
    col: u32,
}

/// Well-formed scanning position for a source of `len` bytes.
spec fn sp_wf(sp: ScanPoint, len: nat) -> bool {
    &&& sp.p <= len
    &&& 1 <= sp.line as int <= sp.p as int + 1
    &&& 1 <= sp.col as int <= sp.p as int + 1
}

/// Whether a byte can begin an identifier name.
fn is_ident_start(b: u8) -> (r: bool)
    ensures
        r == ((b >= 97 && b <= 122) || (b >= 65 && b <= 90) || b == 95 || b == 36),
{
    (b >= 97 && b <= 122) || (b >= 65 && b <= 90) || b == 95 || b == 36
}

/// Whether a byte can continue an identifier name.
fn is_ident_part(b: u8) -> bool {
    (b >= 97 && b <= 122) || (b >= 65 && b <= 90) || (b >= 48 && b <= 57) || b == 95 || b == 36
}

/// Skips whitespace, line terminators and comments. Returns the position of
/// the next significant byte and whether a line terminator was crossed.
fn skip_trivia(src: &Vec<u8>, start: ScanPoint) -> (r: Result<(ScanPoint, bool), Error>)
    requires
        sp_wf(start, src@.len()),
        src@.len() + 2 < 0x1_0000_0000,
    ensures
        r matches Ok((sp, lt)) ==> sp_wf(sp, src@.len()) && sp.p >= start.p,
        start.p == src@.len() ==> r is Ok,
        (start.p < src@.len() && src@[start.p as int] == 59) ==> (r matches Ok(x) && x.0 == start
            && x.1 == false),
    decreases src@.len() - start.p,
{
    let len = src.len();
    let mut sp = start;
    let mut lt = false;
    loop
        invariant
            sp_wf(sp, len as nat),
            len == src@.len(),
            len + 2 < 0x1_0000_0000,
            sp.p >= start.p,
            (start.p < src@.len() && src@[start.p as int] == 59) ==> (sp == start && !lt),
        decreases len - sp.p,
    {
        if sp.p >= len {
            return Ok((sp, lt));
        }
        let b = src[sp.p];
        if b == 32 || b == 9 || b == 11 || b == 12 {
            sp = ScanPoint { p: sp.p + 1, line: sp.line, col: sp.col + 1 };
        } else if b == 10 {
            sp = ScanPoint { p: sp.p + 1, line: sp.line + 1, col: 1 };
            lt = true;
        } else if b == 13 {
            if sp.p + 1 < len && src[sp.p + 1] == 10 {
                sp = ScanPoint { p: sp.p + 2, line: sp.line + 1, col: 1 };
            } else {
                sp = ScanPoint { p: sp.p + 1, line: sp.line + 1, col: 1 };
            }
            lt = true;
        } else if b == 47 && sp.p + 1 < len && src[sp.p + 1] == 47 {
            // line comment: skip to the line terminator, which the outer
            // loop then accounts for
            let mut q = sp.p + 2;
            let mut qcol = sp.col + 2;
            while q < len && src[q as usize] != 10 && src[q as usize] != 13
                invariant
                    len == src@.len(),
                    len + 2 < 0x1_0000_0000,
                    sp.p + 2 <= q <= len,
                    qcol as int <= q as int + 1,
                    1 <= qcol as int,
                decreases len - q,
            {
                q = q + 1;
                qcol = qcol + 1;
            }
            sp = ScanPoint { p: q, line: sp.line, col: qcol };
        } else if b == 47 && sp.p + 1 < len && src[sp.p + 1] == 42 {
            // block comment: a contained line terminator counts for the
            // no-line-terminator-here restrictions
            let mut q = sp.p + 2;
            let mut qline = sp.line;
            let mut qcol = sp.col + 2;
            let mut closed = false;
            loop
                invariant
                    len == src@.len(),
                    len + 2 < 0x1_0000_0000,
                    sp.p + 2 <= q <= len,
                    qcol as int <= q as int + 1,
                    1 <= qcol as int,
                    qline as int <= q as int + 1,
                    1 <= qline as int,
                ensures
                    sp.p + 2 <= q <= len,
                    qcol as int <= q as int + 1,
                    1 <= qcol as int,
                    qline as int <= q as int + 1,
                    1 <= qline as int,
                decreases len - q,
            {
                if q >= len {
                    break;
                }
                let c = src[q];
                if c == 42 && q + 1 < len && src[q + 1] == 47 {
                    closed = true;
                    q = q + 2;
                    qcol = qcol + 2;
                    break;
                } else if c == 10 || c == 13 {
                    lt = true;
                    qline = qline + 1;
                    qcol = 1;
                    q = q + 1;
                } else {
                    q = q + 1;
                    qcol = qcol + 1;
                }
            }
            if !closed {
                return Err(Error::abrupt_end(
                    Position::new(sp.line, sp.col),
                    "comment",
                ));
            }
            sp = ScanPoint { p: q, line: qline, col: qcol };
        } else {
            return Ok((sp, lt));
        }
    }
}

/// Scans an identifier name starting at `sp`, returning its bytes.
fn scan_word(src: &Vec<u8>, start: ScanPoint) -> (r: (ScanPoint, Vec<u8>))
    requires
        sp_wf(start, src@.len()),
        start.p < src@.len(),
        src@.len() + 2 < 0x1_0000_0000,
    ensures
        sp_wf(r.0, src@.len()),
        r.0.p > start.p,
        r.0.line == start.line,
{
    let len = src.len();
    let mut sp = start;
    let mut word: Vec<u8> = Vec::new();
    word.push(src[sp.p]);
    sp = ScanPoint { p: sp.p + 1, line: sp.line, col: sp.col + 1 };
    while sp.p < len && is_ident_part(src[sp.p as usize])
        invariant
            len == src@.len(),
            len + 2 < 0x1_0000_0000,
            sp_wf(sp, len as nat),
            sp.p > start.p,
            sp.line == start.line,
        decreases len - sp.p,
    {
        word.push(src[sp.p]);
        sp = ScanPoint { p: sp.p + 1, line: sp.line, col: sp.col + 1 };
    }
    (sp, word)
}

/// Classifies a scanned word as a keyword, boolean or null literal, or a
/// plain identifier name that still needs interning.
fn classify_word(word: &Vec<u8>) -> (r: Option<TokenKind>) {
    if word.len() == 2 {
        if word[0] == 111 && word[1] == 102 {
            return Some(TokenKind::Keyword(Keyword::Of));
        }
    } else if word.len() == 3 {
        if word[0] == 108 && word[1] == 101 && word[2] == 116 {
            return Some(TokenKind::Keyword(Keyword::Let));
        }
    } else if word.len() == 4 {
        if word[0] == 116 && word[1] == 114 && word[2] == 117 && word[3] == 101 {
            return Some(TokenKind::BooleanLiteral(true));
        }
        if word[0] == 110 && word[1] == 117 && word[2] == 108 && word[3] == 108 {
            return Some(TokenKind::NullLiteral);
        }
    } else if word.len() == 5 {
        if word[0] == 99 && word[1] == 111 && word[2] == 110 && word[3] == 115 && word[4] == 116 {
            return Some(TokenKind::Keyword(Keyword::Const));
        }
        if word[0] == 121 && word[1] == 105 && word[2] == 101 && word[3] == 108 && word[4] == 100 {
            return Some(TokenKind::Keyword(Keyword::Yield));
        }
        if word[0] == 97 && word[1] == 119 && word[2] == 97 && word[3] == 105 && word[4] == 116 {
            return Some(TokenKind::Keyword(Keyword::Await));
        }
        if word[0] == 97 && word[1] == 115 && word[2] == 121 && word[3] == 110 && word[4] == 99 {
            return Some(TokenKind::Keyword(Keyword::Async));
        }
        if word[0] == 115 && word[1] == 117 && word[2] == 112 && word[3] == 101 && word[4] == 114 {
            return Some(TokenKind::Keyword(Keyword::Super));
        }
        if word[0] == 102 && word[1] == 97 && word[2] == 108 && word[3] == 115 && word[4] == 101 {
            return Some(TokenKind::BooleanLiteral(false));
        }
    } else if word.len() == 8 {
        if word[0] == 102 && word[1] == 117 && word[2] == 110 && word[3] == 99 && word[4] == 116
            && word[5] == 105 && word[6] == 111 && word[7] == 110 {
            return Some(TokenKind::Keyword(Keyword::Function));
        }
    }
    None
}

/// Scans a decimal integer literal.
fn scan_number(src: &Vec<u8>, start: ScanPoint) -> (r: Result<(ScanPoint, i64), Error>)
    requires
        sp_wf(start, src@.len()),
        start.p < src@.len(),
        48 <= src@[start.p as int] <= 57,
        src@.len() + 2 < 0x1_0000_0000,
    ensures
        r matches Ok((sp, _)) ==> sp_wf(sp, src@.len()) && sp.p > start.p,
{
    let len = src.len();
    let mut sp = start;
    let mut value: i64 = (src[start.p] - 48) as i64;
    sp = ScanPoint { p: sp.p + 1, line: sp.line, col: sp.col + 1 };
    while sp.p < len && src[sp.p as usize] >= 48 && src[sp.p as usize] <= 57
        invariant
            len == src@.len(),
            len + 2 < 0x1_0000_0000,
            sp_wf(sp, len as nat),
            sp.p > start.p,
            sp.line == start.line,
            value >= 0,
        decreases len - sp.p,
    {
        let d = src[sp.p];
        if value > 922_337_203_685_477_579 {
            return Err(Error::token_error(
                Position::new(sp.line, sp.col),
                "numeric literal out of supported range",
            ));
        }
        value = value * 10 + ((d - 48) as i64);
        sp = ScanPoint { p: sp.p + 1, line: sp.line, col: sp.col + 1 };
    }
    if sp.p < len && (is_ident_start(src[sp.p]) || src[sp.p] == 46) {
        return Err(Error::token_error(
            Position::new(sp.line, sp.col),
            "unsupported numeric literal form",
        ));
    }
    Ok((sp, value))
}

/// Scans a string literal delimited by `quote`, returning its cooked bytes.
fn scan_string(src: &Vec<u8>, start: ScanPoint, quote: u8) -> (r: Result<(ScanPoint, Vec<u8>), Error>)
    requires
        sp_wf(start, src@.len()),
        start.p < src@.len(),
        src@.len() + 2 < 0x1_0000_0000,
    ensures
        r matches Ok((sp, _)) ==> sp_wf(sp, src@.len()) && sp.p > start.p,
{
    let len = src.len();
    let mut sp = ScanPoint { p: start.p + 1, line: start.line, col: start.col + 1 };
    let mut cooked: Vec<u8> = Vec::new();
    loop
        invariant
            len == src@.len(),
            len + 2 < 0x1_0000_0000,
            sp_wf(sp, len as nat),
            sp.p > start.p,
        decreases len - sp.p,
    {
        if sp.p >= len {
            return Err(Error::abrupt_end(
                Position::new(start.line, start.col),
                "string literal",
            ));
        }
        let b = src[sp.p];
        if b == quote {
            sp = ScanPoint { p: sp.p + 1, line: sp.line, col: sp.col + 1 };
            return Ok((sp, cooked));
        } else if b == 10 || b == 13 {
            return Err(Error::token_error(
                Position::new(sp.line, sp.col),
                "unterminated string literal",
            ));
        } else if b == 92 {
            if sp.p + 1 >= len {
                return Err(Error::abrupt_end(
                    Position::new(start.line, start.col),
                    "string literal",
                ));
            }
            let e = src[sp.p + 1];
            if e == 10 || e == 13 {
                // line continuation contributes nothing to the cooked text
                sp = ScanPoint { p: sp.p + 2, line: sp.line + 1, col: 1 };
            } else if e == 110 {
                cooked.push(10);
                sp = ScanPoint { p: sp.p + 2, line: sp.line, col: sp.col + 2 };
            } else if e == 116 {
                cooked.push(9);
                sp = ScanPoint { p: sp.p + 2, line: sp.line, col: sp.col + 2 };
            } else {
                cooked.push(e);
                sp = ScanPoint { p: sp.p + 2, line: sp.line, col: sp.col + 2 };
            }
        } else {
            cooked.push(b);
            sp = ScanPoint { p: sp.p + 1, line: sp.line, col: sp.col + 1 };
        }
    }
}

/// Scans a regular-expression literal, returning body and flag bytes.
fn scan_regex(src: &Vec<u8>, start: ScanPoint) -> (r: Result<(ScanPoint, Vec<u8>, Vec<u8>), Error>)
    requires
        sp_wf(start, src@.len()),
        start.p < src@.len(),
        src@.len() + 2 < 0x1_0000_0000,
    ensures
        r matches Ok((sp, _, _)) ==> sp_wf(sp, src@.len()) && sp.p > start.p,
{
    let len = src.len();
    let mut sp = ScanPoint { p: start.p + 1, line: start.line, col: start.col + 1 };
    let mut body: Vec<u8> = Vec::new();
    let mut in_class = false;
    loop
        invariant
            len == src@.len(),
            len + 2 < 0x1_0000_0000,
            sp_wf(sp, len as nat),
            sp.p > start.p,
        decreases len - sp.p,
    {
        if sp.p >= len {
            return Err(Error::abrupt_end(
                Position::new(start.line, start.col),
                "regular expression literal",
            ));
        }
        let b = src[sp.p];
        if b == 10 || b == 13 {
            return Err(Error::token_error(
                Position::new(sp.line, sp.col),
                "unterminated regular expression literal",
            ));
        } else if b == 92 {
            if sp.p + 1 >= len {
                return Err(Error::abrupt_end(
                    Position::new(start.line, start.col),
                    "regular expression literal",
                ));
            }
            body.push(b);
            body.push(src[sp.p + 1]);
            sp = ScanPoint { p: sp.p + 2, line: sp.line, col: sp.col + 2 };
        } else if b == 91 {
            in_class = true;
            body.push(b);
            sp = ScanPoint { p: sp.p + 1, line: sp.line, col: sp.col + 1 };
        } else if b == 93 {
            in_class = false;
            body.push(b);
            sp = ScanPoint { p: sp.p + 1, line: sp.line, col: sp.col + 1 };
        } else if b == 47 && !in_class {
            sp = ScanPoint { p: sp.p + 1, line: sp.line, col: sp.col + 1 };
            // flags
            let mut flags: Vec<u8> = Vec::new();
            while sp.p < len && is_ident_part(src[sp.p as usize])
                invariant
                    len == src@.len(),
                    len + 2 < 0x1_0000_0000,
                    sp_wf(sp, len as nat),
                    sp.p > start.p,
                decreases len - sp.p,
            {
                flags.push(src[sp.p]);
                sp = ScanPoint { p: sp.p + 1, line: sp.line, col: sp.col + 1 };
            }
            return Ok((sp, body, flags));
        } else {
            body.push(b);
            sp = ScanPoint { p: sp.p + 1, line: sp.line, col: sp.col + 1 };
        }
    }
}

/// Scans one template chunk from just past its opening delimiter,
/// returning its cooked bytes and whether the closing backtick (rather
/// than a `${` substitution start) ended it.
fn scan_template_chunk(src: &Vec<u8>, start: ScanPoint) -> (r: Result<(ScanPoint, Vec<u8>, bool), Error>)
    requires
        sp_wf(start, src@.len()),
        src@.len() + 2 < 0x1_0000_0000,
    ensures
        r matches Ok((sp, _, _)) ==> sp_wf(sp, src@.len()) && sp.p > start.p,
        (start.p < src@.len() && src@[start.p as int] == 96) ==> (r matches Ok((sp, cooked, closed))
            && closed == true && cooked@.len() == 0 && sp.p == start.p + 1),
{
    let len = src.len();
    let mut sp = start;
    let mut cooked: Vec<u8> = Vec::new();
    loop
        invariant
            len == src@.len(),
            len + 2 < 0x1_0000_0000,
            sp_wf(sp, len as nat),
            sp.p >= start.p,
            (start.p < src@.len() && src@[start.p as int] == 96) ==> (sp == start
                && cooked@.len() == 0),
        decreases len - sp.p,
    {
        if sp.p >= len {
            return Err(Error::abrupt_end(
                Position::new(start.line, start.col),
                "template literal",
            ));
        }
        let b = src[sp.p];
        if b == 96 {
            sp = ScanPoint { p: sp.p + 1, line: sp.line, col: sp.col + 1 };
            return Ok((sp, cooked, true));
        } else if b == 36 && sp.p + 1 < len && src[sp.p + 1] == 123 {
            sp = ScanPoint { p: sp.p + 2, line: sp.line, col: sp.col + 2 };
            return Ok((sp, cooked, false));
        } else if b == 92 {
            if sp.p + 1 >= len {
                return Err(Error::abrupt_end(
                    Position::new(start.line, start.col),
                    "template literal",
                ));
            }
            let e = src[sp.p + 1];
            if e == 10 || e == 13 {
                // line continuation contributes nothing to the cooked text
                sp = ScanPoint { p: sp.p + 2, line: sp.line + 1, col: 1 };
            } else if e == 110 {
                cooked.push(10);
                sp = ScanPoint { p: sp.p + 2, line: sp.line, col: sp.col + 2 };
            } else if e == 116 {
                cooked.push(9);
                sp = ScanPoint { p: sp.p + 2, line: sp.line, col: sp.col + 2 };
            } else {
                cooked.push(e);
                sp = ScanPoint { p: sp.p + 2, line: sp.line, col: sp.col + 2 };
            }
        } else if b == 13 {
            cooked.push(10);
            if sp.p + 1 < len && src[sp.p + 1] == 10 {
                sp = ScanPoint { p: sp.p + 2, line: sp.line + 1, col: 1 };
            } else {
                sp = ScanPoint { p: sp.p + 1, line: sp.line + 1, col: 1 };
            }
        } else if b == 10 {
            cooked.push(10);
            sp = ScanPoint { p: sp.p + 1, line: sp.line + 1, col: 1 };
        } else {
            cooked.push(b);
            sp = ScanPoint { p: sp.p + 1, line: sp.line, col: sp.col + 1 };
        }
    }
}

/// Scans the longest punctuator at `sp`, if any.
fn scan_punct(src: &Vec<u8>, start: ScanPoint) -> (r: Option<(ScanPoint, Punctuator)>)
    requires
        sp_wf(start, src@.len()),
        start.p < src@.len(),
        src@.len() + 2 < 0x1_0000_0000,
    ensures
        r matches Some((sp, _)) ==> sp_wf(sp, src@.len()) && sp.p > start.p && sp.line
            == start.line,
        src@[start.p as int] == 59 ==> (r matches Some(x) && x.1 == Punctuator::Semicolon
            && x.0.p == start.p + 1),
{
    let len = src.len();
    let p = start.p;
    let b = src[p];
    let b1 = if p + 1 < len { src[p + 1] } else { 0 };
    let b2 = if p + 2 < len { src[p + 2] } else { 0 };
    let b3 = if p + 3 < len { src[p + 3] } else { 0 };
    let (q, n): (Punctuator, usize) = if b == 40 {
        (Punctuator::OpenParen, 1)
    } else if b == 41 {
        (Punctuator::CloseParen, 1)
    } else if b == 123 {
        (Punctuator::OpenBlock, 1)
    } else if b == 125 {
        (Punctuator::CloseBlock, 1)
    } else if b == 91 {
        (Punctuator::OpenBracket, 1)
    } else if b == 93 {
        (Punctuator::CloseBracket, 1)
    } else if b == 44 {
        (Punctuator::Comma, 1)
    } else if b == 59 {
        (Punctuator::Semicolon, 1)
    } else if b == 58 {
        (Punctuator::Colon, 1)
    } else if b == 126 {
        (Punctuator::Neg, 1)
    } else if b == 46 {
        if b1 == 46 && b2 == 46 {
            (Punctuator::Spread, 3)
        } else {
            (Punctuator::Dot, 1)
        }
    } else if b == 61 {
        if b1 == 61 && b2 == 61 {
            (Punctuator::StrictEq, 3)
        } else if b1 == 61 {
            (Punctuator::Eq, 2)
        } else if b1 == 62 {
            (Punctuator::Arrow, 2)
        } else {
            (Punctuator::Assign, 1)
        }
    } else if b == 33 {
        if b1 == 61 && b2 == 61 {
            (Punctuator::StrictNotEq, 3)
        } else if b1 == 61 {
            (Punctuator::NotEq, 2)
        } else {
            (Punctuator::Not, 1)
        }
    } else if b == 60 {
        if b1 == 60 && b2 == 61 {
            (Punctuator::AssignLeftSh, 3)
        } else if b1 == 60 {
            (Punctuator::LeftSh, 2)
        } else if b1 == 61 {
            (Punctuator::LessThanOrEq, 2)
        } else {
            (Punctuator::LessThan, 1)
        }
    } else if b == 62 {
        if b1 == 62 && b2 == 62 && b3 == 61 {
            (Punctuator::AssignURightSh, 4)
        } else if b1 == 62 && b2 == 62 {
            (Punctuator::URightSh, 3)
        } else if b1 == 62 && b2 == 61 {
            (Punctuator::AssignRightSh, 3)
        } else if b1 == 62 {
            (Punctuator::RightSh, 2)
        } else if b1 == 61 {
            (Punctuator::GreaterThanOrEq, 2)
        } else {
            (Punctuator::GreaterThan, 1)
        }
    } else if b == 38 {
        if b1 == 38 && b2 == 61 {
            (Punctuator::AssignBoolAnd, 3)
        } else if b1 == 38 {
            (Punctuator::BoolAnd, 2)
        } else if b1 == 61 {
            (Punctuator::AssignAnd, 2)
        } else {
            (Punctuator::And, 1)
        }
    } else if b == 124 {
        if b1 == 124 && b2 == 61 {
            (Punctuator::AssignBoolOr, 3)
        } else if b1 == 124 {
            (Punctuator::BoolOr, 2)
        } else if b1 == 61 {
            (Punctuator::AssignOr, 2)
        } else {
            (Punctuator::Or, 1)
        }
    } else if b == 63 {
        if b1 == 63 && b2 == 61 {
            (Punctuator::AssignCoalesce, 3)
        } else if b1 == 63 {
            (Punctuator::Coalesce, 2)
        } else if b1 == 46 {
            (Punctuator::Optional, 2)
        } else {
            (Punctuator::Question, 1)
        }
    } else if b == 43 {
        if b1 == 61 {
            (Punctuator::AssignAdd, 2)
        } else if b1 == 43 {
            (Punctuator::Inc, 2)
        } else {
            (Punctuator::Add, 1)
        }
    } else if b == 45 {
        if b1 == 61 {
            (Punctuator::AssignSub, 2)
        } else if b1 == 45 {
            (Punctuator::Dec, 2)
        } else {
            (Punctuator::Sub, 1)
        }
    } else if b == 42 {
        if b1 == 42 && b2 == 61 {
            (Punctuator::AssignPow, 3)
        } else if b1 == 42 {
            (Punctuator::Exp, 2)
        } else if b1 == 61 {
            (Punctuator::AssignMul, 2)
        } else {
            (Punctuator::Mul, 1)
        }
    } else if b == 47 {
        if b1 == 61 {
            (Punctuator::AssignDiv, 2)
        } else {
            (Punctuator::Div, 1)
        }
    } else if b == 37 {
        if b1 == 61 {
            (Punctuator::AssignMod, 2)
        } else {
            (Punctuator::Mod, 1)
        }
    } else if b == 94 {
        if b1 == 61 {
            (Punctuator::AssignXor, 2)
        } else {
            (Punctuator::Xor, 1)
        }
    } else {
        return None;
    };
    if p + n > len {
        // a multi-byte operator can only be chosen when its bytes are there
        return None;
    }
    Some((ScanPoint { p: p + n, line: start.line, col: start.col + n as u32 }, q))
}

/// Buffered, lookahead-capable token source over raw source bytes.
pub struct Cursor {
    src: Vec<u8>,
    pos: usize,
    line: u32,
    col: u32,
    buf: Vec<Token>,
    strict: bool,
    goal: InputElement,
    last_linear_end: u64,
}

impl Cursor {
    /// The raw source bytes.
    pub closed spec fn src_view(self) -> Seq<u8> {
        self.src@
    }

    /// Byte offset of the next unscanned byte.
    pub closed spec fn lex_pos(self) -> int {
        self.pos as int
    }

    /// Tokens scanned ahead but not yet consumed, in source order.
    pub closed spec fn lookahead(self) -> Seq<Token> {
        self.buf@
    }

    /// The strict-mode flag of the current scope.
    pub closed spec fn strict_mode(self) -> bool {
        self.strict
    }

    /// The current scanner goal symbol.
    pub closed spec fn goal_sym(self) -> InputElement {
        self.goal
    }

    /// Linear position just past the last consumed token.
    pub closed spec fn linear_end(self) -> u64 {
        self.last_linear_end
    }

    /// The line/column bookkeeping stays within the scanned prefix.
    pub closed spec fn lines_ok(self) -> bool {
        &&& 1 <= self.line as int <= self.pos as int + 1
        &&& 1 <= self.col as int <= self.pos as int + 1
    }

    /// Cursor invariant: the scan position stays within the source, the
    /// source is small enough for 32-bit positions, and the line/column
    /// bookkeeping agrees with the scanned prefix.
    pub open spec fn wf(self) -> bool {
        &&& 0 <= self.lex_pos() <= self.src_view().len()
        &&& self.src_view().len() + 2 < 0x1_0000_0000
        &&& self.lines_ok()
    }

    /// Unconsumed work: unscanned bytes plus buffered tokens. Strictly
    /// decreases when a token is consumed and never increases otherwise.
    pub open spec fn remaining(self) -> int {
        self.src_view().len() - self.lex_pos() + self.lookahead().len()
    }

    /// Creates a cursor over the given source bytes. Scanning starts
    /// non-strict with the regular-expression goal.
    pub fn new(src: Vec<u8>) -> (r: Cursor)
        requires
            src@.len() + 2 < 0x1_0000_0000,
        ensures
            r.wf(),
            r.src_view() == src@,
            r.lookahead().len() == 0,
            r.strict_mode() == false,
            r.remaining() == src@.len(),
            r.lex_pos() == 0,
    {
        Cursor {
            src,
            pos: 0,
            line: 1,
            col: 1,
            buf: Vec::new(),
            strict: false,
            goal: InputElement::RegExp,
            last_linear_end: 0,
        }
    }

    /// The strict-mode flag.
    pub fn strict(&self) -> (r: bool)
        ensures
            r == self.strict_mode(),
    {
        self.strict
    }

    /// Sets the strict-mode flag for the remainder of the current scope.
    pub fn set_strict(&mut self, strict: bool)
        requires
            old(self).wf(),
        ensures
            final(self).wf(),
            final(self).strict_mode() == strict,
            final(self).src_view() == old(self).src_view(),
            final(self).lex_pos() == old(self).lex_pos(),
            final(self).lookahead() == old(self).lookahead(),
            final(self).goal_sym() == old(self).goal_sym(),
            final(self).linear_end() == old(self).linear_end(),
    {
        self.strict = strict;
    }

    /// Sets the scanner goal symbol. Takes effect for every byte not yet
    /// scanned, so it must be called before the ambiguous token is first
    /// peeked.
    pub fn set_goal(&mut self, goal: InputElement)
        requires
            old(self).wf(),
        ensures
            final(self).wf(),
            final(self).goal_sym() == goal,
            final(self).src_view() == old(self).src_view(),
            final(self).lex_pos() == old(self).lex_pos(),
            final(self).lookahead() == old(self).lookahead(),
            final(self).strict_mode() == old(self).strict_mode(),
            final(self).linear_end() == old(self).linear_end(),
    {
        self.goal = goal;
    }

    /// Linear position just past the last consumed token.
    pub fn linear_pos_end(&self) -> (r: LinearPosition)
        ensures
            r.pos == self.linear_end(),
    {
        LinearPosition::new(self.last_linear_end)
    }

    /// The line/column position the scanner has reached, as a
    /// specification value.
    pub closed spec fn scan_point(self) -> Position {
        Position { line: self.line, column: self.col }
    }

    /// The line/column position the scanner has reached; used to anchor
    /// end-of-input errors.
    pub fn scan_position(&self) -> (r: Position)
        ensures
            r == self.scan_point(),
    {
        Position::new(self.line, self.col)
    }

    /// Scans one more token into the lookahead buffer. Returns `false` at
    /// end of input.
    fn fill_one(&mut self, interner: &mut Interner) -> (r: Result<bool, Error>)
        requires
            old(self).wf(),
            old(interner).wf(),
        ensures
            final(self).wf(),
            final(interner).wf(),
            interner_extends(*old(interner), *final(interner)),
            final(self).src_view() == old(self).src_view(),
            final(self).strict_mode() == old(self).strict_mode(),
            final(self).goal_sym() == old(self).goal_sym(),
            final(self).linear_end() == old(self).linear_end(),
            final(self).remaining() <= old(self).remaining(),
            old(self).lookahead().is_prefix_of(final(self).lookahead()),
            r matches Ok(true) ==> final(self).lookahead().len() == old(self).lookahead().len()
                + 1,
            r matches Ok(false) ==> final(self).lookahead() == old(self).lookahead()
                && final(self).lex_pos() == final(self).src_view().len(),
            r is Err ==> final(self).lookahead() == old(self).lookahead(),
            old(self).lex_pos() == old(self).src_view().len() ==> (r matches Ok(b) && b
                == false),
            (old(self).lex_pos() < old(self).src_view().len() && old(self).src_view()[old(
                self,
            ).lex_pos()] == 59) ==> (r matches Ok(b) && b == true && final(self).lookahead().len()
                == old(self).lookahead().len() + 1 && final(self).lookahead().last().kind
                == TokenKind::Punctuator(Punctuator::Semicolon) && final(self).lex_pos() == old(
                self,
            ).lex_pos() + 1),
    {
        let len = self.src.len();
        let sp0 = ScanPoint { p: self.pos, line: self.line, col: self.col };
        let (sp, lt) = match skip_trivia(&self.src, sp0) {
            Ok(x) => x,
            Err(e) => {
                return Err(e);
            },
        };
        if sp.p >= len {
            // commit the consumed trivia; the caller observes end of input
            self.pos = sp.p;
            self.line = sp.line;
            self.col = sp.col;
            return Ok(false);
        }
        let b = self.src[sp.p];
        let start_line = sp.line;
        let start_col = sp.col;
        let start_p = sp.p;
        let (sp2, kind): (ScanPoint, TokenKind) = if is_ident_start(b) {
            let (spw, word) = scan_word(&self.src, sp);
            match classify_word(&word) {
                Some(k) => (spw, k),
                None => {
                    let sym = interner.get_or_intern(&word);
                    (spw, TokenKind::IdentifierName(sym))
                },
            }
        } else if b >= 48 && b <= 57 {
            match scan_number(&self.src, sp) {
                Ok((spn, v)) => (spn, TokenKind::NumericLiteral(v)),
                Err(e) => {
                    return Err(e);
                },
            }
        } else if b == 34 || b == 39 {
            match scan_string(&self.src, sp, b) {
                Ok((sps, cooked)) => {
                    let sym = interner.get_or_intern(&cooked);
                    (sps, TokenKind::StringLiteral(sym))
                },
                Err(e) => {
                    return Err(e);
                },
            }
        } else if b == 96 {
            let inner = ScanPoint { p: sp.p + 1, line: sp.line, col: sp.col + 1 };
            match scan_template_chunk(&self.src, inner) {
                Ok((spt, cooked, closed)) => {
                    let sym = interner.get_or_intern(&cooked);
                    if closed {
                        (spt, TokenKind::TemplateNoSubstitution(sym))
                    } else {
                        (spt, TokenKind::TemplateHead(sym))
                    }
                },
                Err(e) => {
                    return Err(e);
                },
            }
        } else if b == 47 && self.goal == InputElement::RegExp {
            match scan_regex(&self.src, sp) {
                Ok((spr, body, flags)) => {
                    let body_sym = interner.get_or_intern(&body);
                    let flags_sym = interner.get_or_intern(&flags);
                    (spr, TokenKind::RegularExpressionLiteral(body_sym, flags_sym))
                },
                Err(e) => {
                    return Err(e);
                },
            }
        } else {
            match scan_punct(&self.src, sp) {
                Some((spp, q)) => (spp, TokenKind::Punctuator(q)),
                None => {
                    return Err(Error::token_error(
                        Position::new(sp.line, sp.col),
                        "unexpected character",
                    ));
                },
            }
        };
        let token = Token {
            kind,
            span: Span::new(
                Position::new(start_line, start_col),
                Position::new(sp2.line, sp2.col),
            ),
            linear: LinearSpan::new(
                LinearPosition::new(start_p as u64),
                LinearPosition::new(sp2.p as u64),
            ),
            lt_before: lt,
        };
        self.pos = sp2.p;
        self.line = sp2.line;
        self.col = sp2.col;
        self.buf.push(token);
        Ok(true)
    }

    /// Consumes the front token of the lookahead buffer, which must have
    /// been peeked already.
    pub fn advance(&mut self)
        requires
            old(self).wf(),
            old(self).lookahead().len() > 0,
        ensures
            final(self).wf(),
            final(self).src_view() == old(self).src_view(),
            final(self).lex_pos() == old(self).lex_pos(),
            final(self).strict_mode() == old(self).strict_mode(),
            final(self).goal_sym() == old(self).goal_sym(),
            final(self).lookahead() == old(self).lookahead().skip(1),
            final(self).remaining() < old(self).remaining(),
            final(self).linear_end() == old(self).lookahead()[0].linear.end.pos,
    {
        let t = self.buf.remove(0);
        self.last_linear_end = t.linear.end.pos;
        proof {
            assert(self.buf@ =~= old(self).buf@.skip(1));
        }
    }

    /// Looks at the token `skip_n` places ahead without consuming anything.
    /// `Ok(None)` means end of input lies closer than that.
    pub fn peek(&mut self, skip_n: usize, interner: &mut Interner) -> (r: Result<
        Option<Token>,
        Error,
    >)
        requires
            old(self).wf(),
            old(interner).wf(),
        ensures
            final(self).wf(),
            final(interner).wf(),
            interner_extends(*old(interner), *final(interner)),
            final(self).src_view() == old(self).src_view(),
            final(self).strict_mode() == old(self).strict_mode(),
            final(self).goal_sym() == old(self).goal_sym(),
            final(self).linear_end() == old(self).linear_end(),
            final(self).remaining() <= old(self).remaining(),
            old(self).lookahead().is_prefix_of(final(self).lookahead()),
            old(self).lookahead().len() > skip_n ==> *final(self) == *old(self) && (r matches Ok(
                Some(t),
            ) && t == old(self).lookahead()[skip_n as int]),
            (old(self).lookahead().len() == 0 && old(self).lex_pos() == old(
                self,
            ).src_view().len()) ==> (r matches Ok(x) && x is None),
            r matches Ok(Some(t)) ==> skip_n < final(self).lookahead().len() && t
                == final(self).lookahead()[skip_n as int],
            r matches Ok(None) ==> final(self).lookahead().len() <= skip_n
                && final(self).lex_pos() == final(self).src_view().len(),
            (skip_n == 0 && old(self).lookahead().len() == 0 && old(self).lex_pos() < old(
                self,
            ).src_view().len() && old(self).src_view()[old(self).lex_pos()] == 59) ==> (r matches
                Ok(Some(t)) && t.kind == TokenKind::Punctuator(Punctuator::Semicolon)
                && final(self).lookahead() == seq![t] && final(self).lex_pos() == old(
                self,
            ).lex_pos() + 1),
    {
        loop
            invariant
                self.wf(),
                interner.wf(),
                interner_extends(*old(interner), *interner),
                self.src_view() == old(self).src_view(),
                self.strict_mode() == old(self).strict_mode(),
                self.goal_sym() == old(self).goal_sym(),
                self.linear_end() == old(self).linear_end(),
                self.remaining() <= old(self).remaining(),
                old(self).lookahead().is_prefix_of(self.lookahead()),
                old(self).lookahead().len() > skip_n ==> *self == *old(self),
                (skip_n == 0 && old(self).lookahead().len() == 0 && old(self).lex_pos() < old(
                    self,
                ).src_view().len() && old(self).src_view()[old(self).lex_pos()] == 59) ==> ((
                self.lookahead() == old(self).lookahead() && self.lex_pos() == old(self).lex_pos())
                    || (self.lookahead().len() == 1 && self.lookahead()[0].kind
                    == TokenKind::Punctuator(Punctuator::Semicolon) && self.lex_pos() == old(
                    self,
                ).lex_pos() + 1)),
            decreases self.src_view().len() - self.lex_pos() + (skip_n + 1 - self.lookahead().len()),
        {
            if self.buf.len() > skip_n {
                return Ok(Some(self.buf[skip_n]));
            }
            match self.fill_one(interner) {
                Ok(true) => {},
                Ok(false) => {
                    return Ok(None);
                },
                Err(e) => {
                    return Err(e);
                },
            }
        }
    }

    /// Consumes and returns the next token; `Ok(None)` at end of input.
    pub fn next(&mut self, interner: &mut Interner) -> (r: Result<Option<Token>, Error>)
        requires
            old(self).wf(),
            old(interner).wf(),
        ensures
            final(self).wf(),
            final(interner).wf(),
            interner_extends(*old(interner), *final(interner)),
            final(self).src_view() == old(self).src_view(),
            final(self).strict_mode() == old(self).strict_mode(),
            final(self).goal_sym() == old(self).goal_sym(),
            final(self).remaining() <= old(self).remaining(),
            r matches Ok(Some(t)) ==> final(self).remaining() < old(self).remaining(),
            r matches Ok(Some(t)) ==> final(self).linear_end() == t.linear.end.pos,
            old(self).lookahead().len() > 0 ==> (r matches Ok(Some(t)) && t == old(self).lookahead()[0] && final(self).lookahead() == old(self).lookahead().skip(1)),
            r matches Ok(None) ==> final(self).lookahead().len() == 0,
    {
        if self.buf.len() == 0 {
            match self.fill_one(interner) {
                Ok(true) => {},
                Ok(false) => {
                    return Ok(None);
                },
                Err(e) => {
                    return Err(e);
                },
            }
        }
        let t = self.buf.remove(0);
        self.last_linear_end = t.linear.end.pos;
        Ok(Some(t))
    }

    /// Continues scanning a template literal after a substitution. The
    /// buffered token at the front must be the `}` that closed the
    /// substitution, scanned before the template goal could apply;
    /// scanning restarts right after it and yields the middle or tail
    /// chunk, so the lookahead buffer must hold nothing else.
    pub fn continue_template(&mut self, interner: &mut Interner) -> (r: Result<Token, Error>)
        requires
            old(self).wf(),
            old(interner).wf(),
            old(self).lookahead().len() > 0,
            old(self).lookahead()[0].kind == TokenKind::Punctuator(Punctuator::CloseBlock),
        ensures
            final(self).wf(),
            final(interner).wf(),
            interner_extends(*old(interner), *final(interner)),
            final(self).src_view() == old(self).src_view(),
            final(self).strict_mode() == old(self).strict_mode(),
            final(self).goal_sym() == old(self).goal_sym(),
            final(self).remaining() <= old(self).remaining(),
            r matches Ok(t) ==> final(self).remaining() < old(self).remaining(),
            r matches Ok(t) ==> ((t.kind is TemplateMiddle) || (t.kind is TemplateTail)),
            ({
                let b = old(self).lookahead()[0];
                &&& old(self).lookahead().len() == 1
                &&& b.kind == TokenKind::Punctuator(Punctuator::CloseBlock)
                &&& b.linear.end.pos as int == old(self).lex_pos()
                &&& b.linear.start.pos < b.linear.end.pos
                &&& b.linear.end.pos as int - b.linear.start.pos as int == 1
                &&& 1 <= b.span.start.line
                &&& b.span.start.line as int <= b.linear.start.pos as int + 1
                &&& 1 <= b.span.start.column
                &&& b.span.start.column as int <= b.linear.start.pos as int + 1
                &&& b.linear.start.pos as int + 1 < old(self).src_view().len()
                &&& old(self).src_view()[b.linear.start.pos as int + 1] == 96
            }) ==> (r matches Ok(t) && (t.kind is TemplateTail)),
    {
        let brace = self.buf[0];
        // the continuation is scanned from the bytes right after the
        // brace, so nothing else may sit in the lookahead buffer and the
        // scanner must stand directly behind the brace
        if self.buf.len() != 1 {
            return Err(Error::token_error(
                brace.span.start,
                "template substitution scanned past its closing brace",
            ));
        }
        let start_lin = brace.linear.start.pos;
        let end_lin = brace.linear.end.pos;
        let src_len = self.src.len();
        if !(end_lin == self.pos as u64 && start_lin < end_lin && end_lin - start_lin == 1
            && end_lin <= src_len as u64) {
            return Err(Error::token_error(
                brace.span.start,
                "template substitution scanned past its closing brace",
            ));
        }
        let line = brace.span.start.line;
        let col = brace.span.start.column;
        let start_p = start_lin as usize;
        if !(1 <= line && line as usize <= start_p + 1 && 1 <= col && col as usize <= start_p
            + 1) {
            return Err(Error::token_error(
                brace.span.start,
                "template substitution scanned past its closing brace",
            ));
        }
        // rewind to the brace and rescan it as template text
        self.buf.clear();
        self.pos = start_p;
        self.line = line;
        self.col = col;
        let inner = ScanPoint { p: start_p + 1, line, col: col + 1 };
        let (spt, cooked, closed) = match scan_template_chunk(&self.src, inner) {
            Ok(x) => x,
            Err(e) => {
                return Err(e);
            },
        };
        let sym = interner.get_or_intern(&cooked);
        let kind = if closed {
            TokenKind::TemplateTail(sym)
        } else {
            TokenKind::TemplateMiddle(sym)
        };
        let token = Token {
            kind,
            span: Span::new(Position::new(line, col), Position::new(spt.line, spt.col)),
            linear: LinearSpan::new(
                LinearPosition::new(start_p as u64),
                LinearPosition::new(spt.p as u64),
            ),
            lt_before: false,
        };
        self.pos = spt.p;
        self.line = spt.line;
        self.col = spt.col;
        self.last_linear_end = token.linear.end.pos;
        Ok(token)
    }

    /// Consumes the next token, which must exist and have exactly the given
    /// punctuator kind; otherwise reports an unexpected-token or
    /// end-of-input error naming `context` and consumes nothing.
    pub fn expect_punct(&mut self, p: Punctuator, context: &'static str, interner: &mut Interner)
        -> (r: Result<Token, Error>)
        requires
            old(self).wf(),
            old(interner).wf(),
        ensures
            final(self).wf(),
            final(interner).wf(),
            interner_extends(*old(interner), *final(interner)),
            final(self).src_view() == old(self).src_view(),
            final(self).strict_mode() == old(self).strict_mode(),
            final(self).goal_sym() == old(self).goal_sym(),
            final(self).remaining() <= old(self).remaining(),
            r matches Ok(t) ==> t.kind == TokenKind::Punctuator(p) && final(self).remaining()
                < old(self).remaining(),
            old(self).lookahead().len() > 0 ==> ((r is Ok) <==> old(self).lookahead()[0].kind
                == TokenKind::Punctuator(p)),
            old(self).lookahead().len() > 0 && r is Ok ==> final(self).lookahead() == old(
                self,
            ).lookahead().skip(1) && (r matches Ok(t) && t == old(self).lookahead()[0]),
            (old(self).lookahead().len() > 0 && old(self).lookahead()[0].kind
                != TokenKind::Punctuator(p)) ==> (r matches Err(e) && e.kind
                == crate::error::ErrorKind::UnexpectedToken && e.position == old(
                self,
            ).lookahead()[0].span.start && e.context == context),
    {
        let t = match self.peek(0, interner) {
            Ok(Some(t)) => t,
            Ok(None) => {
                return Err(Error::abrupt_end(self.scan_position(), context));
            },
            Err(e) => {
                return Err(e);
            },
        };
        if t.kind == TokenKind::Punctuator(p) {
            match self.next(interner) {
                Ok(Some(t2)) => Ok(t2),
                _ => {
                    // the peeked token is buffered, so it is returned
                    assert(false);
                    Err(Error::abrupt_end(self.scan_position(), context))
                },
            }
        } else {
            Err(Error::unexpected(t.span.start, context))
        }
    }

    /// Consumes the next token, which must exist and be exactly the given
    /// keyword; otherwise reports an error naming `context` and consumes
    /// nothing.
    pub fn expect_keyword(&mut self, k: Keyword, context: &'static str, interner: &mut Interner)
        -> (r: Result<Token, Error>)
        requires
            old(self).wf(),
            old(interner).wf(),
        ensures
            final(self).wf(),
            final(interner).wf(),
            interner_extends(*old(interner), *final(interner)),
            final(self).src_view() == old(self).src_view(),
            final(self).strict_mode() == old(self).strict_mode(),
            final(self).goal_sym() == old(self).goal_sym(),
            final(self).remaining() <= old(self).remaining(),
            r matches Ok(t) ==> t.kind == TokenKind::Keyword(k) && final(self).remaining() < old(self).remaining(),
            old(self).lookahead().len() > 0 ==> ((r is Ok) <==> old(self).lookahead()[0].kind
                == TokenKind::Keyword(k)),
            old(self).lookahead().len() > 0 && r is Ok ==> final(self).lookahead() == old(
                self,
            ).lookahead().skip(1) && (r matches Ok(t) && t == old(self).lookahead()[0]),
            (old(self).lookahead().len() > 0 && old(self).lookahead()[0].kind
                != TokenKind::Keyword(k)) ==> (r matches Err(e) && e.kind
                == crate::error::ErrorKind::UnexpectedToken && e.position == old(
                self,
            ).lookahead()[0].span.start && e.context == context),
    {
        let t = match self.peek(0, interner) {
            Ok(Some(t)) => t,
            Ok(None) => {
                return Err(Error::abrupt_end(self.scan_position(), context));
            },
            Err(e) => {
                return Err(e);
            },
        };
        if t.kind == TokenKind::Keyword(k) {
            match self.next(interner) {
                Ok(Some(t2)) => Ok(t2),
                _ => {
                    assert(false);
                    Err(Error::abrupt_end(self.scan_position(), context))
                },
            }
        } else {
            Err(Error::unexpected(t.span.start, context))
        }
    }
}

} // verus!
