//! The lexical scanner: source text to token stream.
//!
//! `scan_from` is the mathematical scanner: it says, for every position
//! and line counter, exactly which tokens the rest of the source denotes,
//! or which scanning error it raises. The executable scanner is proved to
//! return exactly that.
use vstd::prelude::*;
use vstd::string::StringExecFns;
use crate::error_handler::ScannerError;
use crate::text::{chars_vec, string_of_chars};
use crate::tokens::{Token, TokenModel, TokenType, tokens_model};

verus! {

pub open spec fn is_digit_char(c: char) -> bool {
    48 <= c as u32 <= 57
}

pub open spec fn is_alpha_char(c: char) -> bool {
    (97 <= c as u32 <= 122) || (65 <= c as u32 <= 90) || c == '_'
}

pub open spec fn is_alnum_char(c: char) -> bool {
    is_alpha_char(c) || is_digit_char(c)
}

/// The next line counter value; it sticks at the machine bound rather
/// than overflow.
pub open spec fn bump(line: nat) -> nat {
    if line < usize::MAX as nat {
        line + 1
    } else {
        line
    }
}

/// Position of the first non-digit at or after `j`.
pub open spec fn digits_end(src: Seq<char>, j: int) -> int
    decreases src.len() - j,
{
    if 0 <= j < src.len() && is_digit_char(src[j]) {
        digits_end(src, j + 1)
    } else {
        j
    }
}

/// Position of the first non-identifier character at or after `j`.
pub open spec fn ident_end(src: Seq<char>, j: int) -> int
    decreases src.len() - j,
{
    if 0 <= j < src.len() && is_alnum_char(src[j]) {
        ident_end(src, j + 1)
    } else {
        j
    }
}

/// Position of the newline ending a line comment, or the end of the
/// source.
pub open spec fn comment_end(src: Seq<char>, j: int) -> int
    decreases src.len() - j,
{
    if 0 <= j < src.len() && src[j] != '\n' {
        comment_end(src, j + 1)
    } else {
        j
    }
}

/// Walks a string literal from `j`: the position of the closing quote
/// (or the end of the source when unterminated) and the line counter
/// after the newlines the literal spans.
pub open spec fn string_end(src: Seq<char>, j: int, line: nat) -> (int, nat)
    decreases src.len() - j,
{
    if 0 <= j < src.len() && src[j] != '"' {
        string_end(src, j + 1, if src[j] == '\n' {
            bump(line)
        } else {
            line
        })
    } else {
        (j, line)
    }
}

/// The token category an identifier lexeme denotes: a reserved keyword's
/// category, or `Ident`.
pub open spec fn keyword_type(s: Seq<char>) -> TokenType {
    if s == "and"@ {
        TokenType::And
    } else if s == "class"@ {
        TokenType::Class
    } else if s == "else"@ {
        TokenType::Else
    } else if s == "false"@ {
        TokenType::False
    } else if s == "for"@ {
        TokenType::For
    } else if s == "fun"@ {
        TokenType::Fun
    } else if s == "if"@ {
        TokenType::If
    } else if s == "nil"@ {
        TokenType::Nil
    } else if s == "or"@ {
        TokenType::Or
    } else if s == "print"@ {
        TokenType::Print
    } else if s == "return"@ {
        TokenType::Return
    } else if s == "super"@ {
        TokenType::Super
    } else if s == "this"@ {
        TokenType::This
    } else if s == "true"@ {
        TokenType::True
    } else if s == "var"@ {
        TokenType::Var
    } else if s == "while"@ {
        TokenType::While
    } else {
        TokenType::Ident
    }
}

/// What one scanning step at a position produces.
pub ghost enum ScanStep {
    /// A token, the position after it and the line counter after it.
    Tok { t: TokenModel, next: int, line: nat },
    /// Nothing (whitespace or a comment); position and line move on.
    Skip { next: int, line: nat },
    Fail { e: ScannerError },
}

pub open spec fn simple_token(
    ty: TokenType,
    src: Seq<char>,
    i: int,
    end: int,
    line: nat,
) -> ScanStep {
    ScanStep::Tok {
        t: TokenModel { ty, lexeme: src.subrange(i, end), literal: None, line },
        next: end,
        line,
    }
}

/// One scanning step at position `i` (which must hold a character).
pub open spec fn scan_step(src: Seq<char>, i: int, line: nat) -> ScanStep {
    let c = src[i];
    if c == '(' {
        simple_token(TokenType::LeftParen, src, i, i + 1, line)
    } else if c == ')' {
        simple_token(TokenType::RightParen, src, i, i + 1, line)
    } else if c == '{' {
        simple_token(TokenType::LeftBrace, src, i, i + 1, line)
    } else if c == '}' {
        simple_token(TokenType::RightBrace, src, i, i + 1, line)
    } else if c == ',' {
        simple_token(TokenType::Comma, src, i, i + 1, line)
    } else if c == '.' {
        simple_token(TokenType::Dot, src, i, i + 1, line)
    } else if c == '-' {
        simple_token(TokenType::Minus, src, i, i + 1, line)
    } else if c == '+' {
        simple_token(TokenType::Plus, src, i, i + 1, line)
    } else if c == ';' {
        simple_token(TokenType::Semicolon, src, i, i + 1, line)
    } else if c == '*' {
        simple_token(TokenType::Star, src, i, i + 1, line)
    } else if c == '!' {
        if i + 1 < src.len() && src[i + 1] == '=' {
            simple_token(TokenType::BangEqual, src, i, i + 2, line)
        } else {
            simple_token(TokenType::Bang, src, i, i + 1, line)
        }
    } else if c == '=' {
        if i + 1 < src.len() && src[i + 1] == '=' {
            simple_token(TokenType::EqualEqual, src, i, i + 2, line)
        } else {
            simple_token(TokenType::Equal, src, i, i + 1, line)
        }
    } else if c == '<' {
        if i + 1 < src.len() && src[i + 1] == '=' {
            simple_token(TokenType::LessEqual, src, i, i + 2, line)
        } else {
            simple_token(TokenType::Less, src, i, i + 1, line)
        }
    } else if c == '>' {
        if i + 1 < src.len() && src[i + 1] == '=' {
            simple_token(TokenType::GreaterEqual, src, i, i + 2, line)
        } else {
            simple_token(TokenType::Greater, src, i, i + 1, line)
        }
    } else if c == '/' {
        if i + 1 < src.len() && src[i + 1] == '/' {
            ScanStep::Skip { next: comment_end(src, i + 2), line }
        } else {
            simple_token(TokenType::Slash, src, i, i + 1, line)
        }
    } else if c == '"' {
        let (q, line2) = string_end(src, i + 1, line);
        if q >= src.len() {
            ScanStep::Fail { e: ScannerError::UnterminatedString { line: line2 as usize } }
        } else {
            ScanStep::Tok {
                t: TokenModel {
                    ty: TokenType::StringLit,
                    lexeme: src.subrange(i, q + 1),
                    literal: Some(src.subrange(i + 1, q)),
                    line: line2,
                },
                next: q + 1,
                line: line2,
            }
        }
    } else if c == ' ' || c == '\r' || c == '\t' {
        ScanStep::Skip { next: i + 1, line }
    } else if c == '\n' {
        ScanStep::Skip { next: i + 1, line: bump(line) }
    } else if is_digit_char(c) {
        let d = digits_end(src, i + 1);
        let end = if d < src.len() && src[d] == '.' && d + 1 < src.len() && is_digit_char(
            src[d + 1],
        ) {
            digits_end(src, d + 1)
        } else {
            d
        };
        ScanStep::Tok {
            t: TokenModel {
                ty: TokenType::NumberLit,
                lexeme: src.subrange(i, end),
                literal: Some(src.subrange(i, end)),
                line,
            },
            next: end,
            line,
        }
    } else if is_alpha_char(c) {
        let end = ident_end(src, i + 1);
        simple_token(keyword_type(src.subrange(i, end)), src, i, end, line)
    } else {
        ScanStep::Fail { e: ScannerError::UnexpectedCharacter { line: line as usize, ch: c } }
    }
}

/// The position scanning continues at, clamped so that scanning always
/// advances and stays within the source; every step moves past at least
/// one character, so the clamp never moves a real result.
pub open spec fn scan_next(src: Seq<char>, next: int, i: int) -> int {
    let lo = if next > i {
        next
    } else {
        i + 1
    };
    if lo > src.len() {
        src.len() as int
    } else {
        lo
    }
}

/// The tokens the source denotes from position `i` on (ending with the
/// `Eof` token), or the first scanning error.
pub open spec fn scan_from(src: Seq<char>, i: int, line: nat) -> Result<
    Seq<TokenModel>,
    ScannerError,
>
    decreases src.len() - i,
{
    if !(0 <= i < src.len()) {
        Ok(
            seq![
                TokenModel { ty: TokenType::Eof, lexeme: Seq::empty(), literal: None, line },
            ],
        )
    } else {
        match scan_step(src, i, line) {
            ScanStep::Tok { t, next, line: line2 } => {
                let j = scan_next(src, next, i);
                match scan_from(src, j, line2) {
                    Ok(rest) => Ok(seq![t] + rest),
                    Err(e) => Err(e),
                }
            },
            ScanStep::Skip { next, line: line2 } => {
                let j = scan_next(src, next, i);
                scan_from(src, j, line2)
            },
            ScanStep::Fail { e } => Err(e),
        }
    }
}

/// The full mathematical scanner: tokens of the whole source, first line
/// numbered 1.
pub open spec fn scan(src: Seq<char>) -> Result<Seq<TokenModel>, ScannerError> {
    scan_from(src, 0, 1)
}

/// The scanner: consumes the source left to right, producing one token
/// per lexeme, skipping whitespace and `//` comments, and tracking the
/// 1-based line.
pub struct Scanner {
    pub source: Vec<char>,
    pub current: usize,
    pub line: usize,
    pub tokens: Vec<Token>,
}

impl Scanner {
    pub fn build(source: String) -> (s: Scanner)
        ensures
            s.source@ == source@,
            s.current == 0,
            s.line == 1,
            s.tokens@ == Seq::<Token>::empty(),
    {
        let chars = chars_vec(source.as_str());
        Scanner { source: chars, current: 0, line: 1, tokens: Vec::new() }
    }

    pub fn is_end(&self) -> (r: bool)
        ensures
            r == (self.current >= self.source@.len()),
    {
        self.current >= self.source.len()
    }

    pub fn is_digit(c: char) -> (r: bool)
        ensures
            r == is_digit_char(c),
    {
        let u = c as u32;
        48 <= u && u <= 57
    }

    pub fn is_alpha(c: char) -> (r: bool)
        ensures
            r == is_alpha_char(c),
    {
        let u = c as u32;
        (97 <= u && u <= 122) || (65 <= u && u <= 90) || c == '_'
    }

    pub fn is_alpha_numeric(c: char) -> (r: bool)
        ensures
            r == is_alnum_char(c),
    {
        Self::is_alpha(c) || Self::is_digit(c)
    }

    /// The text of the source characters in `[a, b)`.
    fn substring(&self, a: usize, b: usize) -> (r: String)
        requires
            a <= b <= self.source@.len(),
        ensures
            r@ == self.source@.subrange(a as int, b as int),
    {
        let mut chars: Vec<char> = Vec::new();
        let mut k = a;
        while k < b
            invariant
                a <= k <= b <= self.source@.len(),
                chars@ =~= self.source@.subrange(a as int, k as int),
            decreases b - k,
        {
            chars.push(self.source[k]);
            proof {
                assert(chars@ =~= self.source@.subrange(a as int, k + 1));
            }
            k = k + 1;
        }
        string_of_chars(&chars)
    }

    /// The token category of an identifier lexeme.
    fn keyword_of(lexeme: &String) -> (t: TokenType)
        ensures
            t == keyword_type(lexeme@),
    {
        if lexeme.eq(&String::from_str("and")) {
            TokenType::And
        } else if lexeme.eq(&String::from_str("class")) {
            TokenType::Class
        } else if lexeme.eq(&String::from_str("else")) {
            TokenType::Else
        } else if lexeme.eq(&String::from_str("false")) {
            TokenType::False
        } else if lexeme.eq(&String::from_str("for")) {
            TokenType::For
        } else if lexeme.eq(&String::from_str("fun")) {
            TokenType::Fun
        } else if lexeme.eq(&String::from_str("if")) {
            TokenType::If
        } else if lexeme.eq(&String::from_str("nil")) {
            TokenType::Nil
        } else if lexeme.eq(&String::from_str("or")) {
            TokenType::Or
        } else if lexeme.eq(&String::from_str("print")) {
            TokenType::Print
        } else if lexeme.eq(&String::from_str("return")) {
            TokenType::Return
        } else if lexeme.eq(&String::from_str("super")) {
            TokenType::Super
        } else if lexeme.eq(&String::from_str("this")) {
            TokenType::This
        } else if lexeme.eq(&String::from_str("true")) {
            TokenType::True
        } else if lexeme.eq(&String::from_str("var")) {
            TokenType::Var
        } else if lexeme.eq(&String::from_str("while")) {
            TokenType::While
        } else {
            TokenType::Ident
        }
    }

    /// Pushes the token for the lexeme `[start, self.current)` with no
    /// literal payload.
    fn add_token(&mut self, ty: TokenType, start: usize)
        requires
            start <= old(self).current <= old(self).source@.len(),
        ensures
            final(self).source@ == old(self).source@,
            final(self).current == old(self).current,
            final(self).line == old(self).line,
            final(self).tokens@.len() == old(self).tokens@.len() + 1,
            final(self).tokens@.drop_last() == old(self).tokens@,
            final(self).tokens@.last()@ == (TokenModel {
                ty,
                lexeme: old(self).source@.subrange(start as int, old(self).current as int),
                literal: None,
                line: old(self).line as nat,
            }),
    {
        let lexeme = self.substring(start, self.current);
        let t = Token::new(ty, lexeme, None, self.line);
        self.tokens.push(t);
        proof {
            assert(final(self).tokens@.drop_last() =~= old(self).tokens@);
        }
    }

    /// Pushes the token for the lexeme `[start, self.current)` carrying
    /// the literal payload `[lit_a, lit_b)`.
    fn add_token_val(&mut self, ty: TokenType, start: usize, lit_a: usize, lit_b: usize)
        requires
            start <= old(self).current <= old(self).source@.len(),
            lit_a <= lit_b <= old(self).source@.len(),
        ensures
            final(self).source@ == old(self).source@,
            final(self).current == old(self).current,
            final(self).line == old(self).line,
            final(self).tokens@.len() == old(self).tokens@.len() + 1,
            final(self).tokens@.drop_last() == old(self).tokens@,
            final(self).tokens@.last()@ == (TokenModel {
                ty,
                lexeme: old(self).source@.subrange(start as int, old(self).current as int),
                literal: Some(old(self).source@.subrange(lit_a as int, lit_b as int)),
                line: old(self).line as nat,
            }),
    {
        let lexeme = self.substring(start, self.current);
        let lit = self.substring(lit_a, lit_b);
        let t = Token::new(ty, lexeme, Some(lit), self.line);
        self.tokens.push(t);
        proof {
            assert(final(self).tokens@.drop_last() =~= old(self).tokens@);
        }
    }

    /// Consumes the character at `current` when it equals `expected`.
    fn match_char(&mut self, expected: char) -> (r: bool)
        ensures
            final(self).source@ == old(self).source@,
            final(self).line == old(self).line,
            final(self).tokens@ == old(self).tokens@,
            r == (old(self).current < old(self).source@.len() && old(self).source@[old(
                self,
            ).current as int] == expected),
            final(self).current as int == if r {
                old(self).current + 1
            } else {
                old(self).current as int
            },
    {
        if self.current < self.source.len() && self.source[self.current] == expected {
            self.current = self.current + 1;
            true
        } else {
            false
        }
    }

    fn bump_line(&mut self)
        ensures
            final(self).source@ == old(self).source@,
            final(self).current == old(self).current,
            final(self).tokens@ == old(self).tokens@,
            final(self).line as nat == bump(old(self).line as nat),
    {
        if self.line < usize::MAX {
            self.line = self.line + 1;
        }
    }

    /// Scans one lexeme at `current`: pushes at most one token and moves
    /// `current` past the lexeme, exactly as `scan_step` says.
    pub fn scan_token(&mut self) -> (r: Result<(), ScannerError>)
        requires
            old(self).current < old(self).source@.len(),
        ensures
            final(self).source@ == old(self).source@,
            match scan_step(old(self).source@, old(self).current as int, old(self).line as nat) {
                ScanStep::Tok { t, next, line } => {
                    &&& r is Ok
                    &&& final(self).tokens@.len() == old(self).tokens@.len() + 1
                    &&& final(self).tokens@.drop_last() == old(self).tokens@
                    &&& final(self).tokens@.last()@ == t
                    &&& final(self).current as int == next
                    &&& final(self).line as nat == line
                    &&& next > old(self).current as int
                    &&& next <= old(self).source@.len()
                },
                ScanStep::Skip { next, line } => {
                    &&& r is Ok
                    &&& final(self).tokens@ == old(self).tokens@
                    &&& final(self).current as int == next
                    &&& final(self).line as nat == line
                    &&& next > old(self).current as int
                    &&& next <= old(self).source@.len()
                },
                ScanStep::Fail { e } => r == Err::<(), ScannerError>(e) && final(self).tokens@
                    == old(self).tokens@,
            },
    {
        let ghost src = self.source@;
        let n = self.source.len();
        let start = self.current;
        let c = self.source[self.current];
        self.current = self.current + 1;
        match c {
            '(' => self.add_token(TokenType::LeftParen, start),
            ')' => self.add_token(TokenType::RightParen, start),
            '{' => self.add_token(TokenType::LeftBrace, start),
            '}' => self.add_token(TokenType::RightBrace, start),
            ',' => self.add_token(TokenType::Comma, start),
            '.' => self.add_token(TokenType::Dot, start),
            '-' => self.add_token(TokenType::Minus, start),
            '+' => self.add_token(TokenType::Plus, start),
            ';' => self.add_token(TokenType::Semicolon, start),
            '*' => self.add_token(TokenType::Star, start),
            '!' => {
                if self.match_char('=') {
                    self.add_token(TokenType::BangEqual, start);
                } else {
                    self.add_token(TokenType::Bang, start);
                }
            },
            '=' => {
                if self.match_char('=') {
                    self.add_token(TokenType::EqualEqual, start);
                } else {
                    self.add_token(TokenType::Equal, start);
                }
            },
            '<' => {
                if self.match_char('=') {
                    self.add_token(TokenType::LessEqual, start);
                } else {
                    self.add_token(TokenType::Less, start);
                }
            },
            '>' => {
                if self.match_char('=') {
                    self.add_token(TokenType::GreaterEqual, start);
                } else {
                    self.add_token(TokenType::Greater, start);
                }
            },
            '/' => {
                if self.match_char('/') {
                    let ghost k0 = self.current as int;
                    let ghost l0 = self.line;
                    let ghost toks0 = self.tokens@;
                    while self.current < self.source.len() && self.source[self.current] != '\n'
                        invariant
                            self.source@ == src,
                            k0 <= self.current as int <= src.len(),
                            comment_end(src, k0) == comment_end(src, self.current as int),
                            self.line == l0,
                            self.tokens@ == toks0,
                        decreases src.len() - self.current,
                    {
                        self.current = self.current + 1;
                    }
                } else {
                    self.add_token(TokenType::Slash, start);
                }
            },
            '"' => {
                let r = self.string(start);
                return r;
            },
            ' ' | '\r' | '\t' => (),
            '\n' => self.bump_line(),
            _ => {
                if Self::is_digit(c) {
                    self.number(start);
                } else if Self::is_alpha(c) {
                    self.identifier(start);
                } else {
                    return Err(ScannerError::UnexpectedCharacter { line: self.line, ch: c });
                }
            },
        }
        Ok(())
    }

    /// Scans a string literal; `start` is the opening quote, `current`
    /// the character after it.
    fn string(&mut self, start: usize) -> (r: Result<(), ScannerError>)
        requires
            old(self).current == start + 1,
            start < old(self).source@.len(),
            old(self).source@[start as int] == '"',
        ensures
            final(self).source@ == old(self).source@,
            match scan_step(old(self).source@, start as int, old(self).line as nat) {
                ScanStep::Tok { t, next, line } => {
                    &&& r is Ok
                    &&& final(self).tokens@.len() == old(self).tokens@.len() + 1
                    &&& final(self).tokens@.drop_last() == old(self).tokens@
                    &&& final(self).tokens@.last()@ == t
                    &&& final(self).current as int == next
                    &&& final(self).line as nat == line
                    &&& next > start as int
                    &&& next <= old(self).source@.len()
                },
                ScanStep::Skip { next, line } => false,
                ScanStep::Fail { e } => r == Err::<(), ScannerError>(e) && final(self).tokens@
                    == old(self).tokens@,
            },
    {
        let ghost src = self.source@;
        let ghost k0 = self.current as int;
        let ghost l0 = self.line as nat;
        let ghost toks0 = self.tokens@;
        while self.current < self.source.len() && self.source[self.current] != '"'
            invariant
                self.source@ == src,
                k0 <= self.current as int <= src.len(),
                string_end(src, k0, l0) == string_end(src, self.current as int, self.line as nat),
                self.tokens@ == toks0,
            decreases src.len() - self.current,
        {
            if self.source[self.current] == '\n' {
                self.bump_line();
            }
            self.current = self.current + 1;
        }
        if self.current >= self.source.len() {
            Err(ScannerError::UnterminatedString { line: self.line })
        } else {
            let q = self.current;
            self.current = self.current + 1;
            self.add_token_val(TokenType::StringLit, start, start + 1, q);
            Ok(())
        }
    }

    /// Scans a number literal; `start` is its first digit, `current` the
    /// character after it.
    fn number(&mut self, start: usize)
        requires
            old(self).current == start + 1,
            start < old(self).source@.len(),
            is_digit_char(old(self).source@[start as int]),
        ensures
            final(self).source@ == old(self).source@,
            match scan_step(old(self).source@, start as int, old(self).line as nat) {
                ScanStep::Tok { t, next, line } => {
                    &&& final(self).tokens@.len() == old(self).tokens@.len() + 1
                    &&& final(self).tokens@.drop_last() == old(self).tokens@
                    &&& final(self).tokens@.last()@ == t
                    &&& final(self).current as int == next
                    &&& final(self).line as nat == line
                    &&& next > start as int
                    &&& next <= old(self).source@.len()
                },
                ScanStep::Skip { next, line } => false,
                ScanStep::Fail { e } => false,
            },
    {
        let ghost src = self.source@;
        self.walk_digits();
        if self.current < self.source.len() && self.source[self.current] == '.' && self.current + 1
            < self.source.len() && Self::is_digit(self.source[self.current + 1]) {
            self.current = self.current + 1;
            self.walk_digits();
        }
        self.add_token_val(TokenType::NumberLit, start, start, self.current);
    }

    /// Moves `current` to the first non-digit.
    fn walk_digits(&mut self)
        requires
            old(self).current <= old(self).source@.len(),
        ensures
            final(self).source@ == old(self).source@,
            final(self).line == old(self).line,
            final(self).tokens@ == old(self).tokens@,
            final(self).current as int == digits_end(old(self).source@, old(self).current as int),
            old(self).current <= final(self).current <= old(self).source@.len(),
    {
        let ghost src = self.source@;
        let ghost k0 = self.current as int;
        let ghost l0 = self.line;
        let ghost toks0 = self.tokens@;
        while self.current < self.source.len() && Self::is_digit(self.source[self.current])
            invariant
                self.source@ == src,
                k0 <= self.current as int <= src.len(),
                digits_end(src, k0) == digits_end(src, self.current as int),
                self.line == l0,
                self.tokens@ == toks0,
            decreases src.len() - self.current,
        {
            self.current = self.current + 1;
        }
    }

    /// Scans an identifier or keyword; `start` is its first character,
    /// `current` the character after it.
    fn identifier(&mut self, start: usize)
        requires
            old(self).current == start + 1,
            start < old(self).source@.len(),
            is_alpha_char(old(self).source@[start as int]),
        ensures
            final(self).source@ == old(self).source@,
            match scan_step(old(self).source@, start as int, old(self).line as nat) {
                ScanStep::Tok { t, next, line } => {
                    &&& final(self).tokens@.len() == old(self).tokens@.len() + 1
                    &&& final(self).tokens@.drop_last() == old(self).tokens@
                    &&& final(self).tokens@.last()@ == t
                    &&& final(self).current as int == next
                    &&& final(self).line as nat == line
                    &&& next > start as int
                    &&& next <= old(self).source@.len()
                },
                ScanStep::Skip { next, line } => false,
                ScanStep::Fail { e } => false,
            },
    {
        let ghost src = self.source@;
        let ghost k0 = self.current as int;
        let ghost l0 = self.line;
        let ghost toks0 = self.tokens@;
        while self.current < self.source.len() && Self::is_alpha_numeric(self.source[self.current])
            invariant
                self.source@ == src,
                k0 <= self.current as int <= src.len(),
                ident_end(src, k0) == ident_end(src, self.current as int),
                self.line == l0,
                self.tokens@ == toks0,
            decreases src.len() - self.current,
        {
            self.current = self.current + 1;
        }
        let lexeme = self.substring(start, self.current);
        let ty = Self::keyword_of(&lexeme);
        self.add_token(ty, start);
    }

    /// Scans the whole source: the token stream `scan` describes, ending
    /// with the `Eof` token, or the first scanning error.
    pub fn scan_tokens(&mut self) -> (r: Result<Vec<Token>, ScannerError>)
        requires
            old(self).current == 0,
            old(self).line == 1,
            old(self).tokens@ == Seq::<Token>::empty(),
        ensures
            match r {
                Ok(ts) => scan(old(self).source@) == Ok::<_, ScannerError>(tokens_model(ts@)),
                Err(e) => scan(old(self).source@) == Err::<Seq<TokenModel>, _>(e),
            },
    {
        let ghost src = self.source@;
        proof {
            match scan_from(src, 0, 1) {
                Ok(rest) => {
                    assert(tokens_model(self.tokens@) + rest =~= rest);
                },
                Err(_) => {},
            }
        }
        while self.current < self.source.len()
            invariant
                old(self).source@ == src,
                self.source@ == src,
                self.current <= src.len(),
                scan_from(src, 0, 1) == (match scan_from(
                    src,
                    self.current as int,
                    self.line as nat,
                ) {
                    Ok(rest) => Ok::<Seq<TokenModel>, ScannerError>(
                        tokens_model(self.tokens@) + rest,
                    ),
                    Err(e) => Err::<Seq<TokenModel>, ScannerError>(e),
                }),
            decreases src.len() - self.current,
        {
            let ghost pre = *self;
            match self.scan_token() {
                Ok(()) => {
                    proof {
                        lemma_scan_loop_step(src, pre.current as int, pre.line as nat);
                        match scan_step(src, pre.current as int, pre.line as nat) {
                            ScanStep::Tok { t, next, line } => {
                                assert(tokens_model(self.tokens@) =~= tokens_model(pre.tokens@)
                                    + seq![t]);
                                match scan_from(src, self.current as int, self.line as nat) {
                                    Ok(rest) => {
                                        assert(tokens_model(pre.tokens@) + (seq![t] + rest)
                                            =~= tokens_model(self.tokens@) + rest);
                                    },
                                    Err(_) => {},
                                }
                            },
                            ScanStep::Skip { next, line } => {},
                            ScanStep::Fail { e } => {
                                assert(false);
                            },
                        }
                    }
                },
                Err(e) => {
                    proof {
                        assert(scan_from(src, pre.current as int, pre.line as nat)
                            == Err::<Seq<TokenModel>, ScannerError>(e));
                    }
                    return Err(e);
                },
            }
        }
        let ghost toks_before = self.tokens@;
        let t = Token::new(TokenType::Eof, String::new(), None, self.line);
        self.tokens.push(t);
        proof {
            assert(tokens_model(self.tokens@) =~= tokens_model(toks_before) + seq![
                self.tokens@.last()@,
            ]);
        }
        let out = self.tokens.clone();
        proof {
            assert forall|i: int| 0 <= i < out@.len() implies (#[trigger] out@[i])@
                == self.tokens@[i]@ by {
                assert(cloned::<Token>(self.tokens@[i], out@[i]));
            }
            assert(tokens_model(out@) =~= tokens_model(self.tokens@));
        }
        Ok(out)
    }
}

/// Unfolding helper for the scanning loop: one step's tokens prepend to
/// the rest.
proof fn lemma_scan_loop_step(src: Seq<char>, i: int, line: nat)
    requires
        0 <= i < src.len(),
    ensures
        match scan_step(src, i, line) {
            ScanStep::Tok { t, next, line: l2 } => {
                let j = scan_next(src, next, i);
                scan_from(src, i, line) == (match scan_from(src, j, l2) {
                    Ok(rest) => Ok::<Seq<TokenModel>, ScannerError>(seq![t] + rest),
                    Err(e) => Err::<Seq<TokenModel>, ScannerError>(e),
                })
            },
            ScanStep::Skip { next, line: l2 } => {
                let j = scan_next(src, next, i);
                scan_from(src, i, line) == scan_from(src, j, l2)
            },
            ScanStep::Fail { e } => scan_from(src, i, line) == Err::<Seq<TokenModel>, ScannerError>(
                e,
            ),
        },
{
}

} // verus!
