//! Lexical tokens: the token categories the scanner can emit and the
//! token record itself (category, source lexeme, optional literal payload,
//! 1-based source line).
use vstd::prelude::*;

verus! {

/// Every token category of the language. `Class`, `Super` and `This` are
/// reserved by the scanner but not used by the parser.
#[derive(Clone, Copy, PartialEq, Eq, Structural, Debug)]
pub enum TokenType {
    // single-character tokens
    LeftParen,
    RightParen,
    LeftBrace,
    RightBrace,
    Comma,
    Dot,
    Minus,
    Plus,
    Semicolon,
    Slash,
    Star,
    // one- or two-character tokens
    Bang,
    BangEqual,
    Equal,
    EqualEqual,
    Greater,
    GreaterEqual,
    Less,
    LessEqual,
    // literals
    Ident,
    StringLit,
    NumberLit,
    // keywords
    And,
    Class,
    Else,
    False,
    Fun,
    For,
    If,
    Nil,
    Or,
    Print,
    Return,
    Super,
    This,
    True,
    Var,
    While,
    Eof,
}

/// Mathematical image of a token: the lexeme and literal as character
/// sequences.
pub ghost struct TokenModel {
    pub ty: TokenType,
    pub lexeme: Seq<char>,
    pub literal: Option<Seq<char>>,
    pub line: nat,
}

/// A token produced by the scanner. `lexeme` is the exact source text;
/// `literal` carries the payload of string literals (text between the
/// quotes) and number literals (the exact source digits).
pub struct Token {
    pub ty: TokenType,
    pub lexeme: String,
    pub literal: Option<String>,
    pub line: usize,
}

impl View for Token {
    type V = TokenModel;

    open spec fn view(&self) -> TokenModel {
        TokenModel {
            ty: self.ty,
            lexeme: self.lexeme@,
            literal: match self.literal {
                Some(s) => Some(s@),
                None => None,
            },
            line: self.line as nat,
        }
    }
}

/// The images of a token list, element for element.
pub open spec fn tokens_model(s: Seq<Token>) -> Seq<TokenModel> {
    Seq::new(s.len(), |i: int| s[i]@)
}

impl Token {
    pub fn new(ty: TokenType, lexeme: String, literal: Option<String>, line: usize) -> (t: Token)
        ensures
            t@ == (TokenModel {
                ty,
                lexeme: lexeme@,
                literal: match literal {
                    Some(s) => Some(s@),
                    None => None,
                },
                line: line as nat,
            }),
    {
        Token { ty, lexeme, literal, line }
    }
}

impl Clone for Token {
    fn clone(&self) -> (t: Token)
        ensures
            t@ == self@,
    {
        Token {
            ty: self.ty,
            lexeme: self.lexeme.clone(),
            literal: match &self.literal {
                Some(s) => Some(s.clone()),
                None => None,
            },
            line: self.line,
        }
    }
}

} // verus!
