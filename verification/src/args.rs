//! The macro-argument parser: reads `name, pattern` from a token stream.
//!
//! The parser is a four-state machine fed one token at a time. It expects
//! an identifier (the name), then a comma, then a string or byte-string
//! literal (the pattern). Any unexpected token reports an error and resets
//! the machine to its starting state.

use vstd::prelude::*;
use vstd::slice::slice_index_get;
use vstd::string::StringSliceAdditionalSpecFns;
use vstd::utf8::encode_utf8;

verus! {

/// One token of the macro's argument list, as the parser sees it: an
/// identifier, a punctuation character, a literal carried as its source
/// text, or a delimited group.
#[derive(Debug)]
pub enum Token {
    Ident(String),
    Punct(char),
    Literal(String),
    Group,
}

/// The abstract value of a `Token`.
pub enum TokenModel {
    Ident(Seq<char>),
    Punct(char),
    Literal(Seq<char>),
    Group,
}

impl View for Token {
    type V = TokenModel;

    open spec fn view(&self) -> TokenModel {
        match self {
            Token::Ident(s) => TokenModel::Ident(s@),
            Token::Punct(c) => TokenModel::Punct(*c),
            Token::Literal(s) => TokenModel::Literal(s@),
            Token::Group => TokenModel::Group,
        }
    }
}

/// What parsing a literal's source text yields: the decoded contents of a
/// string or byte-string literal, some other literal kind, or no literal
/// at all.
#[derive(Debug, PartialEq, Eq)]
pub enum ParsedLit {
    Str(Vec<u8>),
    ByteStr(Vec<u8>),
    OtherKind,
    Invalid,
}

/// The abstract value of a `ParsedLit`.
pub enum LitModel {
    Str(Seq<u8>),
    ByteStr(Seq<u8>),
    OtherKind,
    Invalid,
}

impl View for ParsedLit {
    type V = LitModel;

    open spec fn view(&self) -> LitModel {
        match self {
            ParsedLit::Str(v) => LitModel::Str(v@),
            ParsedLit::ByteStr(v) => LitModel::ByteStr(v@),
            ParsedLit::OtherKind => LitModel::OtherKind,
            ParsedLit::Invalid => LitModel::Invalid,
        }
    }
}

/// What the literal parser yields on a given source text. Literal parsing
/// follows the full Rust literal grammar, so the result is named rather
/// than spelled out; it is a function of the text alone.
pub uninterp spec fn lit_of(s: Seq<char>) -> LitModel;

/// The texts the literal parser is relied upon for: if the UTF-8 encoding
/// of the text holds a backslash byte, its final byte is ASCII. On the
/// texts left out, the parser's string unescaping slices the input one
/// byte short of its end; when the final character is multi-byte that cut
/// is off a character boundary and the call panics instead of returning.
/// Every text whose last character is the closing quote of a literal, and
/// every backslash-free text, is safe.
pub open spec fn lit_text_safe(s: Seq<char>) -> bool {
    let bytes = encode_utf8(s);
    bytes.contains(0x5c) ==> bytes.len() > 0 && bytes[bytes.len() - 1] < 0x80
}

/// Relies on litrs::Literal::parse: the literal kind, and the decoded
/// value of a string or byte-string literal (escapes resolved), are
/// functions of the source text alone. The precondition keeps out the
/// texts on which the call does not return (see `lit_text_safe`); the
/// verified caller tests it first.
#[verifier::external_body]
fn parse_literal(s: &str) -> (r: ParsedLit)
    requires
        lit_text_safe(s@),
    ensures
        r@ == lit_of(s@),
{
    match litrs::Literal::parse(s) {
        Ok(litrs::Literal::String(lit)) => ParsedLit::Str(lit.value().as_bytes().to_vec()),
        Ok(litrs::Literal::ByteString(lit)) => ParsedLit::ByteStr(lit.value().to_vec()),
        Ok(_) => ParsedLit::OtherKind,
        Err(_) => ParsedLit::Invalid,
    }
}

/// Whether the literal parser may be relied upon for this text; the
/// executable check behind `lit_text_safe`.
fn lit_text_is_safe(s: &str) -> (r: bool)
    ensures
        r == lit_text_safe(s@),
{
    let bytes = s.as_bytes();
    let n = bytes.len();
    if n == 0 {
        return true;
    }
    if *slice_index_get(bytes, n - 1) < 0x80 {
        return true;
    }
    let mut i: usize = 0;
    while i < n
        invariant
            bytes@ == encode_utf8(s@),
            n == bytes@.len(),
            1 <= n,
            bytes@[n - 1] >= 0x80,
            i <= n,
            forall|k: int| 0 <= k < i ==> bytes@[k] != 0x5c,
        decreases n - i,
    {
        if *slice_index_get(bytes, i) == 0x5c {
            proof {
                assert(encode_utf8(s@)[i as int] == 0x5c);
            }
            return false;
        }
        i = i + 1;
    }
    true
}

/// What the pattern step sees for a given text: the parsed literal where
/// the parser is relied upon, `Invalid` for the texts it is not.
pub open spec fn spec_parse_pattern(src: Seq<char>) -> LitModel {
    if lit_text_safe(src) {
        lit_of(src)
    } else {
        LitModel::Invalid
    }
}

/// Parses a pattern token's source text, answering `Invalid` without a
/// call for the texts the literal parser is not relied upon for.
fn parse_pattern_text(src: &str) -> (r: ParsedLit)
    ensures
        r@ == spec_parse_pattern(src@),
{
    if lit_text_is_safe(src) {
        parse_literal(src)
    } else {
        ParsedLit::Invalid
    }
}

/// Why a token was rejected.
#[derive(Clone, Copy, Debug, PartialEq, Eq, Structural)]
pub enum ArgError {
    /// The first token was not an identifier.
    ExpectedIdent,
    /// The token after the name was not a comma.
    ExpectedComma,
    /// The pattern token was a literal, but not a string or byte string.
    ExpectedStringLiteral,
    /// The pattern token was not a literal at all.
    InvalidLiteral,
    /// A token arrived after the pattern was already complete.
    TrailingInput,
}

/// The macro-argument parser's state: what it expects next.
#[derive(Debug)]
pub enum PcreArgParser {
    NeedName,
    NeedComma { name: String },
    NeedPattern { name: String },
    Done { name: String, pattern: Vec<u8> },
}

/// The abstract value of a `PcreArgParser`.
pub enum ParserModel {
    NeedName,
    NeedComma(Seq<char>),
    NeedPattern(Seq<char>),
    Done(Seq<char>, Seq<u8>),
}

impl View for PcreArgParser {
    type V = ParserModel;

    open spec fn view(&self) -> ParserModel {
        match self {
            PcreArgParser::NeedName => ParserModel::NeedName,
            PcreArgParser::NeedComma { name } => ParserModel::NeedComma(name@),
            PcreArgParser::NeedPattern { name } => ParserModel::NeedPattern(name@),
            PcreArgParser::Done { name, pattern } => ParserModel::Done(name@, pattern@),
        }
    }
}

/// How a parser waiting for the pattern reacts to a parsed literal: string
/// and byte-string contents complete the parse; anything else is an error
/// that resets the machine.
pub open spec fn spec_resolve(name: Seq<char>, lit: LitModel) -> (ParserModel, Result<
    (),
    ArgError,
>) {
    match lit {
        LitModel::Str(v) => (ParserModel::Done(name, v), Ok(())),
        LitModel::ByteStr(v) => (ParserModel::Done(name, v), Ok(())),
        LitModel::OtherKind => (ParserModel::NeedName, Err(ArgError::ExpectedStringLiteral)),
        LitModel::Invalid => (ParserModel::NeedName, Err(ArgError::InvalidLiteral)),
    }
}

/// How the parser reacts to one token; errors reset it to `NeedName`.
pub open spec fn spec_push(s: ParserModel, t: TokenModel) -> (ParserModel, Result<(), ArgError>) {
    match s {
        ParserModel::NeedName => match t {
            TokenModel::Ident(n) => (ParserModel::NeedComma(n), Ok(())),
            _ => (ParserModel::NeedName, Err(ArgError::ExpectedIdent)),
        },
        ParserModel::NeedComma(n) => match t {
            TokenModel::Punct(c) => if c == ',' {
                (ParserModel::NeedPattern(n), Ok(()))
            } else {
                (ParserModel::NeedName, Err(ArgError::ExpectedComma))
            },
            _ => (ParserModel::NeedName, Err(ArgError::ExpectedComma)),
        },
        ParserModel::NeedPattern(n) => match t {
            TokenModel::Literal(src) => spec_resolve(n, spec_parse_pattern(src)),
            TokenModel::Ident(src) => spec_resolve(n, spec_parse_pattern(src)),
            TokenModel::Punct(_) => (ParserModel::NeedName, Err(ArgError::InvalidLiteral)),
            TokenModel::Group => (ParserModel::NeedName, Err(ArgError::InvalidLiteral)),
        },
        ParserModel::Done(_, _) => (ParserModel::NeedName, Err(ArgError::TrailingInput)),
    }
}

impl Default for PcreArgParser {
    /// A fresh parser expects the name first.
    fn default() -> (r: Self)
        ensures
            r@ == ParserModel::NeedName,
    {
        PcreArgParser::NeedName
    }
}

impl PcreArgParser {
    /// Completes the pattern step from an already-parsed literal. This is
    /// the whole decision the parser makes once the literal's contents are
    /// known, for every value they might take.
    pub fn resolve_pattern(name: String, lit: ParsedLit) -> (r: (PcreArgParser, Result<
        (),
        ArgError,
    >))
        ensures
            (r.0@, r.1) == spec_resolve(name@, lit@),
    {
        match lit {
            ParsedLit::Str(v) => (PcreArgParser::Done { name, pattern: v }, Ok(())),
            ParsedLit::ByteStr(v) => (PcreArgParser::Done { name, pattern: v }, Ok(())),
            ParsedLit::OtherKind => (
                PcreArgParser::NeedName,
                Err(ArgError::ExpectedStringLiteral),
            ),
            ParsedLit::Invalid => (PcreArgParser::NeedName, Err(ArgError::InvalidLiteral)),
        }
    }

    /// Feeds one token to the parser. On an unexpected token the parser
    /// reports why and resets to its starting state.
    pub fn push(&mut self, t: Token) -> (r: Result<(), ArgError>)
        ensures
            (final(self)@, r) == spec_push(old(self)@, t@),
    {
        let mut cur = PcreArgParser::NeedName;
        core::mem::swap(self, &mut cur);
        match cur {
            PcreArgParser::NeedName => match t {
                Token::Ident(n) => {
                    *self = PcreArgParser::NeedComma { name: n };
                    Ok(())
                },
                _ => Err(ArgError::ExpectedIdent),
            },
            PcreArgParser::NeedComma { name } => match t {
                Token::Punct(c) => if c == ',' {
                    *self = PcreArgParser::NeedPattern { name };
                    Ok(())
                } else {
                    Err(ArgError::ExpectedComma)
                },
                _ => Err(ArgError::ExpectedComma),
            },
            PcreArgParser::NeedPattern { name } => {
                let lit = match t {
                    Token::Literal(src) => parse_pattern_text(src.as_str()),
                    Token::Ident(src) => parse_pattern_text(src.as_str()),
                    Token::Punct(_) => {
                        return Err(ArgError::InvalidLiteral);
                    },
                    Token::Group => {
                        return Err(ArgError::InvalidLiteral);
                    },
                };
                let (next, r) = Self::resolve_pattern(name, lit);
                *self = next;
                r
            },
            PcreArgParser::Done { name: _, pattern: _ } => Err(ArgError::TrailingInput),
        }
    }

    /// Hands the finished arguments out: the name and the decoded pattern,
    /// or nothing if the parse never completed.
    pub fn finish(self) -> (r: Option<(String, Vec<u8>)>)
        ensures
            match self@ {
                ParserModel::Done(n, p) => r matches Some(pair) && pair.0@ == n && pair.1@ == p,
                _ => r is None,
            },
    {
        match self {
            PcreArgParser::Done { name, pattern } => Some((name, pattern)),
            _ => None,
        }
    }
}

} // verus!
