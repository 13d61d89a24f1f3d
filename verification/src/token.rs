//! Tokens of annotation arguments.
//!
//! Every function that decides anything works on [`Token`]s. Text becomes
//! tokens in [`tokenize`]: the lexing is done by `proc_macro2`, and two
//! questions about single tokens (which identifier does this text read as;
//! what does this string literal hold) are answered by `syn`. Which lexer
//! answers depends on the process the call is made in, so nothing is claimed
//! of what text gives which answers. What follows from the answers is
//! decided in [`classified`], for every answer.

use vstd::prelude::*;
use vstd::utf8::encode_utf8;

verus! {

/// The most opening brackets that text handed to the lexer may hold.
/// Brackets nest at most as deep as there are opening brackets, and the
/// outside calls recurse once per level of nesting.
pub const MAX_NESTING: usize = 256;

/// The lexical class of one top-level token tree.
#[derive(Clone, Copy, Debug, PartialEq, Eq, Structural)]
pub enum RawKind {
    Ident,
    Punct,
    Literal,
    Group,
}

/// One top-level token tree as the lexer hands it out: its class and its
/// source text.
#[derive(Debug, PartialEq, Eq)]
pub struct RawToken {
    pub kind: RawKind,
    pub text: String,
}

/// A classified token.
#[derive(Debug, PartialEq, Eq)]
pub enum Token {
    /// An identifier that may name a field or a type.
    Ident(String),
    /// A reserved word, or `_`.
    Reserved(String),
    /// One punctuation character.
    Punct(String),
    /// A string literal whose contents are exactly one identifier that may
    /// name a function; holds the contents.
    Name(String),
    /// Any other string literal; holds its contents, not its source text.
    Str(String),
    /// Any other literal, by its source text.
    Literal(String),
    /// A delimited group, by its source text.
    Group(String),
}

/// The mathematical value of a [`Token`].
pub enum TokenView {
    Ident(Seq<char>),
    Reserved(Seq<char>),
    Punct(Seq<char>),
    Name(Seq<char>),
    Str(Seq<char>),
    Literal(Seq<char>),
    Group(Seq<char>),
}

impl View for Token {
    type V = TokenView;

    open spec fn view(&self) -> TokenView {
        match self {
            Token::Ident(s) => TokenView::Ident(s@),
            Token::Reserved(s) => TokenView::Reserved(s@),
            Token::Punct(s) => TokenView::Punct(s@),
            Token::Name(s) => TokenView::Name(s@),
            Token::Str(s) => TokenView::Str(s@),
            Token::Literal(s) => TokenView::Literal(s@),
            Token::Group(s) => TokenView::Group(s@),
        }
    }
}

impl Clone for Token {
    fn clone(&self) -> (r: Self)
        ensures
            r@ == self@,
    {
        match self {
            Token::Ident(s) => Token::Ident(s.clone()),
            Token::Reserved(s) => Token::Reserved(s.clone()),
            Token::Punct(s) => Token::Punct(s.clone()),
            Token::Name(s) => Token::Name(s.clone()),
            Token::Str(s) => Token::Str(s.clone()),
            Token::Literal(s) => Token::Literal(s.clone()),
            Token::Group(s) => Token::Group(s.clone()),
        }
    }
}

/// The views of a sequence of tokens.
pub open spec fn token_views(tokens: Seq<Token>) -> Seq<TokenView> {
    tokens.map_values(|t: Token| t@)
}

/// Copies a list of tokens.
pub fn clone_tokens(tokens: &Vec<Token>) -> (r: Vec<Token>)
    ensures
        token_views(r@) == token_views(tokens@),
{
    let mut out: Vec<Token> = Vec::new();
    let mut i: usize = 0;
    while i < tokens.len()
        invariant
            i <= tokens@.len(),
            out@.len() == i,
            forall|j: int| 0 <= j < i ==> (#[trigger] out@[j])@ == tokens@[j]@,
        decreases tokens@.len() - i,
    {
        out.push(tokens[i].clone());
        i = i + 1;
    }
    proof {
        assert(token_views(out@) =~= token_views(tokens@));
    }
    out
}

/// Whether a byte is `(`, `[` or `{`.
pub open spec fn is_opener(byte: u8) -> bool {
    byte == 40 || byte == 91 || byte == 123
}

/// The number of opening brackets among the bytes.
pub open spec fn openers(bytes: Seq<u8>) -> nat
    decreases bytes.len(),
{
    if bytes.len() == 0 {
        0
    } else {
        openers(bytes.drop_last()) + if is_opener(bytes.last()) {
            1nat
        } else {
            0nat
        }
    }
}

/// Whether `text` holds few enough opening brackets to be handed to the
/// lexer. Brackets inside string literals count too.
pub open spec fn is_shallow(text: Seq<char>) -> bool {
    openers(encode_utf8(text)) <= MAX_NESTING
}

/// Calls `proc_macro2::TokenStream::from_str` and hands out the top-level
/// token trees in order, each as its class and the text that its `to_string`
/// gives; `None` where the lexer returns an error. Nothing is claimed of the
/// result. Printing recurses once per level of nested brackets; the bound on
/// the opening brackets keeps that shallow.
#[verifier::external_body]
fn lex(text: &str) -> (r: Option<Vec<RawToken>>)
    requires
        is_shallow(text@),
{
    let stream = <proc_macro2::TokenStream as std::str::FromStr>::from_str(text).ok()?;
    let mut out = Vec::new();
    for tree in stream {
        let kind = match &tree {
            proc_macro2::TokenTree::Ident(_) => RawKind::Ident,
            proc_macro2::TokenTree::Punct(_) => RawKind::Punct,
            proc_macro2::TokenTree::Literal(_) => RawKind::Literal,
            proc_macro2::TokenTree::Group(_) => RawKind::Group,
        };
        out.push(RawToken { kind, text: tree.to_string() });
    }
    Some(out)
}

/// Calls `syn::parse_str::<syn::Ident>` and, where it succeeds, hands out
/// the identifier as its `to_string` gives it. Nothing is claimed of the
/// result. The bound on the text is there for the same reason as in `lex`.
#[verifier::external_body]
fn plain_ident(text: &str) -> (r: Option<String>)
    requires
        is_shallow(text@),
{
    match syn::parse_str::<syn::Ident>(text) {
        Ok(ident) => Some(ident.to_string()),
        Err(_) => None,
    }
}

/// Calls `syn::parse_str::<syn::LitStr>` and, where it succeeds, hands out
/// the literal's `value()`. Nothing is claimed of the result. The bound on
/// the text is there for the same reason as in `lex`.
#[verifier::external_body]
fn string_literal_value(text: &str) -> (r: Option<String>)
    requires
        is_shallow(text@),
{
    match syn::parse_str::<syn::LitStr>(text) {
        Ok(lit) => Some(lit.value()),
        Err(_) => None,
    }
}

/// Counts the opening brackets of `text` and compares with the limit.
pub fn shallow(text: &str) -> (b: bool)
    ensures
        b == is_shallow(text@),
{
    let bytes = text.as_bytes();
    let mut count: usize = 0;
    let mut i: usize = 0;
    while i < bytes.len()
        invariant
            i <= bytes@.len(),
            count <= i,
            count == openers(bytes@.take(i as int)),
        decreases bytes@.len() - i,
    {
        proof {
            assert(bytes@.take(i as int + 1).drop_last() =~= bytes@.take(i as int));
        }
        let byte = bytes[i];
        if byte == 40 || byte == 91 || byte == 123 {
            count = count + 1;
        }
        i = i + 1;
    }
    proof {
        assert(bytes@.take(i as int) =~= bytes@);
    }
    count <= MAX_NESTING
}

/// The answers that decide what a raw token stands for.
pub struct Answers {
    /// The identifier that the token's text reads as, if it reads as one.
    pub ident: Option<String>,
    /// What the token's text holds, if it is a string literal.
    pub contents: Option<String>,
    /// The identifier that those contents read as, if they read as one.
    pub name: Option<String>,
}

/// The mathematical value of [`Answers`].
pub struct AnswersView {
    pub ident: Option<Seq<char>>,
    pub contents: Option<Seq<char>>,
    pub name: Option<Seq<char>>,
}

/// The view of an optional string.
pub open spec fn text_view(s: Option<String>) -> Option<Seq<char>> {
    match s {
        Some(s) => Some(s@),
        None => None,
    }
}

impl View for Answers {
    type V = AnswersView;

    open spec fn view(&self) -> AnswersView {
        AnswersView {
            ident: text_view(self.ident),
            contents: text_view(self.contents),
            name: text_view(self.name),
        }
    }
}

/// No answer to any question.
pub open spec fn no_answers() -> AnswersView {
    AnswersView { ident: None, contents: None, name: None }
}

/// The token that a raw token of this class and text stands for, given the
/// answers about it.
///
/// * An identifier token is an identifier where its text reads as exactly
///   that identifier, else a reserved word.
/// * A literal token is a string where it has contents: a name where the
///   contents read as exactly one identifier, else another string. Without
///   contents it is another literal.
/// * Punctuation and groups stand for themselves.
pub open spec fn classified_as(kind: RawKind, text: Seq<char>, answers: AnswersView) -> TokenView {
    match kind {
        RawKind::Ident => if answers.ident == Some(text) {
            TokenView::Ident(text)
        } else {
            TokenView::Reserved(text)
        },
        RawKind::Punct => TokenView::Punct(text),
        RawKind::Literal => match answers.contents {
            Some(contents) => if answers.name == Some(contents) {
                TokenView::Name(contents)
            } else {
                TokenView::Str(contents)
            },
            None => TokenView::Literal(text),
        },
        RawKind::Group => TokenView::Group(text),
    }
}

/// Whether `token` is what the raw token stands for under some answers.
pub open spec fn is_classification_of(kind: RawKind, text: Seq<char>, token: TokenView) -> bool {
    exists|answers: AnswersView| token == #[trigger] classified_as(kind, text, answers)
}

/// Whether `tokens` are, one for one and in order, classifications of `raw`.
pub open spec fn are_classifications_of(raw: Seq<RawToken>, tokens: Seq<TokenView>) -> bool {
    &&& tokens.len() == raw.len()
    &&& forall|i: int|
        0 <= i < raw.len() ==> is_classification_of(raw[i].kind, raw[i].text@, #[trigger] tokens[i])
}

/// Whether `tokens` are classifications of some raw tokens, one for one.
pub open spec fn are_classified(tokens: Seq<TokenView>) -> bool {
    exists|raw: Seq<RawToken>| #[trigger] are_classifications_of(raw, tokens)
}

/// Whether an answer is exactly `text`.
fn is_exactly(answer: &Option<String>, text: &String) -> (b: bool)
    ensures
        b == (text_view(*answer) == Some(text@)),
{
    match answer {
        Some(found) => *found == *text,
        None => false,
    }
}

/// The token that a raw token stands for, given the answers about it.
pub fn classified(raw: &RawToken, answers: Answers) -> (t: Token)
    ensures
        t@ == classified_as(raw.kind, raw.text@, answers@),
{
    match raw.kind {
        RawKind::Ident => {
            if is_exactly(&answers.ident, &raw.text) {
                Token::Ident(raw.text.clone())
            } else {
                Token::Reserved(raw.text.clone())
            }
        },
        RawKind::Punct => Token::Punct(raw.text.clone()),
        RawKind::Literal => match answers.contents {
            Some(contents) => {
                if is_exactly(&answers.name, &contents) {
                    Token::Name(contents)
                } else {
                    Token::Str(contents)
                }
            },
            None => Token::Literal(raw.text.clone()),
        },
        RawKind::Group => Token::Group(raw.text.clone()),
    }
}

/// Classifies one raw token: asks what its class calls for and decides by
/// [`classified`]. Text with too many opening brackets is not asked about.
pub fn classify(raw: &RawToken) -> (t: Token)
    ensures
        is_classification_of(raw.kind, raw.text@, t@),
        !is_shallow(raw.text@) ==> t@ == classified_as(raw.kind, raw.text@, no_answers()),
        raw.kind == RawKind::Punct || raw.kind == RawKind::Group ==> t@ == classified_as(
            raw.kind,
            raw.text@,
            no_answers(),
        ),
{
    let asked = shallow(raw.text.as_str());
    let ident = match raw.kind {
        RawKind::Ident => if asked {
            plain_ident(raw.text.as_str())
        } else {
            None
        },
        _ => None,
    };
    let contents = match raw.kind {
        RawKind::Literal => if asked {
            string_literal_value(raw.text.as_str())
        } else {
            None
        },
        _ => None,
    };
    let name = match &contents {
        Some(contents) => if shallow(contents.as_str()) {
            plain_ident(contents.as_str())
        } else {
            None
        },
        None => None,
    };
    classified(raw, Answers { ident, contents, name })
}

/// Classifies raw tokens one for one, in order.
pub fn classify_all(raw: &Vec<RawToken>) -> (tokens: Vec<Token>)
    ensures
        are_classifications_of(raw@, token_views(tokens@)),
{
    let mut tokens: Vec<Token> = Vec::new();
    let mut i: usize = 0;
    while i < raw.len()
        invariant
            i <= raw@.len(),
            tokens@.len() == i,
            forall|j: int|
                0 <= j < i ==> is_classification_of(
                    raw@[j].kind,
                    raw@[j].text@,
                    (#[trigger] tokens@[j])@,
                ),
        decreases raw@.len() - i,
    {
        let t = classify(&raw[i]);
        tokens.push(t);
        i = i + 1;
    }
    proof {
        assert forall|j: int| 0 <= j < raw@.len() implies is_classification_of(
            raw@[j].kind,
            raw@[j].text@,
            #[trigger] token_views(tokens@)[j],
        ) by {
            assert(token_views(tokens@)[j] == tokens@[j]@);
        }
    }
    tokens
}

/// Lexes `text` and classifies each top-level token. Text with too many
/// opening brackets is not lexed. Whether other text lexes, and to which raw
/// tokens, is the lexer's answer; what comes back are classifications of
/// some raw tokens, one for one.
pub fn tokenize(text: &str) -> (r: Option<Vec<Token>>)
    ensures
        !is_shallow(text@) ==> r is None,
        r matches Some(tokens) ==> are_classified(token_views(tokens@)),
{
    if !shallow(text) {
        return None;
    }
    match lex(text) {
        None => None,
        Some(raw) => {
            let tokens = classify_all(&raw);
            assert(are_classifications_of(raw@, token_views(tokens@)));
            Some(tokens)
        },
    }
}

} // verus!
