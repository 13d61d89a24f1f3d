//! The two annotation grammars.
//!
//! The struct-level annotation holds exactly one plain identifier, the source
//! type. A field-level annotation holds `select = identifier` or
//! `transform = "function"`, with any string literal.

use vstd::prelude::*;
use crate::token::{is_shallow, token_views, tokenize, Token, TokenView};

verus! {

/// How one target field gets its value from the source value.
#[derive(Debug, PartialEq, Eq)]
pub enum FieldStrategy {
    /// A clone of the source field that has the target field's own name.
    Default,
    /// A clone of the named source field.
    Select(String),
    /// The result of the named function, called with a reference to the
    /// whole source value.
    Transform(String),
}

/// The mathematical value of a [`FieldStrategy`].
pub enum FieldStrategyView {
    Default,
    Select(Seq<char>),
    Transform(Seq<char>),
}

impl View for FieldStrategy {
    type V = FieldStrategyView;

    open spec fn view(&self) -> FieldStrategyView {
        match self {
            FieldStrategy::Default => FieldStrategyView::Default,
            FieldStrategy::Select(s) => FieldStrategyView::Select(s@),
            FieldStrategy::Transform(s) => FieldStrategyView::Transform(s@),
        }
    }
}

/// Why an annotation was rejected.
#[derive(Debug, PartialEq, Eq)]
pub enum MorphError {
    /// The struct-level annotation is not exactly one plain identifier.
    MalformedSourceReference,
    /// A field-level annotation starts `keyword =` with a keyword that is
    /// neither `select` nor `transform`; holds the keyword.
    UnrecognizedOverrideKeyword(String),
    /// A field-level annotation is not of the shape `keyword = value`, or the
    /// value is of the wrong kind for its keyword.
    MalformedOverrideSyntax,
}

/// The mathematical value of a [`MorphError`].
pub enum MorphErrorView {
    MalformedSourceReference,
    UnrecognizedOverrideKeyword(Seq<char>),
    MalformedOverrideSyntax,
}

impl View for MorphError {
    type V = MorphErrorView;

    open spec fn view(&self) -> MorphErrorView {
        match self {
            MorphError::MalformedSourceReference => MorphErrorView::MalformedSourceReference,
            MorphError::UnrecognizedOverrideKeyword(k) => MorphErrorView::UnrecognizedOverrideKeyword(k@),
            MorphError::MalformedOverrideSyntax => MorphErrorView::MalformedOverrideSyntax,
        }
    }
}

impl MorphError {
    /// A short sentence for the diagnostic.
    pub fn message(&self) -> (text: String)
        ensures
            text@ == match self@ {
                MorphErrorView::MalformedSourceReference => "expected a single identifier as argument"@,
                MorphErrorView::UnrecognizedOverrideKeyword(_) => "expected either 'transform' or 'select'"@,
                MorphErrorView::MalformedOverrideSyntax => "expected `select = field` or `transform = \"function\"`"@,
            },
    {
        match self {
            MorphError::MalformedSourceReference => "expected a single identifier as argument".to_owned(),
            MorphError::UnrecognizedOverrideKeyword(_) => "expected either 'transform' or 'select'".to_owned(),
            MorphError::MalformedOverrideSyntax => "expected `select = field` or `transform = \"function\"`".to_owned(),
        }
    }
}

/// The view of the outcome of reading a source reference.
pub open spec fn reference_outcome(r: Result<String, MorphError>) -> Result<Seq<char>, MorphErrorView> {
    match r {
        Ok(name) => Ok(name@),
        Err(e) => Err(e@),
    }
}

/// The view of the outcome of reading a field override.
pub open spec fn override_outcome(r: Result<FieldStrategy, MorphError>) -> Result<
    FieldStrategyView,
    MorphErrorView,
> {
    match r {
        Ok(s) => Ok(s@),
        Err(e) => Err(e@),
    }
}

/// What a struct-level annotation with these tokens means: the one plain
/// identifier it consists of, or an error.
pub open spec fn source_reference_of(tokens: Seq<TokenView>) -> Result<Seq<char>, MorphErrorView> {
    if tokens.len() == 1 && tokens[0] is Ident {
        Ok(tokens[0]->Ident_0)
    } else {
        Err(MorphErrorView::MalformedSourceReference)
    }
}

/// Whether a token is a string literal.
pub open spec fn is_string(token: TokenView) -> bool {
    token is Name || token is Str
}

/// What a string literal holds.
pub open spec fn string_contents(token: TokenView) -> Seq<char> {
    match token {
        TokenView::Name(contents) => contents,
        TokenView::Str(contents) => contents,
        _ => Seq::empty(),
    }
}

/// Whether the tokens start with a plain identifier followed by `=`.
pub open spec fn has_keyword_shape(tokens: Seq<TokenView>) -> bool {
    &&& tokens.len() >= 2
    &&& tokens[0] is Ident
    &&& tokens[1] == TokenView::Punct("="@)
}

/// What a field-level annotation with these tokens means.
///
/// The keyword is judged as soon as `keyword =` has been read: an unknown
/// keyword is reported whatever follows it. After `select` exactly one plain
/// identifier must follow, after `transform` exactly one string literal,
/// whose contents are taken as they are.
pub open spec fn field_override_of(tokens: Seq<TokenView>) -> Result<FieldStrategyView, MorphErrorView> {
    if !has_keyword_shape(tokens) {
        Err(MorphErrorView::MalformedOverrideSyntax)
    } else if tokens[0]->Ident_0 == "transform"@ {
        if tokens.len() == 3 && is_string(tokens[2]) {
            Ok(FieldStrategyView::Transform(string_contents(tokens[2])))
        } else {
            Err(MorphErrorView::MalformedOverrideSyntax)
        }
    } else if tokens[0]->Ident_0 == "select"@ {
        if tokens.len() == 3 && tokens[2] is Ident {
            Ok(FieldStrategyView::Select(tokens[2]->Ident_0))
        } else {
            Err(MorphErrorView::MalformedOverrideSyntax)
        }
    } else {
        Err(MorphErrorView::UnrecognizedOverrideKeyword(tokens[0]->Ident_0))
    }
}

/// Whether `s` reads exactly as `text`.
pub fn reads_as(s: &String, text: &str) -> (b: bool)
    ensures
        b == (s@ == text@),
{
    let other = text.to_owned();
    *s == other
}

/// Reads the source type from the tokens of a struct-level annotation.
pub fn source_reference_from_tokens(tokens: &Vec<Token>) -> (r: Result<String, MorphError>)
    ensures
        reference_outcome(r) == source_reference_of(token_views(tokens@)),
{
    if tokens.len() != 1 {
        return Err(MorphError::MalformedSourceReference);
    }
    match &tokens[0] {
        Token::Ident(name) => Ok(name.clone()),
        _ => Err(MorphError::MalformedSourceReference),
    }
}

/// Reads a field's strategy from the tokens of its field-level annotation.
pub fn field_override_from_tokens(tokens: &Vec<Token>) -> (r: Result<FieldStrategy, MorphError>)
    ensures
        override_outcome(r) == field_override_of(token_views(tokens@)),
{
    if tokens.len() < 2 {
        return Err(MorphError::MalformedOverrideSyntax);
    }
    let keyword = match &tokens[0] {
        Token::Ident(k) => k,
        _ => { return Err(MorphError::MalformedOverrideSyntax); },
    };
    let assigned = match &tokens[1] {
        Token::Punct(p) => reads_as(p, "="),
        _ => false,
    };
    if !assigned {
        return Err(MorphError::MalformedOverrideSyntax);
    }
    if reads_as(keyword, "transform") {
        if tokens.len() != 3 {
            return Err(MorphError::MalformedOverrideSyntax);
        }
        match &tokens[2] {
            Token::Name(function) => Ok(FieldStrategy::Transform(function.clone())),
            Token::Str(function) => Ok(FieldStrategy::Transform(function.clone())),
            _ => Err(MorphError::MalformedOverrideSyntax),
        }
    } else if reads_as(keyword, "select") {
        if tokens.len() != 3 {
            return Err(MorphError::MalformedOverrideSyntax);
        }
        match &tokens[2] {
            Token::Ident(field) => Ok(FieldStrategy::Select(field.clone())),
            _ => Err(MorphError::MalformedOverrideSyntax),
        }
    } else {
        Err(MorphError::UnrecognizedOverrideKeyword(keyword.clone()))
    }
}

/// Reads the source type from the text of a struct-level annotation: lexes
/// the text and reads the tokens. Text that holds too many opening brackets
/// or does not lex is malformed. What the text lexes to is not fixed here;
/// the outcome is that of [`source_reference_from_tokens`] on some token
/// list.
pub fn parse_source_reference(args: &str) -> (r: Result<String, MorphError>)
    ensures
        exists|tokens: Seq<TokenView>| reference_outcome(r) == #[trigger] source_reference_of(tokens),
        !is_shallow(args@) ==> reference_outcome(r) == Err::<Seq<char>, MorphErrorView>(
            MorphErrorView::MalformedSourceReference,
        ),
{
    match tokenize(args) {
        Some(tokens) => source_reference_from_tokens(&tokens),
        None => {
            assert(source_reference_of(Seq::<TokenView>::empty()) == Err::<Seq<char>, MorphErrorView>(
                MorphErrorView::MalformedSourceReference,
            ));
            Err(MorphError::MalformedSourceReference)
        },
    }
}

/// Reads a field's strategy from the text of its field-level annotation:
/// lexes the text and reads the tokens. Text that holds too many opening
/// brackets or does not lex is malformed. What the text lexes to is not fixed
/// here; the outcome is that of [`field_override_from_tokens`] on some token
/// list.
pub fn parse_field_override(args: &str) -> (r: Result<FieldStrategy, MorphError>)
    ensures
        exists|tokens: Seq<TokenView>| override_outcome(r) == #[trigger] field_override_of(tokens),
        !is_shallow(args@) ==> override_outcome(r) == Err::<
            FieldStrategyView,
            MorphErrorView,
        >(MorphErrorView::MalformedOverrideSyntax),
{
    match tokenize(args) {
        Some(tokens) => field_override_from_tokens(&tokens),
        None => {
            assert(field_override_of(Seq::<TokenView>::empty()) == Err::<
                FieldStrategyView,
                MorphErrorView,
            >(MorphErrorView::MalformedOverrideSyntax));
            Err(MorphError::MalformedOverrideSyntax)
        },
    }
}

/// An annotation that does not hold exactly one token is no source
/// reference, and neither is one whose single token is not a plain
/// identifier.
pub proof fn lemma_source_reference_errors(tokens: Seq<TokenView>)
    requires
        tokens.len() != 1 || !(tokens[0] is Ident),
    ensures
        source_reference_of(tokens) == Err::<Seq<char>, MorphErrorView>(
            MorphErrorView::MalformedSourceReference,
        ),
{
}

/// A source reference is accepted exactly when the annotation is one plain
/// identifier, and then it is that identifier.
pub proof fn lemma_source_reference_accepts(tokens: Seq<TokenView>)
    ensures
        source_reference_of(tokens) is Ok <==> tokens.len() == 1 && tokens[0] is Ident,
        source_reference_of(tokens) is Ok ==> tokens =~= seq![
            TokenView::Ident(source_reference_of(tokens)->Ok_0),
        ],
{
}

/// `keyword = ...` with a keyword other than `select` and `transform` is
/// reported as an unrecognized keyword, naming it, whatever follows the `=`;
/// and nothing else is reported so.
pub proof fn lemma_unrecognized_keyword(tokens: Seq<TokenView>)
    ensures
        field_override_of(tokens) is Err && field_override_of(tokens)->Err_0 is UnrecognizedOverrideKeyword
            <==> has_keyword_shape(tokens) && tokens[0]->Ident_0 != "select"@ && tokens[0]->Ident_0
            != "transform"@,
        has_keyword_shape(tokens) && tokens[0]->Ident_0 != "select"@ && tokens[0]->Ident_0
            != "transform"@ ==> field_override_of(tokens) == Err::<
            FieldStrategyView,
            MorphErrorView,
        >(MorphErrorView::UnrecognizedOverrideKeyword(tokens[0]->Ident_0)),
{
}

/// An annotation without the `keyword =` opening, or with a known keyword
/// that is not followed by exactly one value of the kind it asks for, is
/// reported as malformed; and nothing else is reported so.
pub proof fn lemma_malformed_override(tokens: Seq<TokenView>)
    ensures
        field_override_of(tokens) == Err::<FieldStrategyView, MorphErrorView>(
            MorphErrorView::MalformedOverrideSyntax,
        ) <==> {
            ||| !has_keyword_shape(tokens)
            ||| (tokens[0]->Ident_0 == "transform"@ && !(tokens.len() == 3 && is_string(tokens[2])))
            ||| (tokens[0]->Ident_0 == "select"@ && !(tokens.len() == 3 && tokens[2] is Ident))
        },
{
    reveal_strlit("select");
    reveal_strlit("transform");
    assert("select"@.len() != "transform"@.len());
}

/// An override is accepted exactly when the annotation reads
/// `select = identifier` or `transform = "text"` with nothing after the
/// value, and the strategy holds that identifier or that text; no
/// annotation gives the default strategy.
pub proof fn lemma_override_accepts(tokens: Seq<TokenView>)
    ensures
        field_override_of(tokens) is Ok <==> {
            &&& tokens.len() == 3
            &&& tokens[1] == TokenView::Punct("="@)
            &&& {
                ||| tokens[0] == TokenView::Ident("select"@) && tokens[2] is Ident
                ||| tokens[0] == TokenView::Ident("transform"@) && is_string(tokens[2])
            }
        },
        field_override_of(tokens) matches Ok(FieldStrategyView::Select(name)) ==> tokens[0]
            == TokenView::Ident("select"@) && tokens[2] == TokenView::Ident(name),
        field_override_of(tokens) matches Ok(FieldStrategyView::Transform(name)) ==> tokens[0]
            == TokenView::Ident("transform"@) && is_string(tokens[2]) && string_contents(tokens[2])
            == name,
        !(field_override_of(tokens) matches Ok(FieldStrategyView::Default)),
{
    reveal_strlit("select");
    reveal_strlit("transform");
    assert("select"@.len() != "transform"@.len());
}

} // verus!
