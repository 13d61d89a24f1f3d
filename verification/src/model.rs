//! The plain description of an annotated target struct.
//!
//! Types, visibilities and the arguments of attributes are carried as text
//! and never looked into. The arguments of a list attribute are carried as
//! tokens too: that is how a field override is read.

use vstd::prelude::*;
use crate::token::{
    are_classified, clone_tokens, is_shallow, token_views, tokenize, Token, TokenView,
};

verus! {

/// The brackets round the arguments of a list attribute.
#[derive(Clone, Copy, Debug, PartialEq, Eq, Structural)]
pub enum Delimiter {
    Parenthesis,
    Brace,
    Bracket,
}

/// The arguments of a list attribute: as written, for writing them out
/// again, and as tokens, for reading them.
#[derive(Debug, PartialEq, Eq)]
pub struct Arguments {
    pub text: String,
    /// `None` where the text was not turned into tokens.
    pub tokens: Option<Vec<Token>>,
}

/// The mathematical value of [`Arguments`].
pub struct ArgumentsView {
    pub text: Seq<char>,
    pub tokens: Option<Seq<TokenView>>,
}

impl View for Arguments {
    type V = ArgumentsView;

    open spec fn view(&self) -> ArgumentsView {
        ArgumentsView {
            text: self.text@,
            tokens: match self.tokens {
                Some(tokens) => Some(token_views(tokens@)),
                None => None,
            },
        }
    }
}

impl Clone for Arguments {
    fn clone(&self) -> (r: Self)
        ensures
            r@ == self@,
    {
        let tokens = match &self.tokens {
            Some(tokens) => Some(clone_tokens(tokens)),
            None => None,
        };
        Arguments { text: self.text.clone(), tokens }
    }
}

impl Arguments {
    /// The arguments written as `text`, with the tokens that lexing the text
    /// gives; without tokens where it gives none.
    pub fn read(text: &str) -> (r: Arguments)
        ensures
            r@.text == text@,
            !is_shallow(text@) ==> r.tokens is None,
            r.tokens matches Some(tokens) ==> are_classified(token_views(tokens@)),
    {
        Arguments { text: text.to_owned(), tokens: tokenize(text) }
    }
}

/// What follows the path of an attribute.
#[derive(Debug, PartialEq, Eq)]
pub enum AttrBody {
    /// Nothing: `#[path]`.
    Word,
    /// Delimited arguments: `#[path(arguments)]`, or with other brackets.
    List(Delimiter, Arguments),
    /// A value: `#[path = value]`; holds the value.
    Value(String),
}

/// The mathematical value of an [`AttrBody`].
pub enum AttrBodyView {
    Word,
    List(Delimiter, ArgumentsView),
    Value(Seq<char>),
}

impl View for AttrBody {
    type V = AttrBodyView;

    open spec fn view(&self) -> AttrBodyView {
        match self {
            AttrBody::Word => AttrBodyView::Word,
            AttrBody::List(d, args) => AttrBodyView::List(*d, args@),
            AttrBody::Value(s) => AttrBodyView::Value(s@),
        }
    }
}

impl Clone for AttrBody {
    fn clone(&self) -> (r: Self)
        ensures
            r@ == self@,
    {
        match self {
            AttrBody::Word => AttrBody::Word,
            AttrBody::List(d, args) => AttrBody::List(*d, args.clone()),
            AttrBody::Value(s) => AttrBody::Value(s.clone()),
        }
    }
}

/// One attribute on a field.
#[derive(Debug, PartialEq, Eq)]
pub struct Attribute {
    pub path: String,
    pub body: AttrBody,
}

/// The mathematical value of an [`Attribute`].
pub struct AttributeView {
    pub path: Seq<char>,
    pub body: AttrBodyView,
}

impl View for Attribute {
    type V = AttributeView;

    open spec fn view(&self) -> AttributeView {
        AttributeView { path: self.path@, body: self.body@ }
    }
}

impl Clone for Attribute {
    fn clone(&self) -> (r: Self)
        ensures
            r@ == self@,
    {
        Attribute { path: self.path.clone(), body: self.body.clone() }
    }
}

/// The views of a sequence of attributes.
pub open spec fn attribute_views(attrs: Seq<Attribute>) -> Seq<AttributeView> {
    attrs.map_values(|a: Attribute| a@)
}

/// One named field of the target struct.
#[derive(Debug, PartialEq, Eq)]
pub struct FieldDeclaration {
    pub attrs: Vec<Attribute>,
    /// The visibility as written; empty for a private field.
    pub vis: String,
    pub name: String,
    /// The declared type as written.
    pub ty: String,
}

/// The mathematical value of a [`FieldDeclaration`].
pub struct FieldView {
    pub attrs: Seq<AttributeView>,
    pub vis: Seq<char>,
    pub name: Seq<char>,
    pub ty: Seq<char>,
}

impl View for FieldDeclaration {
    type V = FieldView;

    open spec fn view(&self) -> FieldView {
        FieldView {
            attrs: attribute_views(self.attrs@),
            vis: self.vis@,
            name: self.name@,
            ty: self.ty@,
        }
    }
}

/// The views of a sequence of fields.
pub open spec fn field_views(fields: Seq<FieldDeclaration>) -> Seq<FieldView> {
    fields.map_values(|f: FieldDeclaration| f@)
}

/// A struct with named fields.
#[derive(Debug, PartialEq, Eq)]
pub struct TargetStruct {
    /// What stands before the word `struct`: outer attributes and the
    /// visibility, as written.
    pub prefix: String,
    pub name: String,
    /// What stands between the name and the fields, as written.
    pub generics: String,
    pub fields: Vec<FieldDeclaration>,
}

/// The mathematical value of a [`TargetStruct`].
pub struct TargetStructView {
    pub prefix: Seq<char>,
    pub name: Seq<char>,
    pub generics: Seq<char>,
    pub fields: Seq<FieldView>,
}

impl View for TargetStruct {
    type V = TargetStructView;

    open spec fn view(&self) -> TargetStructView {
        TargetStructView {
            prefix: self.prefix@,
            name: self.name@,
            generics: self.generics@,
            fields: field_views(self.fields@),
        }
    }
}

} // verus!
