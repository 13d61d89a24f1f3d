//! Writing the result out as source text, and the two entry points.

use vstd::prelude::*;
use crate::model::{
    attribute_views, field_views, AttrBody, AttrBodyView, Attribute, AttributeView, Delimiter,
    FieldDeclaration, FieldView, TargetStruct, TargetStructView,
};
use crate::parse::{
    field_override_from_tokens, field_override_of, source_reference_of, FieldStrategy,
    FieldStrategyView, MorphError, MorphErrorView,
};
use crate::token::{is_shallow, token_views, tokenize, Token, TokenView};
use crate::synth::{
    initializer_views, is_synthesis_of, resolve_before, synthesize, synthesized,
    ConversionRoutine, Diagnostic, DiagnosticView, Initializer, InitializerView, RoutineView,
    Synthesis, SynthesisView,
};

verus! {

/// `String::push_str` appends the characters of `string` to `s`.
pub assume_specification[ String::push_str ](s: &mut String, string: &str)
    ensures
        final(s)@ == old(s)@ + string@,
;

/// The text of one initializer.
pub open spec fn initializer_text(init: InitializerView) -> Seq<char> {
    match init.strategy {
        FieldStrategyView::Default => init.field + ": source."@ + init.field + ".clone()"@,
        FieldStrategyView::Select(name) => init.field + ": source."@ + name + ".clone()"@,
        FieldStrategyView::Transform(function) => init.field + ": "@ + function + "(&source)"@,
    }
}

/// The text of the initializers in order, each followed by a comma.
pub open spec fn initializers_text(inits: Seq<InitializerView>) -> Seq<char>
    decreases inits.len(),
{
    if inits.len() == 0 {
        Seq::empty()
    } else {
        initializers_text(inits.drop_last()) + initializer_text(inits.last()) + ", "@
    }
}

/// The text of the conversion: an `impl From<source> for target` whose
/// `from` builds the target as a struct literal.
pub open spec fn routine_text(routine: RoutineView) -> Seq<char> {
    "impl From<"@ + routine.source + "> for "@ + routine.target + " { fn from(source: "@
        + routine.source + ") -> Self { Self { "@ + initializers_text(routine.initializers)
        + "} } }"@
}

/// The opening bracket of a delimiter.
pub open spec fn opening(delimiter: Delimiter) -> Seq<char> {
    match delimiter {
        Delimiter::Parenthesis => "("@,
        Delimiter::Brace => "{"@,
        Delimiter::Bracket => "["@,
    }
}

/// The closing bracket of a delimiter.
pub open spec fn closing(delimiter: Delimiter) -> Seq<char> {
    match delimiter {
        Delimiter::Parenthesis => ")"@,
        Delimiter::Brace => "}"@,
        Delimiter::Bracket => "]"@,
    }
}

/// The text of one attribute: its path and, as they were written, its
/// brackets and arguments or its value.
pub open spec fn attribute_text(attr: AttributeView) -> Seq<char> {
    match attr.body {
        AttrBodyView::Word => "#["@ + attr.path + "] "@,
        AttrBodyView::List(delimiter, args) => "#["@ + attr.path + opening(delimiter) + args.text
            + closing(delimiter) + "] "@,
        AttrBodyView::Value(value) => "#["@ + attr.path + " = "@ + value + "] "@,
    }
}

/// The text of the attributes in order.
pub open spec fn attributes_text(attrs: Seq<AttributeView>) -> Seq<char>
    decreases attrs.len(),
{
    if attrs.len() == 0 {
        Seq::empty()
    } else {
        attributes_text(attrs.drop_last()) + attribute_text(attrs.last())
    }
}

/// The text of one field declaration, followed by a comma.
pub open spec fn field_text(field: FieldView) -> Seq<char> {
    attributes_text(field.attrs) + field.vis + " "@ + field.name + ": "@ + field.ty + ", "@
}

/// The text of the field declarations in order.
pub open spec fn fields_text(fields: Seq<FieldView>) -> Seq<char>
    decreases fields.len(),
{
    if fields.len() == 0 {
        Seq::empty()
    } else {
        fields_text(fields.drop_last()) + field_text(fields.last())
    }
}

/// The text of a struct declaration.
pub open spec fn struct_text(target: TargetStructView) -> Seq<char> {
    target.prefix + " struct "@ + target.name + target.generics + " { "@ + fields_text(
        target.fields,
    ) + "}"@
}

/// The text of a synthesis: the struct declaration, then the conversion.
pub open spec fn synthesis_text(synthesis: SynthesisView) -> Seq<char> {
    struct_text(synthesis.cleaned) + " "@ + routine_text(synthesis.routine)
}

/// Appends the text of one initializer.
pub fn write_initializer(out: &mut String, init: &Initializer)
    ensures
        final(out)@ == old(out)@ + initializer_text(init@),
{
    out.push_str(init.field.as_str());
    match &init.strategy {
        FieldStrategy::Default => {
            out.push_str(": source.");
            out.push_str(init.field.as_str());
            out.push_str(".clone()");
        },
        FieldStrategy::Select(name) => {
            out.push_str(": source.");
            out.push_str(name.as_str());
            out.push_str(".clone()");
        },
        FieldStrategy::Transform(function) => {
            out.push_str(": ");
            out.push_str(function.as_str());
            out.push_str("(&source)");
        },
    }
    proof {
        assert(out@ =~= old(out)@ + initializer_text(init@));
    }
}

/// Appends the text of one attribute.
pub fn write_attribute(out: &mut String, attr: &Attribute)
    ensures
        final(out)@ == old(out)@ + attribute_text(attr@),
{
    out.push_str("#[");
    out.push_str(attr.path.as_str());
    match &attr.body {
        AttrBody::Word => {
            out.push_str("] ");
        },
        AttrBody::List(delimiter, args) => {
            match delimiter {
                Delimiter::Parenthesis => out.push_str("("),
                Delimiter::Brace => out.push_str("{"),
                Delimiter::Bracket => out.push_str("["),
            }
            out.push_str(args.text.as_str());
            match delimiter {
                Delimiter::Parenthesis => out.push_str(")"),
                Delimiter::Brace => out.push_str("}"),
                Delimiter::Bracket => out.push_str("]"),
            }
            out.push_str("] ");
        },
        AttrBody::Value(value) => {
            out.push_str(" = ");
            out.push_str(value.as_str());
            out.push_str("] ");
        },
    }
    proof {
        assert(out@ =~= old(out)@ + attribute_text(attr@));
    }
}

/// Appends the text of one field declaration.
pub fn write_field(out: &mut String, field: &FieldDeclaration)
    ensures
        final(out)@ == old(out)@ + field_text(field@),
{
    let ghost attrs = attribute_views(field.attrs@);
    let mut i: usize = 0;
    while i < field.attrs.len()
        invariant
            i <= field.attrs@.len(),
            attrs == attribute_views(field.attrs@),
            out@ == old(out)@ + attributes_text(attrs.take(i as int)),
        decreases field.attrs@.len() - i,
    {
        write_attribute(out, &field.attrs[i]);
        proof {
            assert(attrs.take(i as int + 1).drop_last() =~= attrs.take(i as int));
            assert(attrs.take(i as int + 1).last() == field.attrs@[i as int]@);
            assert(out@ =~= old(out)@ + attributes_text(attrs.take(i as int + 1)));
        }
        i = i + 1;
    }
    proof {
        assert(attrs.take(i as int) =~= attrs);
    }
    out.push_str(field.vis.as_str());
    out.push_str(" ");
    out.push_str(field.name.as_str());
    out.push_str(": ");
    out.push_str(field.ty.as_str());
    out.push_str(", ");
    proof {
        assert(out@ =~= old(out)@ + field_text(field@));
    }
}

impl TargetStruct {
    /// The struct declaration as source text.
    pub fn render(&self) -> (text: String)
        ensures
            text@ == struct_text(self@),
    {
        let ghost fields = field_views(self.fields@);
        let mut out = String::new();
        out.push_str(self.prefix.as_str());
        out.push_str(" struct ");
        out.push_str(self.name.as_str());
        out.push_str(self.generics.as_str());
        out.push_str(" { ");
        let ghost head = out@;
        let mut i: usize = 0;
        while i < self.fields.len()
            invariant
                i <= self.fields@.len(),
                fields == field_views(self.fields@),
                out@ == head + fields_text(fields.take(i as int)),
            decreases self.fields@.len() - i,
        {
            write_field(&mut out, &self.fields[i]);
            proof {
                assert(fields.take(i as int + 1).drop_last() =~= fields.take(i as int));
                assert(fields.take(i as int + 1).last() == self.fields@[i as int]@);
                assert(out@ =~= head + fields_text(fields.take(i as int + 1)));
            }
            i = i + 1;
        }
        proof {
            assert(fields.take(i as int) =~= fields);
        }
        out.push_str("}");
        proof {
            assert(out@ =~= struct_text(self@));
        }
        out
    }
}

impl ConversionRoutine {
    /// The conversion as source text.
    pub fn render(&self) -> (text: String)
        ensures
            text@ == routine_text(self@),
    {
        let ghost inits = initializer_views(self.initializers@);
        let mut out = String::new();
        out.push_str("impl From<");
        out.push_str(self.source.as_str());
        out.push_str("> for ");
        out.push_str(self.target.as_str());
        out.push_str(" { fn from(source: ");
        out.push_str(self.source.as_str());
        out.push_str(") -> Self { Self { ");
        let ghost head = out@;
        let mut i: usize = 0;
        while i < self.initializers.len()
            invariant
                i <= self.initializers@.len(),
                inits == initializer_views(self.initializers@),
                out@ == head + initializers_text(inits.take(i as int)),
            decreases self.initializers@.len() - i,
        {
            write_initializer(&mut out, &self.initializers[i]);
            out.push_str(", ");
            proof {
                assert(inits.take(i as int + 1).drop_last() =~= inits.take(i as int));
                assert(inits.take(i as int + 1).last() == self.initializers@[i as int]@);
                assert(out@ =~= head + initializers_text(inits.take(i as int + 1)));
            }
            i = i + 1;
        }
        proof {
            assert(inits.take(i as int) =~= inits);
        }
        out.push_str("} } }");
        proof {
            assert(out@ =~= routine_text(self@));
        }
        out
    }
}

impl Synthesis {
    /// The cleaned struct declaration followed by the conversion, as source
    /// text.
    pub fn render(&self) -> (text: String)
        ensures
            text@ == synthesis_text(self@),
    {
        let mut out = self.cleaned.render();
        out.push_str(" ");
        let routine = self.routine.render();
        out.push_str(routine.as_str());
        out
    }
}

/// Whether `outcome` is what [`morph`] owes for these inputs: the text of
/// the synthesis, or the diagnostic that synthesis reports.
pub open spec fn is_morph_of(
    args: Seq<TokenView>,
    target: TargetStructView,
    outcome: Result<Seq<char>, DiagnosticView>,
) -> bool {
    match outcome {
        Ok(text) => {
            &&& source_reference_of(args) is Ok
            &&& resolve_before(target.fields, target.fields.len() as int)
            &&& text == synthesis_text(synthesized(source_reference_of(args)->Ok_0, target))
        },
        Err(d) => is_synthesis_of(args, target, Err(d)),
    }
}

/// The view of the outcome of [`morph`].
pub open spec fn morph_outcome(r: Result<String, Diagnostic>) -> Result<Seq<char>, DiagnosticView> {
    match r {
        Ok(text) => Ok(text@),
        Err(d) => Err(d@),
    }
}

/// From the tokens of the struct-level annotation and the annotated struct,
/// the text of the struct without its field overrides followed by the
/// conversion from the source type; or the first rejected annotation.
pub fn morph(attr: &Vec<Token>, item: &TargetStruct) -> (r: Result<String, Diagnostic>)
    ensures
        is_morph_of(token_views(attr@), item@, morph_outcome(r)),
{
    match synthesize(attr, item) {
        Ok(synthesis) => Ok(synthesis.render()),
        Err(d) => Err(d),
    }
}

/// Checks the tokens of a field-level annotation and hands the annotated
/// item back untouched; the annotation itself produces nothing. Every
/// `select = identifier` and every `transform = "text"` passes.
pub fn morph_field(args: &Vec<Token>, input: String) -> (r: Result<String, MorphError>)
    ensures
        match field_override_of(token_views(args@)) {
            Ok(_) => r == Ok::<String, MorphError>(input),
            Err(e) => r is Err && r->Err_0@ == e,
        },
{
    match field_override_from_tokens(args) {
        Ok(_) => Ok(input),
        Err(e) => Err(e),
    }
}

/// [`morph`] on the text of the struct-level annotation: lexes the text and
/// goes on with the tokens. Text that holds too many opening brackets or does not lex is
/// a malformed source reference. What the text lexes to is not fixed here;
/// the outcome is that of [`morph`] on some token list.
pub fn morph_text(attr: &str, item: &TargetStruct) -> (r: Result<String, Diagnostic>)
    ensures
        exists|tokens: Seq<TokenView>| #[trigger] is_morph_of(tokens, item@, morph_outcome(r)),
        !is_shallow(attr@) ==> morph_outcome(r) == Err::<Seq<char>, DiagnosticView>(
            DiagnosticView { error: MorphErrorView::MalformedSourceReference, field: None },
        ),
{
    match tokenize(attr) {
        Some(tokens) => morph(&tokens, item),
        None => {
            let r = Err(Diagnostic { error: MorphError::MalformedSourceReference, field: None });
            assert(is_morph_of(Seq::<TokenView>::empty(), item@, morph_outcome(r)));
            r
        },
    }
}

/// [`morph_field`] on the text of the field-level annotation: lexes the text
/// and goes on with the tokens. Text that holds too many opening brackets or does not lex
/// is malformed. The item comes back untouched or not at all; the outcome is
/// that of [`morph_field`] on some token list.
pub fn morph_field_text(args: &str, input: String) -> (r: Result<String, MorphError>)
    ensures
        r matches Ok(item) ==> item == input,
        exists|tokens: Seq<TokenView>|
            match #[trigger] field_override_of(tokens) {
                Ok(_) => r is Ok,
                Err(e) => r is Err && r->Err_0@ == e,
            },
        !is_shallow(args@) ==> r is Err && r->Err_0@ == MorphErrorView::MalformedOverrideSyntax,
{
    match tokenize(args) {
        Some(tokens) => morph_field(&tokens, input),
        None => {
            assert(field_override_of(Seq::<TokenView>::empty()) == Err::<
                FieldStrategyView,
                MorphErrorView,
            >(MorphErrorView::MalformedOverrideSyntax));
            Err(MorphError::MalformedOverrideSyntax)
        },
    }
}

} // verus!
