//! Resolving every field's strategy and stripping the overrides.

use vstd::prelude::*;
use crate::model::{
    attribute_views, field_views, AttrBody, AttrBodyView, Attribute, AttributeView,
    FieldDeclaration, FieldView, TargetStruct, TargetStructView,
};
use crate::parse::{
    field_override_from_tokens, field_override_of, override_outcome, reads_as,
    source_reference_from_tokens, source_reference_of, FieldStrategy, FieldStrategyView,
    MorphError, MorphErrorView,
};
use crate::token::{token_views, Token, TokenView};

verus! {

/// Whether an attribute is a field override: its path is the single word
/// `morph_field`.
pub open spec fn is_override(attr: AttributeView) -> bool {
    attr.path == "morph_field"@
}

/// The first override among a field's attributes, if there is one.
pub open spec fn first_override(attrs: Seq<AttributeView>) -> Option<AttributeView>
    decreases attrs.len(),
{
    if attrs.len() == 0 {
        None
    } else if is_override(attrs[0]) {
        Some(attrs[0])
    } else {
        first_override(attrs.drop_first())
    }
}

/// What the tokens of an override ask for, once the name of a function has
/// been looked at: a `transform` string that is not exactly one identifier
/// cannot be called, and is malformed.
pub open spec fn strategy_of_tokens(tokens: Seq<TokenView>) -> Result<
    FieldStrategyView,
    MorphErrorView,
> {
    match field_override_of(tokens) {
        Ok(FieldStrategyView::Transform(function)) => if tokens[2] is Name {
            Ok(FieldStrategyView::Transform(function))
        } else {
            Err(MorphErrorView::MalformedOverrideSyntax)
        },
        other => other,
    }
}

/// What an override attribute asks for. Only the form with delimited
/// arguments can be read, and only where the arguments came as tokens.
pub open spec fn override_of_attribute(attr: AttributeView) -> Result<
    FieldStrategyView,
    MorphErrorView,
> {
    match attr.body {
        AttrBodyView::List(_, args) => match args.tokens {
            Some(tokens) => strategy_of_tokens(tokens),
            None => Err(MorphErrorView::MalformedOverrideSyntax),
        },
        _ => Err(MorphErrorView::MalformedOverrideSyntax),
    }
}

/// The strategy of a field: what its first override asks for, or the default
/// where it has none.
pub open spec fn strategy_of(field: FieldView) -> Result<FieldStrategyView, MorphErrorView> {
    match first_override(field.attrs) {
        Some(attr) => override_of_attribute(attr),
        None => Ok(FieldStrategyView::Default),
    }
}

/// The test that stripping keeps an attribute by.
pub open spec fn kept() -> spec_fn(AttributeView) -> bool {
    |attr: AttributeView| !is_override(attr)
}

/// A field without its overrides; everything else as it was, in order.
pub open spec fn stripped_field(field: FieldView) -> FieldView {
    FieldView { attrs: field.attrs.filter(kept()), ..field }
}

/// A struct without the overrides on its fields.
pub open spec fn stripped(target: TargetStructView) -> TargetStructView {
    TargetStructView {
        fields: target.fields.map_values(|f: FieldView| stripped_field(f)),
        ..target
    }
}

/// One initializer of the conversion: the target field and how it is filled.
#[derive(Debug, PartialEq, Eq)]
pub struct Initializer {
    pub field: String,
    pub strategy: FieldStrategy,
}

/// The mathematical value of an [`Initializer`].
pub struct InitializerView {
    pub field: Seq<char>,
    pub strategy: FieldStrategyView,
}

impl View for Initializer {
    type V = InitializerView;

    open spec fn view(&self) -> InitializerView {
        InitializerView { field: self.field@, strategy: self.strategy@ }
    }
}

/// The views of a sequence of initializers.
pub open spec fn initializer_views(inits: Seq<Initializer>) -> Seq<InitializerView> {
    inits.map_values(|i: Initializer| i@)
}

/// The conversion from the source type to the target type: one initializer
/// per target field, in declaration order.
#[derive(Debug, PartialEq, Eq)]
pub struct ConversionRoutine {
    pub source: String,
    pub target: String,
    pub initializers: Vec<Initializer>,
}

/// The mathematical value of a [`ConversionRoutine`].
pub struct RoutineView {
    pub source: Seq<char>,
    pub target: Seq<char>,
    pub initializers: Seq<InitializerView>,
}

impl View for ConversionRoutine {
    type V = RoutineView;

    open spec fn view(&self) -> RoutineView {
        RoutineView {
            source: self.source@,
            target: self.target@,
            initializers: initializer_views(self.initializers@),
        }
    }
}

/// What synthesis hands out: the cleaned struct and the conversion.
#[derive(Debug, PartialEq, Eq)]
pub struct Synthesis {
    pub cleaned: TargetStruct,
    pub routine: ConversionRoutine,
}

/// The mathematical value of a [`Synthesis`].
pub struct SynthesisView {
    pub cleaned: TargetStructView,
    pub routine: RoutineView,
}

impl View for Synthesis {
    type V = SynthesisView;

    open spec fn view(&self) -> SynthesisView {
        SynthesisView { cleaned: self.cleaned@, routine: self.routine@ }
    }
}

/// A rejected annotation and where it stands.
#[derive(Debug, PartialEq, Eq)]
pub struct Diagnostic {
    pub error: MorphError,
    /// The index of the field whose annotation was rejected; `None` for the
    /// struct-level annotation.
    pub field: Option<usize>,
}

/// The mathematical value of a [`Diagnostic`].
pub struct DiagnosticView {
    pub error: MorphErrorView,
    pub field: Option<int>,
}

impl View for Diagnostic {
    type V = DiagnosticView;

    open spec fn view(&self) -> DiagnosticView {
        DiagnosticView {
            error: self.error@,
            field: match self.field {
                Some(i) => Some(i as int),
                None => None,
            },
        }
    }
}

/// The view of the outcome of a synthesis.
pub open spec fn synthesis_outcome(r: Result<Synthesis, Diagnostic>) -> Result<
    SynthesisView,
    DiagnosticView,
> {
    match r {
        Ok(s) => Ok(s@),
        Err(d) => Err(d@),
    }
}

/// Whether the strategies of the first `n` fields all resolve.
pub open spec fn resolve_before(fields: Seq<FieldView>, n: int) -> bool {
    forall|j: int| 0 <= j < n && j < fields.len() ==> (#[trigger] strategy_of(fields[j])) is Ok
}

/// The initializers of fields whose strategies all resolve.
pub open spec fn initializers_of(fields: Seq<FieldView>) -> Seq<InitializerView> {
    Seq::new(
        fields.len(),
        |i: int| InitializerView { field: fields[i].name, strategy: strategy_of(fields[i])->Ok_0 },
    )
}

/// The successful result for a struct whose source type is `source` and whose
/// strategies all resolve: the struct without its overrides, and the
/// conversion with one initializer per field, in declaration order.
pub open spec fn synthesized(source: Seq<char>, target: TargetStructView) -> SynthesisView {
    SynthesisView {
        cleaned: stripped(target),
        routine: RoutineView {
            source: source,
            target: target.name,
            initializers: initializers_of(target.fields),
        },
    }
}

/// Whether `outcome` is what synthesis owes for these inputs.
///
/// A rejected source reference is reported before any field is looked at.
/// Otherwise the first field, in declaration order, whose override is
/// rejected is reported with its index and its error. Where there is none,
/// the outcome is [`synthesized`]. Exactly one outcome meets this for any
/// inputs.
pub open spec fn is_synthesis_of(
    args: Seq<TokenView>,
    target: TargetStructView,
    outcome: Result<SynthesisView, DiagnosticView>,
) -> bool {
    match source_reference_of(args) {
        Err(e) => outcome == Err::<SynthesisView, DiagnosticView>(
            DiagnosticView { error: e, field: None },
        ),
        Ok(source) => match outcome {
            Err(d) => {
                &&& d.field is Some
                &&& 0 <= d.field->Some_0 < target.fields.len()
                &&& resolve_before(target.fields, d.field->Some_0)
                &&& strategy_of(target.fields[d.field->Some_0]) == Err::<
                    FieldStrategyView,
                    MorphErrorView,
                >(d.error)
            },
            Ok(s) => {
                &&& resolve_before(target.fields, target.fields.len() as int)
                &&& s == synthesized(source, target)
            },
        },
    }
}

/// Reads a strategy from the tokens of an override and looks at the name of
/// the function, if it names one.
pub fn strategy_from_tokens(tokens: &Vec<Token>) -> (r: Result<FieldStrategy, MorphError>)
    ensures
        override_outcome(r) == strategy_of_tokens(token_views(tokens@)),
{
    match field_override_from_tokens(tokens) {
        Ok(FieldStrategy::Transform(function)) => {
            assert(tokens@.len() == 3);
            match &tokens[2] {
                Token::Name(_) => Ok(FieldStrategy::Transform(function)),
                _ => Err(MorphError::MalformedOverrideSyntax),
            }
        },
        other => other,
    }
}

/// Resolves the strategy of one field.
pub fn resolve_strategy(field: &FieldDeclaration) -> (r: Result<FieldStrategy, MorphError>)
    ensures
        override_outcome(r) == strategy_of(field@),
{
    let ghost all = attribute_views(field.attrs@);
    let mut i: usize = 0;
    proof {
        assert(all.skip(0) =~= all);
    }
    while i < field.attrs.len()
        invariant
            i <= field.attrs@.len(),
            all == attribute_views(field.attrs@),
            first_override(all) == first_override(all.skip(i as int)),
        decreases field.attrs@.len() - i,
    {
        let attr = &field.attrs[i];
        proof {
            assert(all.skip(i as int)[0] == attr@);
            assert(all.skip(i as int).drop_first() =~= all.skip(i as int + 1));
        }
        if reads_as(&attr.path, "morph_field") {
            return match &attr.body {
                AttrBody::List(_, args) => match &args.tokens {
                    Some(tokens) => strategy_from_tokens(tokens),
                    None => Err(MorphError::MalformedOverrideSyntax),
                },
                _ => Err(MorphError::MalformedOverrideSyntax),
            };
        }
        i = i + 1;
    }
    Ok(FieldStrategy::Default)
}

/// Copies a field without its overrides.
pub fn strip_field(field: &FieldDeclaration) -> (r: FieldDeclaration)
    ensures
        r@ == stripped_field(field@),
{
    let ghost all = attribute_views(field.attrs@);
    let mut attrs: Vec<Attribute> = Vec::new();
    let mut i: usize = 0;
    proof {
        reveal(Seq::filter);
        assert(all.take(0).filter(kept()) =~= attribute_views(attrs@));
    }
    while i < field.attrs.len()
        invariant
            i <= field.attrs@.len(),
            all == attribute_views(field.attrs@),
            attribute_views(attrs@) == all.take(i as int).filter(kept()),
        decreases field.attrs@.len() - i,
    {
        let attr = &field.attrs[i];
        let ghost before = attribute_views(attrs@);
        proof {
            reveal(Seq::filter);
            assert(all.take(i as int + 1).drop_last() =~= all.take(i as int));
            assert(all.take(i as int + 1).last() == attr@);
        }
        if !reads_as(&attr.path, "morph_field") {
            attrs.push(attr.clone());
            proof {
                assert(attribute_views(attrs@) =~= before.push(attr@));
            }
        }
        i = i + 1;
    }
    proof {
        assert(all.take(i as int) =~= all);
    }
    FieldDeclaration {
        attrs,
        vis: field.vis.clone(),
        name: field.name.clone(),
        ty: field.ty.clone(),
    }
}

/// Copies a struct without the overrides on its fields.
pub fn strip_overrides(target: &TargetStruct) -> (r: TargetStruct)
    ensures
        r@ == stripped(target@),
{
    let mut fields: Vec<FieldDeclaration> = Vec::new();
    let mut i: usize = 0;
    while i < target.fields.len()
        invariant
            i <= target.fields@.len(),
            fields@.len() == i,
            forall|j: int| 0 <= j < i ==> (#[trigger] fields@[j])@ == stripped_field(target.fields@[j]@),
        decreases target.fields@.len() - i,
    {
        let f = strip_field(&target.fields[i]);
        fields.push(f);
        i = i + 1;
    }
    proof {
        assert(field_views(fields@) =~= stripped(target@).fields);
    }
    TargetStruct {
        prefix: target.prefix.clone(),
        name: target.name.clone(),
        generics: target.generics.clone(),
        fields,
    }
}

/// Produces the cleaned struct and the conversion for `target`, whose
/// struct-level annotation holds the tokens `args`, or reports the first
/// rejected annotation.
pub fn synthesize(args: &Vec<Token>, target: &TargetStruct) -> (r: Result<Synthesis, Diagnostic>)
    ensures
        is_synthesis_of(token_views(args@), target@, synthesis_outcome(r)),
{
    let source = match source_reference_from_tokens(args) {
        Ok(source) => source,
        Err(error) => { return Err(Diagnostic { error, field: None }); },
    };
    let ghost fields = target@.fields;
    let mut initializers: Vec<Initializer> = Vec::new();
    let mut i: usize = 0;
    while i < target.fields.len()
        invariant
            i <= target.fields@.len(),
            fields == field_views(target.fields@),
            initializers@.len() == i,
            source_reference_of(token_views(args@)) == Ok::<Seq<char>, MorphErrorView>(source@),
            resolve_before(fields, i as int),
            forall|j: int|
                0 <= j < i ==> (#[trigger] initializers@[j])@ == initializers_of(fields)[j],
        decreases target.fields@.len() - i,
    {
        let field = &target.fields[i];
        assert(fields[i as int] == field@);
        match resolve_strategy(field) {
            Ok(strategy) => {
                initializers.push(Initializer { field: field.name.clone(), strategy });
            },
            Err(error) => {
                return Err(Diagnostic { error, field: Some(i) });
            },
        }
        i = i + 1;
    }
    proof {
        assert(initializer_views(initializers@) =~= initializers_of(fields));
    }
    let cleaned = strip_overrides(target);
    Ok(Synthesis { cleaned, routine: ConversionRoutine { source, target: target.name.clone(), initializers } })
}

} // verus!
