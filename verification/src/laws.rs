//! What holds of synthesis for every struct.

use vstd::prelude::*;
use crate::model::{AttrBodyView, AttributeView, FieldView, TargetStructView};
use crate::parse::{field_override_of, source_reference_of, FieldStrategyView, MorphErrorView};
use crate::render::initializer_text;
use crate::synth::{
    first_override, initializers_of, is_override, is_synthesis_of, kept, resolve_before,
    strategy_of, stripped, stripped_field, synthesized, DiagnosticView, InitializerView,
    SynthesisView,
};
use crate::token::TokenView;

verus! {

/// What an initializer stands for. `source` holds the source value's fields
/// by name and `functions` the functions in scope by name, each from the whole
/// source value; cloning is taken to give the value back.
pub open spec fn field_value<V>(
    init: InitializerView,
    source: Map<Seq<char>, V>,
    functions: Map<Seq<char>, spec_fn(Map<Seq<char>, V>) -> V>,
) -> V {
    match init.strategy {
        FieldStrategyView::Default => source[init.field],
        FieldStrategyView::Select(name) => source[name],
        FieldStrategyView::Transform(function) => (functions[function])(source),
    }
}

/// Whether none of the attributes is a field override.
pub open spec fn override_free(attrs: Seq<AttributeView>) -> bool {
    forall|k: int| 0 <= k < attrs.len() ==> !is_override(#[trigger] attrs[k])
}

/// Among attributes without an override there is no first override.
pub proof fn lemma_override_free_has_no_first(attrs: Seq<AttributeView>)
    requires
        override_free(attrs),
    ensures
        first_override(attrs) is None,
    decreases attrs.len(),
{
    if attrs.len() > 0 {
        assert(!is_override(attrs[0]));
        assert forall|k: int| 0 <= k < attrs.drop_first().len() implies !is_override(
            #[trigger] attrs.drop_first()[k],
        ) by {
            assert(attrs.drop_first()[k] == attrs[k + 1]);
        }
        lemma_override_free_has_no_first(attrs.drop_first());
    }
}

/// Stripping leaves attributes without an override as they are.
pub proof fn lemma_override_free_is_kept(attrs: Seq<AttributeView>)
    requires
        override_free(attrs),
    ensures
        attrs.filter(kept()) == attrs,
    decreases attrs.len(),
{
    reveal(Seq::filter);
    if attrs.len() > 0 {
        assert(!is_override(attrs[attrs.len() - 1]));
        assert forall|k: int| 0 <= k < attrs.drop_last().len() implies !is_override(
            #[trigger] attrs.drop_last()[k],
        ) by {
            assert(attrs.drop_last()[k] == attrs[k]);
        }
        lemma_override_free_is_kept(attrs.drop_last());
        assert(attrs.drop_last().push(attrs.last()) =~= attrs);
    } else {
        assert(attrs.filter(kept()) =~= attrs);
    }
}

/// A struct without field overrides: every strategy resolves, every field is
/// filled by cloning the source field of its own name, so that it stands for
/// that field's value, and the struct comes out of stripping as it went in. With a source reference that is accepted,
/// synthesis succeeds with exactly that.
pub proof fn lemma_plain_struct_maps_by_name<V>(
    args: Seq<TokenView>,
    target: TargetStructView,
    source: Map<Seq<char>, V>,
    functions: Map<Seq<char>, spec_fn(Map<Seq<char>, V>) -> V>,
)
    requires
        forall|i: int| 0 <= i < target.fields.len() ==> override_free(#[trigger] target.fields[i].attrs),
    ensures
        resolve_before(target.fields, target.fields.len() as int),
        source_reference_of(args) matches Ok(source) ==> is_synthesis_of(
            args,
            target,
            Ok(synthesized(source, target)),
        ),
        initializers_of(target.fields).len() == target.fields.len(),
        forall|i: int|
            0 <= i < target.fields.len() ==> {
                &&& (#[trigger] initializers_of(target.fields)[i]) == (InitializerView {
                    field: target.fields[i].name,
                    strategy: FieldStrategyView::Default,
                })
                &&& initializer_text(initializers_of(target.fields)[i]) == target.fields[i].name
                    + ": source."@ + target.fields[i].name + ".clone()"@
                &&& field_value(initializers_of(target.fields)[i], source, functions)
                    == source[target.fields[i].name]
            },
        stripped(target) == target,
{
    assert forall|i: int| 0 <= i < target.fields.len() implies {
        &&& strategy_of(#[trigger] target.fields[i]) == Ok::<FieldStrategyView, MorphErrorView>(
            FieldStrategyView::Default,
        )
        &&& stripped_field(target.fields[i]) == target.fields[i]
    } by {
        lemma_override_free_has_no_first(target.fields[i].attrs);
        lemma_override_free_is_kept(target.fields[i].attrs);
    }
    assert(stripped(target).fields =~= target.fields);
}

/// A field whose first override reads `select = name` is filled by cloning
/// the source field `name`, and stands for that field's value, whatever the
/// target field itself is called.
pub proof fn lemma_select_clones_named_field<V>(
    field: FieldView,
    args: Seq<TokenView>,
    name: Seq<char>,
    source: Map<Seq<char>, V>,
    functions: Map<Seq<char>, spec_fn(Map<Seq<char>, V>) -> V>,
)
    requires
        first_override(field.attrs) matches Some(attr) && attr.body matches AttrBodyView::List(
            _,
            arguments,
        ) && arguments.tokens == Some(args),
        args == seq![TokenView::Ident("select"@), TokenView::Punct("="@), TokenView::Ident(name)],
    ensures
        strategy_of(field) == Ok::<FieldStrategyView, MorphErrorView>(
            FieldStrategyView::Select(name),
        ),
        initializer_text(
            InitializerView { field: field.name, strategy: strategy_of(field)->Ok_0 },
        ) == field.name + ": source."@ + name + ".clone()"@,
        field_value(
            InitializerView { field: field.name, strategy: strategy_of(field)->Ok_0 },
            source,
            functions,
        ) == source[name],
{
    reveal_strlit("select");
    reveal_strlit("transform");
    assert("select"@.len() != "transform"@.len());
    assert(args[0] == TokenView::Ident("select"@));
    assert(args[1] == TokenView::Punct("="@));
    assert(args[2] == TokenView::Ident(name));
}

/// A field whose first override reads `transform = "function"`, the string
/// being exactly one identifier, is filled by
/// one call of `function` with a reference to the whole source value, and
/// stands for what `function` gives on that value.
pub proof fn lemma_transform_calls_function<V>(
    field: FieldView,
    args: Seq<TokenView>,
    function: Seq<char>,
    source: Map<Seq<char>, V>,
    functions: Map<Seq<char>, spec_fn(Map<Seq<char>, V>) -> V>,
)
    requires
        first_override(field.attrs) matches Some(attr) && attr.body matches AttrBodyView::List(
            _,
            arguments,
        ) && arguments.tokens == Some(args),
        args == seq![
            TokenView::Ident("transform"@),
            TokenView::Punct("="@),
            TokenView::Name(function),
        ],
    ensures
        strategy_of(field) == Ok::<FieldStrategyView, MorphErrorView>(
            FieldStrategyView::Transform(function),
        ),
        initializer_text(
            InitializerView { field: field.name, strategy: strategy_of(field)->Ok_0 },
        ) == field.name + ": "@ + function + "(&source)"@,
        field_value(
            InitializerView { field: field.name, strategy: strategy_of(field)->Ok_0 },
            source,
            functions,
        ) == (functions[function])(source),
{
}

/// The first override among the attributes is one of them, is an override,
/// and no override stands before it.
pub proof fn lemma_first_override_is_first(attrs: Seq<AttributeView>)
    ensures
        first_override(attrs) is None <==> override_free(attrs),
        first_override(attrs) matches Some(attr) ==> exists|k: int|
            0 <= k < attrs.len() && attrs[k] == attr && is_override(attr) && override_free(
                attrs.take(k),
            ),
    decreases attrs.len(),
{
    if attrs.len() > 0 {
        if is_override(attrs[0]) {
            assert(attrs[0] == first_override(attrs)->Some_0 && override_free(attrs.take(0)));
        } else {
            let rest = attrs.drop_first();
            lemma_first_override_is_first(rest);
            if first_override(rest) is Some {
                let k = choose|k: int|
                    0 <= k < rest.len() && rest[k] == first_override(rest)->Some_0 && override_free(
                        rest.take(k),
                    );
                assert forall|j: int| 0 <= j < attrs.take(k + 1).len() implies !is_override(
                    #[trigger] attrs.take(k + 1)[j],
                ) by {
                    if j > 0 {
                        assert(attrs.take(k + 1)[j] == rest.take(k)[j - 1]);
                    }
                }
                assert(attrs[k + 1] == rest[k]);
            } else {
                assert forall|j: int| 0 <= j < attrs.len() implies !is_override(
                    #[trigger] attrs[j],
                ) by {
                    if j > 0 {
                        assert(attrs[j] == rest[j - 1]);
                    }
                }
            }
        }
    }
}

/// No field override is left on a stripped struct, every other attribute of
/// a field is still on it, and nothing else about the struct has changed.
pub proof fn lemma_stripping_removes_only_overrides(target: TargetStructView)
    ensures
        stripped(target).prefix == target.prefix,
        stripped(target).name == target.name,
        stripped(target).generics == target.generics,
        stripped(target).fields.len() == target.fields.len(),
        forall|i: int|
            0 <= i < target.fields.len() ==> {
                &&& (#[trigger] stripped(target).fields[i]).vis == target.fields[i].vis
                &&& stripped(target).fields[i].name == target.fields[i].name
                &&& stripped(target).fields[i].ty == target.fields[i].ty
                &&& stripped(target).fields[i].attrs == target.fields[i].attrs.filter(kept())
                &&& override_free(stripped(target).fields[i].attrs)
            },
        forall|i: int, k: int|
            0 <= i < target.fields.len() && 0 <= k < target.fields[i].attrs.len() && !is_override(
                target.fields[i].attrs[k],
            ) ==> stripped(target).fields[i].attrs.contains(#[trigger] target.fields[i].attrs[k]),
{
    assert forall|i: int| 0 <= i < target.fields.len() implies override_free(
        (#[trigger] stripped(target).fields[i]).attrs,
    ) by {
        let attrs = target.fields[i].attrs;
        assert forall|k: int| 0 <= k < attrs.filter(kept()).len() implies !is_override(
            #[trigger] attrs.filter(kept())[k],
        ) by {
            attrs.lemma_filter_pred(kept(), k);
        }
    }
    assert forall|i: int, k: int|
        0 <= i < target.fields.len() && 0 <= k < target.fields[i].attrs.len() && !is_override(
            target.fields[i].attrs[k],
        ) implies stripped(target).fields[i].attrs.contains(
        #[trigger] target.fields[i].attrs[k],
    ) by {
        target.fields[i].attrs.lemma_filter_contains(kept(), k);
    }
}

/// Stripping a stripped struct changes nothing.
pub proof fn lemma_stripping_is_idempotent(target: TargetStructView)
    ensures
        stripped(stripped(target)) == stripped(target),
{
    lemma_stripping_removes_only_overrides(target);
    assert forall|i: int| 0 <= i < target.fields.len() implies stripped_field(
        #[trigger] stripped(target).fields[i],
    ) == stripped(target).fields[i] by {
        lemma_override_free_is_kept(stripped(target).fields[i].attrs);
    }
    assert(stripped(stripped(target)).fields =~= stripped(target).fields);
}

/// A struct that synthesis accepts and then strips is accepted again, with
/// every field filled by name.
pub proof fn lemma_stripped_struct_is_plain(target: TargetStructView)
    ensures
        resolve_before(stripped(target).fields, stripped(target).fields.len() as int),
        forall|i: int|
            0 <= i < target.fields.len() ==> strategy_of(#[trigger] stripped(target).fields[i]) == Ok::<
                FieldStrategyView,
                MorphErrorView,
            >(FieldStrategyView::Default),
{
    lemma_stripping_removes_only_overrides(target);
    lemma_plain_struct_maps_by_name::<int>(Seq::empty(), stripped(target), Map::empty(), Map::empty());
    assert forall|i: int| 0 <= i < target.fields.len() implies strategy_of(
        #[trigger] stripped(target).fields[i],
    ) == Ok::<FieldStrategyView, MorphErrorView>(FieldStrategyView::Default) by {
        lemma_override_free_has_no_first(stripped(target).fields[i].attrs);
    }
}

/// Synthesis has one outcome: two outcomes that are both owed for the same
/// inputs are the same.
pub proof fn lemma_synthesis_is_determined(
    args: Seq<TokenView>,
    target: TargetStructView,
    first: Result<SynthesisView, DiagnosticView>,
    second: Result<SynthesisView, DiagnosticView>,
)
    requires
        is_synthesis_of(args, target, first),
        is_synthesis_of(args, target, second),
    ensures
        first == second,
{
    if source_reference_of(args) is Ok {
        match (first, second) {
            (Err(d), Err(e)) => {
                let i = d.field->Some_0;
                let j = e.field->Some_0;
                if i < j {
                    assert(strategy_of(target.fields[i]) is Ok);
                }
                if j < i {
                    assert(strategy_of(target.fields[j]) is Ok);
                }
                assert(d.field == e.field);
            },
            (Err(d), Ok(_)) => {
                assert(strategy_of(target.fields[d.field->Some_0]) is Ok);
            },
            (Ok(_), Err(e)) => {
                assert(strategy_of(target.fields[e.field->Some_0]) is Ok);
            },
            (Ok(_), Ok(_)) => {},
        }
    }
}

/// A field whose first override reads `transform = "text"` with a string
/// that is not exactly one identifier is rejected by synthesis, though the
/// annotation itself is well formed.
pub proof fn lemma_transform_needs_a_name(field: FieldView, args: Seq<TokenView>, text: Seq<char>)
    requires
        first_override(field.attrs) matches Some(attr) && attr.body matches AttrBodyView::List(
            _,
            arguments,
        ) && arguments.tokens == Some(args),
        args == seq![TokenView::Ident("transform"@), TokenView::Punct("="@), TokenView::Str(text)],
    ensures
        field_override_of(args) == Ok::<FieldStrategyView, MorphErrorView>(
            FieldStrategyView::Transform(text),
        ),
        strategy_of(field) == Err::<FieldStrategyView, MorphErrorView>(
            MorphErrorView::MalformedOverrideSyntax,
        ),
{
}

} // verus!
