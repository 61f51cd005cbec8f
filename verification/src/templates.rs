//! The registry of shader templates and the rendering of one of them.
//!
//! Templates are kept and rendered by the `tera` crate. Nothing here is proved
//! of that crate: each item that is marked as trusted says what is taken on
//! trust.
//!
//! The renderer can panic on templates that compute, and does not return on
//! one that includes itself, so the verified functions render with plain
//! registries only: registries that `registry` made, of sources whose tags
//! write variables, test conditions and loop over lists. What a plain source
//! is, and what stays out of it, is said in [`crate::plain`].

use crate::environment::{is_simple, table, Bindings, Environment, Value, ValueView};
use crate::error::{CompileError, CompileErrorView};
use crate::plain::{is_plain, is_plain_source};
use crate::types::{numbers, signed_numbers};
use vstd::prelude::*;
use vstd::string::*;

verus! {

/// `tera::Context`: the variables that a template is rendered with. Verus
/// sees nothing inside it.
#[verifier::external_type_specification]
#[verifier::external_body]
pub struct ExContext(tera::Context);

/// `tera::Tera`: a registry of templates. Verus sees nothing inside it.
#[verifier::external_type_specification]
#[verifier::external_body]
pub struct ExTera(tera::Tera);

/// `tera::Error`: a failure to render. Verus sees nothing inside it.
#[verifier::external_type_specification]
#[verifier::external_body]
pub struct ExError(tera::Error);

/// The variables that a rendering context holds, by name. Nothing is known of
/// them but what the trusted items below say.
pub uninterp spec fn context_bindings(context: tera::Context) -> Map<Seq<char>, ValueView>;

/// The names of the templates that a registry holds. Nothing is known of
/// them but what the trusted items below say.
pub uninterp spec fn registered(templates: tera::Tera) -> Set<Seq<char>>;

/// Whether a registry is as `tera` makes an empty one, but for templates that
/// came from plain sources. Rendering with such a registry looks variables
/// up, compares them, walks over lists and writes.
pub uninterp spec fn plain(templates: tera::Tera) -> bool;

/// What rendering the template `name` of a plain registry with the given
/// variables gives: the rendered text, or `None` where rendering fails. With
/// a plain registry it depends on these three alone.
pub uninterp spec fn rendered(
    templates: tera::Tera,
    name: Seq<char>,
    bindings: Map<Seq<char>, ValueView>,
) -> Option<Seq<char>>;

/// Whether a registry takes a source under a name: whether the source
/// parses, and the templates of the registry go together with it.
pub uninterp spec fn accepts(templates: tera::Tera, name: Seq<char>, content: Seq<char>) -> bool;

/// Trusted: `tera::Tera::default` makes a registry that holds no template,
/// with the functions and the escaping of text that `tera` comes with.
#[verifier::external_body]
fn empty_registry() -> (templates: tera::Tera)
    ensures
        registered(templates) == Set::<Seq<char>>::empty(),
        plain(templates),
{
    tera::Tera::default()
}

/// Trusted: `tera::Tera::add_raw_template` parses the source and, where that
/// succeeds, keeps the template under the name, beside the templates that the
/// registry held. Where it returns an error, the registry holds what it held,
/// with or without the new template. Whether it succeeds depends on the
/// registry, the name and the source alone. The source is a plain one: on
/// other sources the parser is not known to return, and a registry that holds
/// their templates is not known to render.
#[verifier::external_body]
fn add_raw_template(templates: &mut tera::Tera, name: &str, content: &str) -> (r: Result<
    (),
    tera::Error,
>)
    requires
        plain(*old(templates)),
        is_plain_source(content@),
    ensures
        plain(*final(templates)),
        r is Ok <==> accepts(*old(templates), name@, content@),
        r is Ok ==> registered(*final(templates)) == registered(*old(templates)).insert(name@),
        r is Err ==> registered(*final(templates)) == registered(*old(templates)) || registered(
            *final(templates),
        ) == registered(*old(templates)).insert(name@),
{
    templates.add_raw_template(name, content)
}

/// Trusted: `tera::Context::new` makes a context that holds no variable.
pub assume_specification[ tera::Context::new ]() -> (context: tera::Context)
    ensures
        context_bindings(context) == Bindings::empty(),
;

/// Trusted: `tera::Context::insert` with an integer: the number is stored
/// under the name, in place of what was stored under that name, and the other
/// variables stay as they were. The call panics only where the value cannot
/// be serialised, which an integer always can.
#[verifier::external_body]
fn insert_int(context: &mut tera::Context, name: &str, value: i64)
    ensures
        context_bindings(*final(context)) == context_bindings(*old(context)).insert(
            name@,
            ValueView::Number(value as int),
        ),
{
    context.insert(name, &value)
}

/// Trusted: `tera::Context::insert` with an unsigned integer, as with an
/// integer.
#[verifier::external_body]
fn insert_uint(context: &mut tera::Context, name: &str, value: u64)
    ensures
        context_bindings(*final(context)) == context_bindings(*old(context)).insert(
            name@,
            ValueView::Number(value as int),
        ),
{
    context.insert(name, &value)
}

/// Trusted: `tera::Context::insert` with a text: the text is stored under the
/// name.
#[verifier::external_body]
fn insert_text(context: &mut tera::Context, name: &str, value: &str)
    ensures
        context_bindings(*final(context)) == context_bindings(*old(context)).insert(
            name@,
            ValueView::Text(value@),
        ),
{
    context.insert(name, value)
}

/// Trusted: `tera::Context::insert` with a list of integers: the numbers are
/// stored under the name, in their order.
#[verifier::external_body]
fn insert_ints(context: &mut tera::Context, name: &str, value: &Vec<i64>)
    ensures
        context_bindings(*final(context)) == context_bindings(*old(context)).insert(
            name@,
            ValueView::numbers(signed_numbers(value@)),
        ),
{
    context.insert(name, value)
}

/// Trusted: `tera::Context::insert` with a list of unsigned integers, as with
/// a list of integers.
#[verifier::external_body]
fn insert_uints(context: &mut tera::Context, name: &str, value: &Vec<u64>)
    ensures
        context_bindings(*final(context)) == context_bindings(*old(context)).insert(
            name@,
            ValueView::numbers(numbers(value@)),
        ),
{
    context.insert(name, value)
}

/// Trusted: `tera::Context::insert` with a list of lists of unsigned
/// integers: the rows are stored under the name, in their order.
#[verifier::external_body]
fn insert_table(context: &mut tera::Context, name: &str, value: &Vec<Vec<u64>>)
    ensures
        context_bindings(*final(context)) == context_bindings(*old(context)).insert(
            name@,
            ValueView::rows(table(value@)),
        ),
{
    context.insert(name, value)
}

/// Trusted: `tera::Context::insert` with a list of texts: the texts are
/// stored under the name, in their order.
#[verifier::external_body]
fn insert_texts(context: &mut tera::Context, name: &str, value: &Vec<String>)
    ensures
        context_bindings(*final(context)) == context_bindings(*old(context)).insert(
            name@,
            ValueView::texts(value.deep_view()),
        ),
{
    context.insert(name, value)
}

/// Stores a value in a context under a name.
pub fn context_insert(context: &mut tera::Context, name: &str, value: &Value)
    ensures
        context_bindings(*final(context)) == context_bindings(*old(context)).insert(
            name@,
            value@,
        ),
{
    match value {
        Value::Int(v) => insert_int(context, name, *v),
        Value::UInt(v) => insert_uint(context, name, *v),
        Value::Text(v) => insert_text(context, name, v.as_str()),
        Value::IntList(v) => insert_ints(context, name, v),
        Value::UIntList(v) => insert_uints(context, name, v),
        Value::UIntTable(v) => insert_table(context, name, v),
        Value::TextList(v) => insert_texts(context, name, v),
    }
}

/// Trusted: `tera::Tera::render` renders the named template of the registry
/// with the variables of the context. Whether it succeeds, and the text that
/// it gives, depend on the registry, the name and the variables alone. It
/// fails where the registry holds no template of that name. The registry is
/// a plain one, and every variable holds a simple value: rendering other
/// templates can panic, as where arithmetic in a template leaves the range of
/// floating-point numbers, and so can a loop over a text in which characters
/// combine.
#[verifier::external_body]
fn render_template(templates: &tera::Tera, name: &str, context: &tera::Context) -> (r: Result<
    String,
    tera::Error,
>)
    requires
        plain(*templates),
        is_simple(context_bindings(*context)),
    ensures
        r is Ok <==> rendered(*templates, name@, context_bindings(*context)) is Some,
        r is Ok ==> r->Ok_0@ == rendered(*templates, name@, context_bindings(*context))->Some_0,
        !registered(*templates).contains(name@) ==> r is Err,
{
    templates.render(name, context)
}

/// A rendering context that holds the variables of an environment.
pub fn context_of(environment: &Environment) -> (context: tera::Context)
    ensures
        context_bindings(context) == environment@,
{
    let mut context = tera::Context::new();
    let mut i: usize = 0;
    while i < environment.bindings.len()
        invariant
            i <= environment.bindings.len(),
            context_bindings(context) == crate::environment::bound(
                environment.bindings@,
                i as int,
            ),
        decreases environment.bindings.len() - i,
    {
        context_insert(
            &mut context,
            environment.bindings[i].name.as_str(),
            &environment.bindings[i].value,
        );
        i += 1;
    }
    context
}

/// What rendering gives: the text that the renderer gives for simple
/// values; nothing for others, which are not handed to the renderer.
pub open spec fn outcome(templates: tera::Tera, name: Seq<char>, bindings: Bindings) -> Option<
    Seq<char>,
> {
    if is_simple(bindings) {
        rendered(templates, name, bindings)
    } else {
        None
    }
}

/// What is said of variables that are not simple.
pub open spec fn unrenderable() -> Seq<char> {
    "a variable holds a character that cannot be rendered"@
}

/// Renders the template `name` of `templates` with the variables of
/// `environment`: the rendered text, or the message of the failure. A template
/// that the registry does not hold cannot be rendered, and variables that are
/// not simple are not rendered.
pub fn render(templates: &tera::Tera, name: &str, environment: &Environment) -> (r: Result<
    String,
    String,
>)
    requires
        plain(*templates),
    ensures
        match outcome(*templates, name@, environment@) {
            Some(text) => r is Ok && r->Ok_0@ == text,
            None => r is Err,
        },
        !is_simple(environment@) ==> r is Err && r->Err_0@ == unrenderable(),
        !registered(*templates).contains(name@) ==> r is Err,
{
    if !environment.is_simple() {
        return Err(String::from_str("a variable holds a character that cannot be rendered"));
    }
    let context = context_of(environment);
    text_or_message(render_template(templates, name, &context))
}

/// What a rendering gives its caller, for each outcome of the call that
/// renders: the rendered text as it is, or, where the call failed, the
/// message of the failure as the failure writes it.
pub fn text_or_message(outcome: Result<String, tera::Error>) -> (r: Result<String, String>)
    ensures
        match outcome {
            Ok(text) => r == Ok::<String, String>(text),
            Err(e) => r is Err && to_string_from_display_ensures::<tera::Error>(&e, r->Err_0),
        },
{
    match outcome {
        Ok(text) => Ok(text),
        Err(e) => Err(e.to_string()),
    }
}

/// The source of a template and the name to keep it under.
#[derive(Clone, Debug, PartialEq, Eq)]
pub struct TemplateSource {
    pub name: String,
    pub content: String,
}

/// The mathematical value of a template source.
pub struct TemplateSourceView {
    pub name: Seq<char>,
    pub content: Seq<char>,
}

impl DeepView for TemplateSource {
    type V = TemplateSourceView;

    open spec fn deep_view(&self) -> TemplateSourceView {
        TemplateSourceView { name: self.name@, content: self.content@ }
    }
}

/// The names of the first `upto` sources of a list.
pub open spec fn source_names(sources: Seq<TemplateSourceView>, upto: int) -> Set<Seq<char>>
    decreases upto,
{
    if upto <= 0 {
        Set::empty()
    } else {
        source_names(sources, upto - 1).insert(sources[upto - 1].name)
    }
}

/// The first source at or after `from` that is not plain.
pub open spec fn first_refused(sources: Seq<TemplateSourceView>, from: int) -> Option<int>
    decreases sources.len() - from,
{
    if from < 0 || from >= sources.len() {
        None
    } else if !is_plain_source(sources[from].content) {
        Some(from)
    } else {
        first_refused(sources, from + 1)
    }
}

/// What is said of a source that is not plain.
pub open spec fn refusal(name: Seq<char>) -> Seq<char> {
    "template '"@ + name + "' holds a tag that is not plain"@
}

/// Whether a registry is a plain one that holds the templates of the sources.
pub open spec fn made_of(templates: tera::Tera, sources: Seq<TemplateSourceView>) -> bool {
    plain(templates) && registered(templates) == source_names(sources, sources.len() as int)
}

/// Whether adding the source at position `at` fails, with the registry
/// `before` holding the sources before it.
pub open spec fn fails_at(sources: Seq<TemplateSourceView>, before: tera::Tera, at: int) -> bool {
    &&& 0 <= at < sources.len()
    &&& plain(before)
    &&& registered(before) == source_names(sources, at)
    &&& !accepts(before, sources[at].name, sources[at].content)
}

/// A registry of the templates with the given sources, a later source of a
/// name replacing an earlier one. It is made for the life of a process and
/// not changed after.
///
/// Every source has to be plain, as `is_plain_source` says: the first that
/// is not is refused by name, before any is parsed. Then the sources are added in their order. The
/// result is an error exactly where one of them is not taken by the registry
/// that holds those before it, with the message of that failure.
pub fn registry(sources: &[TemplateSource]) -> (r: Result<tera::Tera, CompileError>)
    ensures
        match first_refused(sources.deep_view(), 0) {
            Some(at) => r is Err && r->Err_0@ == CompileErrorView::TemplateError(
                refusal(sources.deep_view()[at].name),
            ),
            None => match r {
                Ok(templates) => plain(templates) && registered(templates) == source_names(
                    sources.deep_view(),
                    sources@.len() as int,
                ),
                Err(e) => e is TemplateError && exists|before: tera::Tera, at: int|
                    fails_at(sources.deep_view(), before, at),
            },
        },
{
    let ghost all = sources.deep_view();
    let mut k: usize = 0;
    while k < sources.len()
        invariant
            k <= sources.len(),
            all == sources.deep_view(),
            first_refused(all, 0) == first_refused(all, k as int),
        decreases sources.len() - k,
    {
        assert(all[k as int] == sources@[k as int].deep_view());
        if !is_plain(sources[k].content.as_str()) {
            let mut message = String::from_str("template '");
            message.append(sources[k].name.as_str());
            message.append("' holds a tag that is not plain");
            return Err(CompileError::TemplateError(message));
        }
        k += 1;
    }
    let mut templates = empty_registry();
    let mut i: usize = 0;
    while i < sources.len()
        invariant
            i <= sources.len(),
            all == sources.deep_view(),
            first_refused(all, 0) is None,
            plain(templates),
            registered(templates) == source_names(all, i as int),
        decreases sources.len() - i,
    {
        assert(all[i as int] == sources@[i as int].deep_view());
        proof {
            lemma_none_refused(all, 0, i as int);
        }
        let ghost before = templates;
        match add_raw_template(
            &mut templates,
            sources[i].name.as_str(),
            sources[i].content.as_str(),
        ) {
            Ok(()) => {},
            Err(e) => {
                assert(fails_at(all, before, i as int));
                return Err(CompileError::TemplateError(e.to_string()));
            },
        }
        i += 1;
    }
    Ok(templates)
}

proof fn lemma_none_refused(sources: Seq<TemplateSourceView>, from: int, at: int)
    requires
        0 <= from <= at < sources.len(),
        first_refused(sources, from) is None,
    ensures
        is_plain_source(sources[at].content),
    decreases at - from,
{
    if from < at {
        lemma_none_refused(sources, from + 1, at);
    }
}

/// The names of the templates that the compiler selects from, and of the
/// templates that those of an installation share.
pub open spec fn catalog() -> Seq<Seq<char>> {
    seq![
        "endomorphism/activation.wgsl"@,
        "endomorphism/arithmetic.wgsl"@,
        "endomorphism/batchnormalization.wgsl"@,
        "endomorphism/softmax.wgsl"@,
        "endomorphism/map.wgsl"@,
        "endomorphism/cast.wgsl"@,
        "matrix/concat.wgsl"@,
        "matrix/gemm_1.wgsl"@,
        "matrix/gemm.wgsl"@,
        "matrix/resize.wgsl"@,
        "matrix/split.wgsl"@,
        "matrix/transpose.wgsl"@,
        "pool/aggregate.wgsl"@,
        "pool/conv_kernel_1.wgsl"@,
        "pool/conv_kernel_3.wgsl"@,
        "pool/conv.wgsl"@,
        "pool/reduce.wgsl"@,
        "structs.wgsl"@,
        "snippets/activation_vec.wgsl"@,
        "snippets/activation_scalar.wgsl"@,
        "endomorphism/gather.wgsl"@,
        "endomorphism/onehot.wgsl"@,
    ]
}

/// The names of the templates that a registry has to hold for the compiler.
pub fn template_names() -> (r: Vec<&'static str>)
    ensures
        r.deep_view() == catalog(),
{
    let mut names: Vec<&'static str> = Vec::new();
    names.push("endomorphism/activation.wgsl");
    names.push("endomorphism/arithmetic.wgsl");
    names.push("endomorphism/batchnormalization.wgsl");
    names.push("endomorphism/softmax.wgsl");
    names.push("endomorphism/map.wgsl");
    names.push("endomorphism/cast.wgsl");
    names.push("matrix/concat.wgsl");
    names.push("matrix/gemm_1.wgsl");
    names.push("matrix/gemm.wgsl");
    names.push("matrix/resize.wgsl");
    names.push("matrix/split.wgsl");
    names.push("matrix/transpose.wgsl");
    names.push("pool/aggregate.wgsl");
    names.push("pool/conv_kernel_1.wgsl");
    names.push("pool/conv_kernel_3.wgsl");
    names.push("pool/conv.wgsl");
    names.push("pool/reduce.wgsl");
    names.push("structs.wgsl");
    names.push("snippets/activation_vec.wgsl");
    names.push("snippets/activation_scalar.wgsl");
    names.push("endomorphism/gather.wgsl");
    names.push("endomorphism/onehot.wgsl");
    assert(names.deep_view() =~= catalog());
    names
}

} // verus!
