//! Compiling a node of a graph that keeps the dimensions of its tensors by
//! name.
//!
//! The shaders of such a graph address their buffers by variables named after
//! the tensors, work on 32-bit floating-point elements throughout, and take
//! their whole dispatch in the x dimension, with a fixed number of elements
//! for each workgroup.

use crate::attributes::{Node, NodeView};
use crate::compiler::{family_of, op_family, OpFamily};
use crate::environment::{Bindings, Environment, Value, ValueView};
use crate::error::{CompileError, CompileErrorView};
use crate::ops::elementwise::{operator_symbol, symbol_of};
use crate::ops::gemm::{dispatch_gemm, gemm_dispatch};
use crate::ops::layout::{select_transpose, transpose_selection};
use crate::ops::pool::{pool_selection, select_pool};
use crate::selection::{
    attribute,
    chunks_of,
    chunks_table_of,
    dims_of,
    dims_table_of,
    lengths,
    lengths_of,
    matches_selection,
    missing_operand,
    real_attribute,
    selected,
    selects,
    shape_views,
    NodeTemplate,
    NodeTemplateView,
    Selection,
};
use crate::attributes::Real;
use crate::templates::{outcome, plain, registered, render};
use crate::text::text_eq;
use crate::types::{dims_fit, element_count, signed_numbers, ScalarType, Shape, ShapeView};
use crate::workgroup::{ceil, ceil_div};
use vstd::prelude::*;
use vstd::string::*;

verus! {

/// The dimensions of a tensor, kept under its name. The tensors of a graph
/// are a list of these, searched from the front: of a hash map keyed by
/// texts the verifier knows neither what a lookup finds nor how many entries
/// there are after an insertion.
#[derive(Clone, Debug, PartialEq)]
pub struct TensorDims {
    pub name: String,
    pub dims: Vec<i64>,
}

/// The mathematical value of an entry.
pub struct TensorDimsView {
    pub name: Seq<char>,
    pub dims: Seq<i64>,
}

impl DeepView for TensorDims {
    type V = TensorDimsView;

    open spec fn deep_view(&self) -> TensorDimsView {
        TensorDimsView { name: self.name@, dims: self.dims@ }
    }
}

/// The dimensions kept under `name` by the first entry at or after `from`.
pub open spec fn dims_from(dims_infos: Seq<TensorDimsView>, name: Seq<char>, from: int) -> Option<
    Seq<i64>,
>
    decreases dims_infos.len() - from,
{
    if from < 0 || from >= dims_infos.len() {
        None
    } else if dims_infos[from].name == name {
        Some(dims_infos[from].dims)
    } else {
        dims_from(dims_infos, name, from + 1)
    }
}

/// The shape of the tensor `name`, where dimensions are kept for it that a
/// shape can have.
pub open spec fn shape_named(dims_infos: Seq<TensorDimsView>, name: Seq<char>) -> Option<
    ShapeView,
> {
    match dims_from(dims_infos, name, 0) {
        Some(dims) => if dims_fit(signed_numbers(dims)) {
            Some(ShapeView { dims: signed_numbers(dims), data_type: ScalarType::F32 })
        } else {
            None
        },
        None => None,
    }
}

/// The first of the names at or after `from` for which no shape is known.
pub open spec fn unknown_from(dims_infos: Seq<TensorDimsView>, names: Seq<Seq<char>>, from: int)
    -> Option<int>
    decreases names.len() - from,
{
    if from < 0 || from >= names.len() {
        None
    } else if shape_named(dims_infos, names[from]) is None {
        Some(from)
    } else {
        unknown_from(dims_infos, names, from + 1)
    }
}

/// The shapes of the tensors with the given names, or the first of them for
/// which none is known.
pub open spec fn shapes_named(
    dims_infos: Seq<TensorDimsView>,
    names: Seq<Seq<char>>,
    op: Seq<char>,
) -> Result<Seq<ShapeView>, CompileErrorView> {
    match unknown_from(dims_infos, names, 0) {
        Some(index) => Err(CompileErrorView::DimensionsMissing(names[index], op)),
        None => Ok(Seq::new(names.len(), |i: int| shape_named(dims_infos, names[i])->Some_0)),
    }
}

/// Whether a character of a tensor name is left out of the name of its
/// variable.
pub open spec fn is_special(c: char) -> bool {
    c == '(' || c == ')' || c == ',' || c == '"' || c == '.' || c == ';' || c == ':' || c == '\''
        || c == '/'
}

/// The first `upto` characters of a name without those that are left out.
pub open spec fn kept(name: Seq<char>, upto: int) -> Seq<char>
    decreases upto,
{
    if upto <= 0 {
        Seq::empty()
    } else if is_special(name[upto - 1]) {
        kept(name, upto - 1)
    } else {
        kept(name, upto - 1).push(name[upto - 1])
    }
}

/// The name of the variable by which a shader addresses a tensor: `var_`, so
/// that it cannot be a word of the shader language, and the name of the tensor
/// without its special characters.
pub open spec fn variable_name(name: Seq<char>) -> Seq<char> {
    "var_"@ + kept(name, name.len() as int)
}

/// The name of a variable holds none of the characters that are left out of
/// tensor names.
pub proof fn lemma_variable_name_is_plain(name: Seq<char>)
    ensures
        forall|i: int|
            0 <= i < variable_name(name).len() ==> !is_special(#[trigger] variable_name(name)[i]),
{
    reveal_strlit("var_");
    lemma_kept_is_plain(name, name.len() as int);
    assert forall|i: int| 0 <= i < variable_name(name).len() implies !is_special(
        #[trigger] variable_name(name)[i],
    ) by {
        if i >= 4 {
            assert(variable_name(name)[i] == kept(name, name.len() as int)[i - 4]);
        }
    }
}

proof fn lemma_kept_is_plain(name: Seq<char>, upto: int)
    ensures
        forall|i: int|
            0 <= i < kept(name, upto).len() ==> !is_special(#[trigger] kept(name, upto)[i]),
    decreases upto,
{
    if upto > 0 {
        lemma_kept_is_plain(name, upto - 1);
        let before = kept(name, upto - 1);
        assert forall|i: int| 0 <= i < kept(name, upto).len() implies !is_special(
            #[trigger] kept(name, upto)[i],
        ) by {
            if i < before.len() {
                assert(kept(name, upto)[i] == before[i]);
            }
        }
    }
}

/// The names of the variables of a list of tensors.
pub open spec fn variable_names(names: Seq<Seq<char>>) -> Seq<Seq<char>> {
    Seq::new(names.len(), |i: int| variable_name(names[i]))
}

/// The variables bound for every node.
pub open spec fn named_bindings(node: NodeView, inputs: Seq<ShapeView>, outputs: Seq<ShapeView>)
    -> Bindings {
    Bindings::empty().insert("inputs"@, ValueView::texts(variable_names(node.inputs))).insert(
        "outputs"@,
        ValueView::texts(variable_names(node.outputs)),
    ).insert("i_lens"@, ValueView::numbers(lengths(inputs))).insert(
        "o_lens"@,
        ValueView::numbers(lengths(outputs)),
    ).insert("i_dims"@, ValueView::rows(dims_of(inputs))).insert(
        "o_dims"@,
        ValueView::rows(dims_of(outputs)),
    ).insert("i_chunks"@, ValueView::rows(chunks_of(inputs))).insert(
        "o_chunks"@,
        ValueView::rows(chunks_of(outputs)),
    ).insert("op_type"@, ValueView::Text(node.op_type))
}

/// Operators that only copy their input.
pub open spec fn is_copy(op: Seq<char>) -> bool {
    op == "Reshape"@ || op == "Dropout"@ || op == "Flatten"@ || op == "Squeeze"@ || op
        == "Softmax"@
}

/// A template whose workgroups each handle `span` elements of the first
/// output.
pub open spec fn spanned_selection(
    node: NodeView,
    outputs: Seq<ShapeView>,
    template: Seq<char>,
    span: int,
    bindings: Bindings,
) -> Result<NodeTemplateView, CompileErrorView> {
    if outputs.len() == 0 {
        Err(CompileErrorView::InvalidOperation(node.op_type))
    } else {
        Ok(
            NodeTemplateView {
                scalar_type: ScalarType::F32,
                template,
                threads: (ceil_div(element_count(outputs[0].dims), span), 1, 1),
                bindings,
            },
        )
    }
}

/// The template of a node, the extent of its dispatch and its variables, by
/// the family of its operator: functions of one element and arithmetic take
/// four elements for each workgroup, copies sixteen, concatenation 256;
/// pooling, convolution, matrix multiplication and transposition follow the
/// rules of their families. Such a graph has no version of the operator set:
/// an error about the value of an attribute names version 0.
pub open spec fn named_selection(
    node: NodeView,
    inputs: Seq<ShapeView>,
    outputs: Seq<ShapeView>,
    base: Bindings,
) -> Result<NodeTemplateView, CompileErrorView> {
    let op = node.op_type;
    if is_copy(op) {
        spanned_selection(node, outputs, "endomorphism/copy.wgsl"@, 16, base)
    } else {
        match family_of(op) {
            OpFamily::Unary => if op == "Reciprocal"@ {
                Err(CompileErrorView::UnimplementedOp(op))
            } else {
                spanned_selection(node, outputs, "endomorphism/map.wgsl"@, 4, base)
            },
            OpFamily::Arithmetic => match operator_symbol(op) {
                None => Err(CompileErrorView::UnimplementedOp(op)),
                Some(symbol) => spanned_selection(
                    node,
                    outputs,
                    "endomorphism/arithmetic.wgsl"@,
                    4,
                    base.insert("op_type"@, ValueView::Text(symbol)),
                ),
            },
            OpFamily::Activation => if op == "LeakyRelu"@ {
                Err(CompileErrorView::UnimplementedOp(op))
            } else {
                match attribute::<Real>(node, "alpha"@, Some("1"@)) {
                    Err(e) => Err(e),
                    Ok(alpha) => spanned_selection(
                        node,
                        outputs,
                        "endomorphism/activation.wgsl"@,
                        4,
                        base.insert("alpha"@, ValueView::Text(alpha)),
                    ),
                }
            },
            OpFamily::Concat => spanned_selection(node, outputs, "matrix/concat.wgsl"@, 256, base),
            OpFamily::Pool => if op == "GlobalAveragePool"@ {
                Err(CompileErrorView::UnimplementedOp(op))
            } else {
                pool_selection(node, inputs, outputs, 0, base)
            },
            OpFamily::Gemm => match attribute::<Real>(node, "alpha"@, Some("1"@)) {
                Err(e) => Err(e),
                Ok(alpha) => match attribute::<Real>(node, "beta"@, Some("1"@)) {
                    Err(e) => Err(e),
                    Ok(beta) => gemm_dispatch(
                        node,
                        inputs,
                        outputs,
                        base.insert("alpha"@, ValueView::Text(alpha)).insert(
                            "beta"@,
                            ValueView::Text(beta),
                        ),
                    ),
                },
            },
            OpFamily::Transpose => transpose_selection(node, inputs, outputs, 0, base),
            _ => Err(CompileErrorView::UnimplementedOp(op)),
        }
    }
}

/// The error for a dispatch whose extent does not fit in 32 bits.
pub open spec fn beyond_u32(what: Seq<char>) -> CompileErrorView {
    CompileErrorView::ComputeLimitExceeded(what, u32::MAX, u32::MAX)
}

/// A selection whose dispatch fits in 32 bits in each dimension.
pub open spec fn within_u32(selection: Result<NodeTemplateView, CompileErrorView>) -> Result<
    NodeTemplateView,
    CompileErrorView,
> {
    match selection {
        Err(e) => Err(e),
        Ok(template) => if template.threads.0 > u32::MAX {
            Err(beyond_u32("X threads"@))
        } else if template.threads.1 > u32::MAX {
            Err(beyond_u32("Y threads"@))
        } else if template.threads.2 > u32::MAX {
            Err(beyond_u32("Z threads"@))
        } else {
            Ok(template)
        },
    }
}

/// What compiling a node gives before its template is rendered: the shapes of
/// its inputs, then of its outputs, are looked up by name, and the template
/// is selected for them.
pub open spec fn named_template_of(node: NodeView, dims_infos: Seq<TensorDimsView>) -> Result<
    NodeTemplateView,
    CompileErrorView,
> {
    match shapes_named(dims_infos, node.inputs, node.op_type) {
        Err(e) => Err(e),
        Ok(inputs) => match shapes_named(dims_infos, node.outputs, node.op_type) {
            Err(e) => Err(e),
            Ok(outputs) => within_u32(
                named_selection(node, inputs, outputs, named_bindings(node, inputs, outputs)),
            ),
        },
    }
}

/// The shape of the tensor `name`.
pub fn shape_of(dims_infos: &[TensorDims], name: &str) -> (r: Option<Shape>)
    ensures
        match shape_named(dims_infos.deep_view(), name@) {
            Some(shape) => r is Some && r->Some_0@ == shape,
            None => r is None,
        },
{
    let ghost all = dims_infos.deep_view();
    let mut i: usize = 0;
    while i < dims_infos.len()
        invariant
            i <= dims_infos.len(),
            all == dims_infos.deep_view(),
            dims_from(all, name@, 0) == dims_from(all, name@, i as int),
        decreases dims_infos.len() - i,
    {
        assert(all[i as int] == dims_infos@[i as int].deep_view());
        if text_eq(dims_infos[i].name.as_str(), name) {
            return Shape::from(ScalarType::F32, dims_infos[i].dims.as_slice());
        }
        i += 1;
    }
    None
}

/// The shapes of the tensors with the given names.
#[verifier::loop_isolation(false)]
pub fn shapes_of(dims_infos: &[TensorDims], names: &Vec<String>, node: &Node) -> (r: Result<
    Vec<Shape>,
    CompileError,
>)
    ensures
        match shapes_named(dims_infos.deep_view(), names.deep_view(), node@.op_type) {
            Ok(shapes) => r is Ok && r->Ok_0@.len() == shapes.len() && forall|i: int|
                0 <= i < shapes.len() ==> (#[trigger] r->Ok_0@[i])@ == shapes[i],
            Err(e) => r is Err && r->Err_0@ == e,
        },
{
    let ghost all = dims_infos.deep_view();
    let ghost wanted = names.deep_view();
    let mut shapes: Vec<Shape> = Vec::new();
    let mut i: usize = 0;
    while i < names.len()
        invariant
            i <= names.len(),
            unknown_from(all, wanted, 0) == unknown_from(all, wanted, i as int),
            shapes@.len() == i,
            forall|j: int|
                0 <= j < i ==> shape_named(all, wanted[j]) == Some((#[trigger] shapes@[j])@),
        decreases names.len() - i,
    {
        assert(wanted[i as int] == names@[i as int]@);
        match shape_of(dims_infos, names[i].as_str()) {
            Some(shape) => {
                shapes.push(shape);
            },
            None => {
                return Err(
                    CompileError::DimensionsMissing(names[i].clone(), node.op_type.clone()),
                );
            },
        }
        i += 1;
    }
    Ok(shapes)
}

/// The name of the variable by which a shader addresses the tensor `name`.
pub fn variable_name_of(name: &str) -> (r: String)
    ensures
        r@ == variable_name(name@),
{
    let mut r = String::from_str("var_");
    let length = name.unicode_len();
    let mut i: usize = 0;
    while i < length
        invariant
            i <= length,
            length == name@.len(),
            r@ == "var_"@ + kept(name@, i as int),
        decreases length - i,
    {
        let c = name.get_char(i);
        let special = c == '(' || c == ')' || c == ',' || c == '"' || c == '.' || c == ';' || c
            == ':' || c == '\'' || c == '/';
        if !special {
            let one = name.substring_char(i, i + 1);
            assert(one@ =~= seq![name@[i as int]]);
            r.append(one);
            assert(r@ =~= "var_"@ + kept(name@, i + 1));
        }
        i += 1;
    }
    r
}

fn variable_names_of(names: &Vec<String>) -> (r: Vec<String>)
    ensures
        r.deep_view() == variable_names(names.deep_view()),
{
    let mut out: Vec<String> = Vec::new();
    let mut i: usize = 0;
    while i < names.len()
        invariant
            i <= names.len(),
            out@.len() == i,
            forall|j: int| 0 <= j < i ==> (#[trigger] out@[j])@ == variable_name(names@[j]@),
        decreases names.len() - i,
    {
        out.push(variable_name_of(names[i].as_str()));
        i += 1;
    }
    assert(out.deep_view() =~= variable_names(names.deep_view()));
    out
}

fn references(shapes: &Vec<Shape>) -> (r: Vec<&Shape>)
    ensures
        r@.len() == shapes@.len(),
        forall|i: int| 0 <= i < shapes@.len() ==> *(#[trigger] r@[i]) == shapes@[i],
{
    let mut out: Vec<&Shape> = Vec::new();
    let mut i: usize = 0;
    while i < shapes.len()
        invariant
            i <= shapes.len(),
            out@.len() == i,
            forall|j: int| 0 <= j < i ==> *(#[trigger] out@[j]) == shapes@[j],
        decreases shapes.len() - i,
    {
        out.push(&shapes[i]);
        i += 1;
    }
    out
}

fn named_environment(node: &Node, input_shapes: &[&Shape], output_shapes: &[&Shape]) -> (r:
    Environment)
    ensures
        r@ == named_bindings(node@, shape_views(input_shapes@), shape_views(output_shapes@)),
{
    let mut environment = Environment::new();
    environment.bind("inputs", Value::TextList(variable_names_of(&node.inputs)));
    environment.bind("outputs", Value::TextList(variable_names_of(&node.outputs)));
    environment.bind("i_lens", Value::UIntList(lengths_of(input_shapes)));
    environment.bind("o_lens", Value::UIntList(lengths_of(output_shapes)));
    environment.bind("i_dims", Value::UIntTable(dims_table_of(input_shapes)));
    environment.bind("o_dims", Value::UIntTable(dims_table_of(output_shapes)));
    environment.bind("i_chunks", Value::UIntTable(chunks_table_of(input_shapes)));
    environment.bind("o_chunks", Value::UIntTable(chunks_table_of(output_shapes)));
    environment.bind("op_type", Value::Text(node.op_type.clone()));
    environment
}

fn spanned(
    node: &Node,
    output_shapes: &[&Shape],
    template: &'static str,
    span: u64,
    environment: Environment,
) -> (r: Result<Selection, CompileError>)
    requires
        span > 0,
    ensures
        selects(
            r,
            spanned_selection(
                node@,
                shape_views(output_shapes@),
                template@,
                span as int,
                environment@,
            ),
        ),
{
    if output_shapes.len() == 0 {
        return Err(missing_operand(node));
    }
    selected(
        ScalarType::F32,
        template,
        ceil(output_shapes[0].element_count(), span),
        1,
        1,
        environment,
    )
}

fn unimplemented(node: &Node) -> (r: Result<Selection, CompileError>)
    ensures
        selects(r, Err(CompileErrorView::UnimplementedOp(node@.op_type))),
{
    Err(CompileError::UnimplementedOp(node.op_type.clone()))
}

fn select_named(
    node: &Node,
    input_shapes: &[&Shape],
    output_shapes: &[&Shape],
    environment: Environment,
) -> (r: Result<Selection, CompileError>)
    ensures
        selects(
            r,
            named_selection(
                node@,
                shape_views(input_shapes@),
                shape_views(output_shapes@),
                environment@,
            ),
        ),
{
    let op = node.op_type.as_str();
    if text_eq(op, "Reshape") || text_eq(op, "Dropout") || text_eq(op, "Flatten") || text_eq(
        op,
        "Squeeze",
    ) || text_eq(op, "Softmax") {
        return spanned(node, output_shapes, "endomorphism/copy.wgsl", 16, environment);
    }
    let mut environment = environment;
    match op_family(op) {
        OpFamily::Unary => if text_eq(op, "Reciprocal") {
            unimplemented(node)
        } else {
            spanned(node, output_shapes, "endomorphism/map.wgsl", 4, environment)
        },
        OpFamily::Arithmetic => match symbol_of(op) {
            None => unimplemented(node),
            Some(symbol) => {
                environment.bind("op_type", Value::Text(String::from_str(symbol)));
                spanned(node, output_shapes, "endomorphism/arithmetic.wgsl", 4, environment)
            },
        },
        OpFamily::Activation => if text_eq(op, "LeakyRelu") {
            unimplemented(node)
        } else {
            let alpha = real_attribute("alpha", Some("1"), node)?;
            environment.bind("alpha", Value::Text(alpha));
            spanned(node, output_shapes, "endomorphism/activation.wgsl", 4, environment)
        },
        OpFamily::Concat => spanned(node, output_shapes, "matrix/concat.wgsl", 256, environment),
        OpFamily::Pool => if text_eq(op, "GlobalAveragePool") {
            unimplemented(node)
        } else {
            select_pool(node, input_shapes, output_shapes, 0, environment)
        },
        OpFamily::Gemm => {
            let alpha = real_attribute("alpha", Some("1"), node)?;
            let beta = real_attribute("beta", Some("1"), node)?;
            environment.bind("alpha", Value::Text(alpha));
            environment.bind("beta", Value::Text(beta));
            dispatch_gemm(node, input_shapes, output_shapes, environment)
        },
        OpFamily::Transpose => select_transpose(node, input_shapes, output_shapes, 0, environment),
        _ => unimplemented(node),
    }
}

fn beyond(what: &str) -> (r: CompileError)
    ensures
        r@ == beyond_u32(what@),
{
    CompileError::ComputeLimitExceeded(String::from_str(what), u32::MAX, u32::MAX)
}

/// Looks up the shapes of the operands of a node, selects its template, works
/// out the extent of its dispatch, and binds the variables that the template
/// is rendered with.
pub fn named_template(node: &Node, dims_infos: &[TensorDims]) -> (r: Result<
    NodeTemplate,
    CompileError,
>)
    ensures
        matches_selection(r, named_template_of(node@, dims_infos.deep_view())),
{
    let inputs = shapes_of(dims_infos, &node.inputs, node)?;
    let outputs = shapes_of(dims_infos, &node.outputs, node)?;
    let input_shapes = references(&inputs);
    let output_shapes = references(&outputs);
    proof {
        assert(shape_views(input_shapes@) =~= shapes_named(
            dims_infos.deep_view(),
            node@.inputs,
            node@.op_type,
        )->Ok_0);
        assert(shape_views(output_shapes@) =~= shapes_named(
            dims_infos.deep_view(),
            node@.outputs,
            node@.op_type,
        )->Ok_0);
    }
    let environment = named_environment(node, input_shapes.as_slice(), output_shapes.as_slice());
    let selection = select_named(
        node,
        input_shapes.as_slice(),
        output_shapes.as_slice(),
        environment,
    )?;
    let (x, y, z) = selection.threads;
    if x > u32::MAX as u128 {
        return Err(beyond("X threads"));
    }
    if y > u32::MAX as u128 {
        return Err(beyond("Y threads"));
    }
    if z > u32::MAX as u128 {
        return Err(beyond("Z threads"));
    }
    Ok(
        NodeTemplate {
            scalar_type: selection.scalar_type,
            template: selection.template,
            threads: (x as u32, y as u32, z as u32),
            environment: selection.environment,
        },
    )
}

/// Compiles a node: looks up the shapes of its operands in `dims_infos`,
/// selects its template, and renders the template from `templates`. The
/// result is the source of the shader and the extent of its dispatch in the x,
/// y and z dimension.
///
/// Every reason not to compile that lies in the node or the dimensions is
/// returned exactly as the selection gives it. Where the selection succeeds,
/// the result is the rendered text and the selected extent exactly where the
/// selected template renders with the selected variables. The registry has
/// to be a plain one.
pub fn compile(node: &Node, dims_infos: &[TensorDims], templates: &tera::Tera) -> (r: Result<
    (String, u32, u32, u32),
    CompileError,
>)
    requires
        plain(*templates),
    ensures
        match named_template_of(node@, dims_infos.deep_view()) {
            Err(e) => r is Err && r->Err_0@ == e,
            Ok(template) => match outcome(*templates, template.template, template.bindings) {
                Some(text) => r is Ok && r->Ok_0.0@ == text && r->Ok_0.1 == template.threads.0
                    && r->Ok_0.2 == template.threads.1 && r->Ok_0.3 == template.threads.2,
                None => r is Err && r->Err_0@ is TemplateError,
            },
        },
        r is Ok ==> registered(*templates).contains(
            named_template_of(node@, dims_infos.deep_view())->Ok_0.template,
        ),
{
    let node_template = named_template(node, dims_infos)?;
    match render(templates, node_template.template, &node_template.environment) {
        Ok(shader) => Ok(
            (
                shader,
                node_template.threads.0,
                node_template.threads.1,
                node_template.threads.2,
            ),
        ),
        Err(message) => Err(CompileError::TemplateError(message)),
    }
}

} // verus!
