//! The compiler: from a node and the shapes of its operands to a shader and
//! the extent of its dispatch.

use crate::attributes::{Node, NodeView};
use crate::bounds::{dispatches, is_small_product, lemma_threads_within_limits, positive};
use crate::error::CompileErrorView;
use crate::ops::elementwise::{
    activation_selection,
    arithmetic_selection,
    cast_selection,
    map_selection,
    select_activation,
    select_arithmetic,
    select_cast,
    select_map,
};
use crate::ops::gemm::{gemm_selection, select_gemm};
use crate::ops::index::{gather_selection, one_hot_selection, select_gather, select_one_hot};
use crate::ops::layout::{
    concat_selection,
    select_concat,
    select_split,
    select_transpose,
    split_selection,
    transpose_selection,
};
use crate::ops::normalize::{
    batch_normalization_selection,
    select_batch_normalization,
    select_softmax,
    softmax_selection,
};
use crate::ops::pool::{pool_selection, select_pool};
use crate::ops::reduce::{reduce_selection, select_reduce};
use crate::ops::resize::{resize_selection, select_resize};
use crate::selection::{
    common_bindings,
    common_environment,
    finish,
    finished,
    matches_selection,
    shape_views,
    NodeTemplate,
    NodeTemplateView,
};
use crate::templates::{
    fails_at,
    first_refused,
    made_of,
    outcome,
    plain,
    refusal,
    registered,
    registry,
    render,
    TemplateSource,
};
use crate::text::text_eq;
use crate::types::{Shape, ShapeView};
use vstd::prelude::*;
use vstd::string::*;

pub use crate::error::CompileError;
pub use crate::selection::agreed_type;
pub use crate::workgroup::{
    workgroup_size,
    MAX_COMPUTE_WORKGROUPS_PER_DIMENSION,
    MAX_WORKGROUP_SIZE_X,
    MAX_WORKGROUP_SIZE_Y,
    MAX_WORKGROUP_SIZE_Z,
};

verus! {

/// A compiled node: the source of its shader and the number of workgroups to
/// dispatch in each dimension.
#[derive(Debug)]
pub struct CompiledNode {
    pub shader: String,
    pub threads: (u32, u32, u32),
}

/// The families of operators. The operators of one family share a template, or
/// a choice among templates, and the rule for the extent of the dispatch.
#[derive(Clone, Copy, Debug, PartialEq, Eq, Structural)]
pub enum OpFamily {
    /// Operators that an earlier pass takes out of the graph.
    OptimizedAway,
    Unary,
    Reduce,
    OneHot,
    Gather,
    Cast,
    Softmax,
    Arithmetic,
    BatchNormalization,
    Activation,
    Concat,
    Pool,
    Gemm,
    Resize,
    Split,
    Transpose,
    /// Every other operator.
    Unimplemented,
}

/// Operators that an earlier pass takes out of the graph.
pub open spec fn is_optimized_away(op: Seq<char>) -> bool {
    op == "Reshape"@ || op == "Dropout"@ || op == "Identity"@ || op == "Flatten"@ || op
        == "Squeeze"@ || op == "Unsqueeze"@
}

/// Functions of one element.
pub open spec fn is_map(op: Seq<char>) -> bool {
    op == "Abs"@ || op == "Acos"@ || op == "Asin"@ || op == "Atan"@ || op == "Ceil"@ || op
        == "Cos"@ || op == "Cosh"@ || op == "Exp"@ || op == "Floor"@ || op == "Log"@ || op
        == "Round"@ || op == "Sign"@ || op == "Sin"@ || op == "Sinh"@ || op == "Sqrt"@ || op
        == "Tan"@ || op == "Tanh"@ || op == "Reciprocal"@
}

/// Reductions.
pub open spec fn is_reduce(op: Seq<char>) -> bool {
    op == "ReduceMean"@ || op == "ReduceSum"@ || op == "ReduceMax"@ || op == "ReduceMin"@ || op
        == "ReduceProd"@ || op == "ReduceL1"@ || op == "ReduceL2"@ || op == "ReduceLogSum"@ || op
        == "ReduceLogSumExp"@ || op == "ReduceSumSquare"@
}

/// Arithmetic and comparison of the elements of two tensors.
pub open spec fn is_arithmetic(op: Seq<char>) -> bool {
    op == "Add"@ || op == "And"@ || op == "Div"@ || op == "Equal"@ || op == "Greater"@ || op
        == "GreaterOrEqual"@ || op == "Less"@ || op == "LessOrEqual"@ || op == "Mod"@ || op
        == "Mul"@ || op == "Or"@ || op == "Sub"@
}

/// Activation functions.
pub open spec fn is_activation(op: Seq<char>) -> bool {
    op == "Relu"@ || op == "Sigmoid"@ || op == "Softsign"@ || op == "Softplus"@ || op == "Clip"@
        || op == "Celu"@ || op == "Elu"@ || op == "LeakyRelu"@
}

/// Poolings and convolutions.
pub open spec fn is_pool(op: Seq<char>) -> bool {
    op == "MaxPool"@ || op == "AveragePool"@ || op == "Conv"@ || op == "ConvRelu"@ || op
        == "ConvLeakyRelu"@ || op == "ConvMish"@ || op == "GlobalAveragePool"@
}

/// The family of an operator, by its name.
pub open spec fn family_of(op: Seq<char>) -> OpFamily {
    if is_optimized_away(op) {
        OpFamily::OptimizedAway
    } else if is_map(op) {
        OpFamily::Unary
    } else if is_reduce(op) {
        OpFamily::Reduce
    } else if op == "OneHot"@ {
        OpFamily::OneHot
    } else if op == "Gather"@ {
        OpFamily::Gather
    } else if op == "Cast"@ {
        OpFamily::Cast
    } else if op == "Softmax"@ {
        OpFamily::Softmax
    } else if is_arithmetic(op) {
        OpFamily::Arithmetic
    } else if op == "BatchNormalization"@ {
        OpFamily::BatchNormalization
    } else if is_activation(op) {
        OpFamily::Activation
    } else if op == "Concat"@ {
        OpFamily::Concat
    } else if is_pool(op) {
        OpFamily::Pool
    } else if op == "Gemm"@ || op == "MatMul"@ {
        OpFamily::Gemm
    } else if op == "Resize"@ {
        OpFamily::Resize
    } else if op == "Split"@ {
        OpFamily::Split
    } else if op == "Transpose"@ {
        OpFamily::Transpose
    } else {
        OpFamily::Unimplemented
    }
}

fn names_optimized_away(op: &str) -> (r: bool)
    ensures
        r == is_optimized_away(op@),
{
    text_eq(op, "Reshape") || text_eq(op, "Dropout") || text_eq(op, "Identity") || text_eq(
        op,
        "Flatten",
    ) || text_eq(op, "Squeeze") || text_eq(op, "Unsqueeze")
}

fn names_map(op: &str) -> (r: bool)
    ensures
        r == is_map(op@),
{
    text_eq(op, "Abs") || text_eq(op, "Acos") || text_eq(op, "Asin") || text_eq(op, "Atan")
        || text_eq(op, "Ceil") || text_eq(op, "Cos") || text_eq(op, "Cosh") || text_eq(op, "Exp")
        || text_eq(op, "Floor") || text_eq(op, "Log") || text_eq(op, "Round") || text_eq(
        op,
        "Sign",
    ) || text_eq(op, "Sin") || text_eq(op, "Sinh") || text_eq(op, "Sqrt") || text_eq(op, "Tan")
        || text_eq(op, "Tanh") || text_eq(op, "Reciprocal")
}

fn names_reduce(op: &str) -> (r: bool)
    ensures
        r == is_reduce(op@),
{
    text_eq(op, "ReduceMean") || text_eq(op, "ReduceSum") || text_eq(op, "ReduceMax") || text_eq(
        op,
        "ReduceMin",
    ) || text_eq(op, "ReduceProd") || text_eq(op, "ReduceL1") || text_eq(op, "ReduceL2")
        || text_eq(op, "ReduceLogSum") || text_eq(op, "ReduceLogSumExp") || text_eq(
        op,
        "ReduceSumSquare",
    )
}

fn names_arithmetic(op: &str) -> (r: bool)
    ensures
        r == is_arithmetic(op@),
{
    text_eq(op, "Add") || text_eq(op, "And") || text_eq(op, "Div") || text_eq(op, "Equal")
        || text_eq(op, "Greater") || text_eq(op, "GreaterOrEqual") || text_eq(op, "Less")
        || text_eq(op, "LessOrEqual") || text_eq(op, "Mod") || text_eq(op, "Mul") || text_eq(
        op,
        "Or",
    ) || text_eq(op, "Sub")
}

fn names_activation(op: &str) -> (r: bool)
    ensures
        r == is_activation(op@),
{
    text_eq(op, "Relu") || text_eq(op, "Sigmoid") || text_eq(op, "Softsign") || text_eq(
        op,
        "Softplus",
    ) || text_eq(op, "Clip") || text_eq(op, "Celu") || text_eq(op, "Elu") || text_eq(
        op,
        "LeakyRelu",
    )
}

fn names_pool(op: &str) -> (r: bool)
    ensures
        r == is_pool(op@),
{
    text_eq(op, "MaxPool") || text_eq(op, "AveragePool") || text_eq(op, "Conv") || text_eq(
        op,
        "ConvRelu",
    ) || text_eq(op, "ConvLeakyRelu") || text_eq(op, "ConvMish") || text_eq(
        op,
        "GlobalAveragePool",
    )
}

/// The family of an operator.
pub fn op_family(op: &str) -> (r: OpFamily)
    ensures
        r == family_of(op@),
{
    if names_optimized_away(op) {
        OpFamily::OptimizedAway
    } else if names_map(op) {
        OpFamily::Unary
    } else if names_reduce(op) {
        OpFamily::Reduce
    } else if text_eq(op, "OneHot") {
        OpFamily::OneHot
    } else if text_eq(op, "Gather") {
        OpFamily::Gather
    } else if text_eq(op, "Cast") {
        OpFamily::Cast
    } else if text_eq(op, "Softmax") {
        OpFamily::Softmax
    } else if names_arithmetic(op) {
        OpFamily::Arithmetic
    } else if text_eq(op, "BatchNormalization") {
        OpFamily::BatchNormalization
    } else if names_activation(op) {
        OpFamily::Activation
    } else if text_eq(op, "Concat") {
        OpFamily::Concat
    } else if names_pool(op) {
        OpFamily::Pool
    } else if text_eq(op, "Gemm") || text_eq(op, "MatMul") {
        OpFamily::Gemm
    } else if text_eq(op, "Resize") {
        OpFamily::Resize
    } else if text_eq(op, "Split") {
        OpFamily::Split
    } else if text_eq(op, "Transpose") {
        OpFamily::Transpose
    } else {
        OpFamily::Unimplemented
    }
}

/// The template that the family of a node selects, with the element type, the
/// extent of the dispatch as the rule of the family gives it, and the
/// variables of the family added to those of every node.
pub open spec fn selection(
    node: NodeView,
    inputs: Seq<ShapeView>,
    outputs: Seq<ShapeView>,
    opset_version: i64,
) -> Result<NodeTemplateView, CompileErrorView> {
    let base = common_bindings(node, inputs, outputs, opset_version);
    match family_of(node.op_type) {
        OpFamily::OptimizedAway => Err(CompileErrorView::InvalidOperation(node.op_type)),
        OpFamily::Unary => map_selection(node, inputs, outputs, base),
        OpFamily::Reduce => reduce_selection(node, inputs, outputs, base),
        OpFamily::OneHot => one_hot_selection(node, inputs, outputs, base),
        OpFamily::Gather => gather_selection(node, inputs, outputs, base),
        OpFamily::Cast => cast_selection(node, inputs, outputs, base),
        OpFamily::Softmax => softmax_selection(node, inputs, outputs, opset_version, base),
        OpFamily::Arithmetic => arithmetic_selection(node, inputs, outputs, base),
        OpFamily::BatchNormalization => batch_normalization_selection(
            node,
            inputs,
            outputs,
            opset_version,
            base,
        ),
        OpFamily::Activation => activation_selection(node, inputs, outputs, base),
        OpFamily::Concat => concat_selection(node, inputs, outputs, base),
        OpFamily::Pool => pool_selection(node, inputs, outputs, opset_version, base),
        OpFamily::Gemm => gemm_selection(node, inputs, outputs, base),
        OpFamily::Resize => resize_selection(node, inputs, outputs, opset_version, base),
        OpFamily::Split => split_selection(node, inputs, outputs, opset_version, base),
        OpFamily::Transpose => transpose_selection(node, inputs, outputs, opset_version, base),
        OpFamily::Unimplemented => Err(CompileErrorView::UnimplementedOp(node.op_type)),
    }
}

/// What compiling a node gives before its template is rendered: the selection
/// of its family, held against the limits of a dispatch, with the variables
/// of the element type bound.
pub open spec fn node_template_of(
    node: NodeView,
    inputs: Seq<ShapeView>,
    outputs: Seq<ShapeView>,
    opset_version: i64,
) -> Result<NodeTemplateView, CompileErrorView> {
    finished(selection(node, inputs, outputs, opset_version))
}

/// Selects the template of a node, works out the extent of its dispatch, and
/// binds the variables that the template is rendered with.
pub fn node_template(
    node: &Node,
    input_shapes: &[&Shape],
    output_shapes: &[&Shape],
    opset_version: i64,
) -> (r: Result<NodeTemplate, CompileError>)
    ensures
        matches_selection(
            r,
            node_template_of(
                node@,
                shape_views(input_shapes@),
                shape_views(output_shapes@),
                opset_version,
            ),
        ),
        r is Ok ==> r->Ok_0.threads.0 <= MAX_COMPUTE_WORKGROUPS_PER_DIMENSION
            && r->Ok_0.threads.1 <= MAX_COMPUTE_WORKGROUPS_PER_DIMENSION && r->Ok_0.threads.2
            <= MAX_COMPUTE_WORKGROUPS_PER_DIMENSION,
        r is Ok && positive(shape_views(input_shapes@)) && positive(shape_views(output_shapes@))
            && !is_small_product(node@, shape_views(input_shapes@)) ==> dispatches(r->Ok_0@),
{
    proof {
        if node_template_of(
            node@,
            shape_views(input_shapes@),
            shape_views(output_shapes@),
            opset_version,
        ) is Ok {
            lemma_threads_within_limits(
                node@,
                shape_views(input_shapes@),
                shape_views(output_shapes@),
                opset_version,
            );
        }
    }
    let family = op_family(node.op_type.as_str());
    match family {
        OpFamily::OptimizedAway => {
            return Err(CompileError::InvalidOperation(node.op_type.clone()));
        },
        OpFamily::Unimplemented => {
            return Err(CompileError::UnimplementedOp(node.op_type.clone()));
        },
        _ => {},
    }
    let environment = common_environment(node, input_shapes, output_shapes, opset_version);
    let selection = match family {
        OpFamily::Unary => select_map(node, input_shapes, output_shapes, environment),
        OpFamily::Reduce => select_reduce(node, input_shapes, output_shapes, environment),
        OpFamily::OneHot => select_one_hot(node, input_shapes, output_shapes, environment),
        OpFamily::Gather => select_gather(node, input_shapes, output_shapes, environment),
        OpFamily::Cast => select_cast(node, input_shapes, output_shapes, environment),
        OpFamily::Softmax => select_softmax(
            node,
            input_shapes,
            output_shapes,
            opset_version,
            environment,
        ),
        OpFamily::Arithmetic => select_arithmetic(node, input_shapes, output_shapes, environment),
        OpFamily::BatchNormalization => select_batch_normalization(
            node,
            input_shapes,
            output_shapes,
            opset_version,
            environment,
        ),
        OpFamily::Activation => select_activation(node, input_shapes, output_shapes, environment),
        OpFamily::Concat => select_concat(node, input_shapes, output_shapes, environment),
        OpFamily::Pool => select_pool(
            node,
            input_shapes,
            output_shapes,
            opset_version,
            environment,
        ),
        OpFamily::Gemm => select_gemm(node, input_shapes, output_shapes, environment),
        OpFamily::Resize => select_resize(
            node,
            input_shapes,
            output_shapes,
            opset_version,
            environment,
        ),
        OpFamily::Split => select_split(
            node,
            input_shapes,
            output_shapes,
            opset_version,
            environment,
        ),
        _ => select_transpose(node, input_shapes, output_shapes, opset_version, environment),
    }?;
    finish(selection)
}

/// Puts the outcome of rendering and the extent of the dispatch together: the
/// compiled node where the template was rendered, else the failure to render.
pub fn assemble(threads: (u32, u32, u32), rendered: Result<String, String>) -> (r: Result<
    CompiledNode,
    CompileError,
>)
    ensures
        match rendered {
            Ok(shader) => r is Ok && r->Ok_0.shader == shader && r->Ok_0.threads == threads,
            Err(message) => r is Err && r->Err_0@ == CompileErrorView::TemplateError(message@),
        },
{
    match rendered {
        Ok(shader) => Ok(CompiledNode { shader, threads }),
        Err(message) => Err(CompileError::TemplateError(message)),
    }
}

/// Whether a result is what rendering the selected template with a registry
/// gives: the compiled node with the rendered text and the selected extent,
/// or a failure to render.
pub open spec fn compiled_with(
    r: Result<CompiledNode, CompileError>,
    templates: tera::Tera,
    template: NodeTemplateView,
) -> bool {
    match outcome(templates, template.template, template.bindings) {
        Some(text) => r is Ok && r->Ok_0.shader@ == text && r->Ok_0.threads.0
            == template.threads.0 && r->Ok_0.threads.1 == template.threads.1
            && r->Ok_0.threads.2 == template.threads.2,
        None => r is Err && r->Err_0@ is TemplateError,
    }
}

/// Compiles a node: selects its template, works out the extent of its
/// dispatch, and renders the template from `templates` with the variables
/// bound for it.
///
/// Every reason not to compile that lies in the node, the shapes or the
/// version of the operator set is returned exactly as the selection gives it.
/// Where the selection succeeds, the result is the compiled node exactly where
/// the selected template renders with the selected variables: its shader is
/// the rendered text, and its extent the selected one, within the limit of a
/// dispatch. A template that the registry does not hold does not render, and
/// variables that hold other than simple characters are not rendered. Where all operands have
/// elements, each dimension of the dispatch holds at least one workgroup,
/// unless the node is a matrix multiplication with a product of fewer than
/// sixteen elements.
///
/// The registry has to be a plain one, as `registry` makes it: with other
/// templates the renderer is not known to return.
pub fn compile(
    node: &Node,
    input_shapes: &[&Shape],
    output_shapes: &[&Shape],
    opset_version: i64,
    templates: &tera::Tera,
) -> (r: Result<CompiledNode, CompileError>)
    requires
        plain(*templates),
    ensures
        match node_template_of(
            node@,
            shape_views(input_shapes@),
            shape_views(output_shapes@),
            opset_version,
        ) {
            Err(e) => r is Err && r->Err_0@ == e,
            Ok(template) => compiled_with(r, *templates, template),
        },
        r is Ok ==> registered(*templates).contains(
            node_template_of(
                node@,
                shape_views(input_shapes@),
                shape_views(output_shapes@),
                opset_version,
            )->Ok_0.template,
        ),
        r is Ok ==> r->Ok_0.threads.0 <= MAX_COMPUTE_WORKGROUPS_PER_DIMENSION
            && r->Ok_0.threads.1 <= MAX_COMPUTE_WORKGROUPS_PER_DIMENSION && r->Ok_0.threads.2
            <= MAX_COMPUTE_WORKGROUPS_PER_DIMENSION,
        r is Ok && positive(shape_views(input_shapes@)) && positive(shape_views(output_shapes@))
            && !is_small_product(node@, shape_views(input_shapes@)) ==> r->Ok_0.threads.0 >= 1
            && r->Ok_0.threads.1 >= 1 && r->Ok_0.threads.2 >= 1,
{
    let node_template = node_template(node, input_shapes, output_shapes, opset_version)?;
    let rendered = render(templates, node_template.template, &node_template.environment);
    assemble(node_template.threads, rendered)
}

/// Compiles a node with the templates of the given sources: selects the
/// template of the node, makes a registry of the sources, and renders.
///
/// A reason not to compile that lies in the node comes first, exactly as the
/// selection gives it; then the first source that is not plain is refused by
/// name. After that the result is the failure of the registry to take a
/// source, or what compiling with the registry of the sources gives.
pub fn compile_with_sources(
    node: &Node,
    input_shapes: &[&Shape],
    output_shapes: &[&Shape],
    opset_version: i64,
    sources: &[TemplateSource],
) -> (r: Result<CompiledNode, CompileError>)
    ensures
        match node_template_of(
            node@,
            shape_views(input_shapes@),
            shape_views(output_shapes@),
            opset_version,
        ) {
            Err(e) => r is Err && r->Err_0@ == e,
            Ok(template) => match first_refused(sources.deep_view(), 0) {
                Some(at) => r is Err && r->Err_0@ == CompileErrorView::TemplateError(
                    refusal(sources.deep_view()[at].name),
                ),
                None => (r is Err && r->Err_0@ is TemplateError && exists|
                    before: tera::Tera,
                    at: int,
                | fails_at(sources.deep_view(), before, at)) || exists|templates: tera::Tera|
                    made_of(templates, sources.deep_view()) && compiled_with(
                        r,
                        templates,
                        template,
                    ),
            },
        },
{
    let node_template = node_template(node, input_shapes, output_shapes, opset_version)?;
    let templates = registry(sources)?;
    let rendered = render(&templates, node_template.template, &node_template.environment);
    let r = assemble(node_template.threads, rendered);
    assert(made_of(templates, sources.deep_view()) && compiled_with(r, templates, node_template@));
    r
}

} // verus!
