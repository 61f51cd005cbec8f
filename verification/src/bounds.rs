//! What holds of every node that compiles: the extent of its dispatch lies
//! within the limits of a device, never more workgroups in a dimension than a
//! device offers and, where all operands have elements, at least one; and its
//! template is one of the catalog.

use crate::attributes::NodeView;
use crate::compiler::{family_of, node_template_of, selection, OpFamily};
use crate::environment::Bindings;
use crate::ops::elementwise::{
    activation_selection,
    arithmetic_selection,
    cast_selection,
    map_selection,
    split_by_fours,
};
use crate::ops::gemm::gemm_selection;
use crate::ops::index::{gather_selection, one_hot_selection};
use crate::ops::layout::{concat_selection, split_selection, transpose_selection};
use crate::ops::normalize::{batch_normalization_selection, softmax_selection};
use crate::ops::pool::pool_selection;
use crate::ops::reduce::reduce_selection;
use crate::ops::resize::resize_selection;
use crate::selection::NodeTemplateView;
use crate::templates::catalog;
use crate::types::{
    chunk_vector,
    element_count,
    multi_type_elements,
    multi_type_for_size,
    product_from,
    ScalarType,
    ShapeView,
};
use crate::workgroup::{
    ceil_div,
    lemma_ceil_div,
    lemma_split_threads,
    workgroup_split,
    MAX_COMPUTE_WORKGROUPS_PER_DIMENSION,
};
use vstd::prelude::*;

verus! {

/// Whether every dimension of every shape is at least 1.
pub open spec fn positive(shapes: Seq<ShapeView>) -> bool {
    forall|s: int, i: int|
        0 <= s < shapes.len() && 0 <= i < shapes[s].dims.len() ==> #[trigger] shapes[s].dims[i]
            >= 1
}

/// Whether every dispatch dimension holds at least one workgroup.
pub open spec fn dispatches(template: NodeTemplateView) -> bool {
    template.threads.0 >= 1 && template.threads.1 >= 1 && template.threads.2 >= 1
}

/// Whether a node is a matrix multiplication whose product has fewer than the
/// sixteen elements that one workgroup computes: its dispatch is empty.
pub open spec fn is_small_product(node: NodeView, inputs: Seq<ShapeView>) -> bool {
    &&& family_of(node.op_type) == OpFamily::Gemm
    &&& inputs.len() >= 2
    &&& inputs[0].dims.len() >= 1
    &&& inputs[1].dims.len() >= 2
    &&& inputs[0].dims[0] != 1
    &&& inputs[0].dims[0] * inputs[1].dims[1] < 16
}

/// A product of dimensions that are all at least 1 is at least 1.
pub proof fn lemma_product_positive(dims: Seq<int>, from: int)
    requires
        forall|i: int| 0 <= i < dims.len() ==> #[trigger] dims[i] >= 1,
    ensures
        product_from(dims, from) >= 1,
    decreases dims.len() - from,
{
    if 0 <= from < dims.len() {
        lemma_product_positive(dims, from + 1);
        let d = dims[from];
        let p = product_from(dims, from + 1);
        assert(d * p >= 1) by (nonlinear_arith)
            requires
                d >= 1,
                p >= 1,
        ;
    }
}

proof fn lemma_shape_has_elements(shapes: Seq<ShapeView>, s: int)
    requires
        positive(shapes),
        0 <= s < shapes.len(),
    ensures
        element_count(shapes[s].dims) >= 1,
        chunk_vector(shapes[s].dims)[0] >= 1,
{
    assert forall|i: int| 0 <= i < shapes[s].dims.len() implies #[trigger] shapes[s].dims[i]
        >= 1 by {}
    lemma_product_positive(shapes[s].dims, 0);
    lemma_product_positive(shapes[s].dims, 1);
}

proof fn lemma_split_dispatches(n: int, max_threads: int, max_group: int)
    requires
        n >= 1,
        max_threads >= 1,
        workgroup_split(n, max_threads, max_group) is Ok,
    ensures
        workgroup_split(n, max_threads, max_group)->Ok_0.0 >= 1,
        workgroup_split(n, max_threads, max_group)->Ok_0.1 >= 1,
{
    if n > max_threads {
        lemma_split_threads(n, max_threads);
    }
}

proof fn lemma_by_fours(outputs: Seq<ShapeView>)
    requires
        positive(outputs),
        outputs.len() >= 1,
        split_by_fours(outputs) is Ok,
    ensures
        split_by_fours(outputs)->Ok_0.0 >= 1,
{
    lemma_shape_has_elements(outputs, 0);
    lemma_ceil_div(element_count(outputs[0].dims), 4);
    lemma_split_dispatches(
        ceil_div(element_count(outputs[0].dims), 4),
        MAX_COMPUTE_WORKGROUPS_PER_DIMENSION as int,
        256,
    );
}

proof fn lemma_by_span(outputs: Seq<ShapeView>, span: int)
    requires
        positive(outputs),
        outputs.len() >= 1,
        span >= 1,
    ensures
        ceil_div(element_count(outputs[0].dims), span) >= 1,
{
    lemma_shape_has_elements(outputs, 0);
    lemma_ceil_div(element_count(outputs[0].dims), span);
}

proof fn lemma_elementwise(
    node: NodeView,
    inputs: Seq<ShapeView>,
    outputs: Seq<ShapeView>,
    base: Bindings,
)
    requires
        positive(outputs),
    ensures
        map_selection(node, inputs, outputs, base) matches Ok(t) ==> dispatches(t),
        arithmetic_selection(node, inputs, outputs, base) matches Ok(t) ==> dispatches(t),
        activation_selection(node, inputs, outputs, base) matches Ok(t) ==> dispatches(t),
        cast_selection(node, inputs, outputs, base) matches Ok(t) ==> dispatches(t),
{
    if outputs.len() >= 1 && split_by_fours(outputs) is Ok {
        lemma_by_fours(outputs);
    }
}

proof fn lemma_reduce(
    node: NodeView,
    inputs: Seq<ShapeView>,
    outputs: Seq<ShapeView>,
    base: Bindings,
)
    requires
        positive(outputs),
    ensures
        reduce_selection(node, inputs, outputs, base) matches Ok(t) ==> dispatches(t),
{
    if outputs.len() >= 1 {
        lemma_shape_has_elements(outputs, 0);
        let n = element_count(outputs[0].dims);
        if workgroup_split(n, MAX_COMPUTE_WORKGROUPS_PER_DIMENSION as int, 256) is Ok {
            lemma_split_dispatches(n, MAX_COMPUTE_WORKGROUPS_PER_DIMENSION as int, 256);
        }
    }
}

proof fn lemma_index(
    node: NodeView,
    inputs: Seq<ShapeView>,
    outputs: Seq<ShapeView>,
    base: Bindings,
)
    requires
        positive(inputs),
    ensures
        one_hot_selection(node, inputs, outputs, base) matches Ok(t) ==> dispatches(t),
        gather_selection(node, inputs, outputs, base) matches Ok(t) ==> dispatches(t),
{
    let limit = MAX_COMPUTE_WORKGROUPS_PER_DIMENSION as int;
    if inputs.len() >= 1 {
        lemma_shape_has_elements(inputs, 0);
        let n = element_count(inputs[0].dims);
        if workgroup_split(n, limit, 256) is Ok {
            lemma_split_dispatches(n, limit, 256);
        }
    }
    if inputs.len() >= 2 {
        lemma_shape_has_elements(inputs, 1);
        let n = element_count(inputs[1].dims);
        if workgroup_split(n, limit, 256) is Ok {
            lemma_split_dispatches(n, limit, 256);
        }
        let per_index = chunk_vector(inputs[0].dims)[0];
        assert forall|scalar_type: ScalarType|
            workgroup_split(
                ceil_div(
                    per_index,
                    #[trigger] multi_type_elements(multi_type_for_size(per_index, scalar_type)),
                ),
                limit,
                256,
            ) is Ok implies workgroup_split(
            ceil_div(per_index, multi_type_elements(multi_type_for_size(per_index, scalar_type))),
            limit,
            256,
        )->Ok_0.0 >= 1 by {
            let size = multi_type_elements(multi_type_for_size(per_index, scalar_type));
            lemma_ceil_div(per_index, size);
            lemma_split_dispatches(ceil_div(per_index, size), limit, 256);
        }
    }
}

proof fn lemma_batch_normalization(
    node: NodeView,
    inputs: Seq<ShapeView>,
    outputs: Seq<ShapeView>,
    opset_version: i64,
    base: Bindings,
)
    requires
        positive(inputs),
    ensures
        batch_normalization_selection(node, inputs, outputs, opset_version, base) matches Ok(t)
            ==> dispatches(t),
{
    if inputs.len() >= 1 && 3 <= inputs[0].dims.len() <= 4 {
        let dims = inputs[0].dims;
        let n = dims.len() as int;
        let w = dims[n - 2];
        let h = dims[n - 1];
        assert(w >= 1 && h >= 1 && dims[n - 3] >= 1 && dims[0] >= 1);
        assert(w * h >= 1) by (nonlinear_arith)
            requires
                w >= 1,
                h >= 1,
        ;
        let size = multi_type_elements(multi_type_for_size(w * h, ScalarType::F32));
        lemma_ceil_div(w * h, size);
    }
}

proof fn lemma_by_spans(
    node: NodeView,
    inputs: Seq<ShapeView>,
    outputs: Seq<ShapeView>,
    opset_version: i64,
    base: Bindings,
)
    requires
        positive(outputs),
    ensures
        concat_selection(node, inputs, outputs, base) matches Ok(t) ==> dispatches(t),
        split_selection(node, inputs, outputs, opset_version, base) matches Ok(t) ==> dispatches(
            t,
        ),
        transpose_selection(node, inputs, outputs, opset_version, base) matches Ok(t)
            ==> dispatches(t),
        resize_selection(node, inputs, outputs, opset_version, base) matches Ok(t) ==> dispatches(
            t,
        ),
        pool_selection(node, inputs, outputs, opset_version, base) matches Ok(t) ==> dispatches(t),
{
    if outputs.len() >= 1 {
        lemma_by_span(outputs, 256);
        lemma_by_span(outputs, 1024);
    }
}

proof fn lemma_gemm(
    node: NodeView,
    inputs: Seq<ShapeView>,
    outputs: Seq<ShapeView>,
    base: Bindings,
)
    requires
        positive(outputs),
        !is_small_product(node, inputs),
        family_of(node.op_type) == OpFamily::Gemm,
    ensures
        gemm_selection(node, inputs, outputs, base) matches Ok(t) ==> dispatches(t),
{
    if inputs.len() >= 2 && inputs[0].dims.len() >= 1 && inputs[1].dims.len() >= 2 {
        let product = inputs[0].dims[0] * inputs[1].dims[1];
        if product >= 16 {
            assert(product / 16 >= 1);
        }
    }
    if outputs.len() >= 1 && outputs[0].dims.len() >= 2 {
        assert(outputs[0].dims[1] >= 1);
    }
}

/// Every node that compiles is dispatched with at most as many workgroups in
/// each dimension as a device offers. Where every dimension of every input and
/// output is at least 1, each dimension of the dispatch holds at least one
/// workgroup, unless the node is a matrix multiplication with a product of
/// fewer than sixteen elements.
pub proof fn lemma_threads_within_limits(
    node: NodeView,
    inputs: Seq<ShapeView>,
    outputs: Seq<ShapeView>,
    opset_version: i64,
)
    requires
        node_template_of(node, inputs, outputs, opset_version) is Ok,
    ensures
        ({
            let template = node_template_of(node, inputs, outputs, opset_version)->Ok_0;
            &&& template.threads.0 <= MAX_COMPUTE_WORKGROUPS_PER_DIMENSION
            &&& template.threads.1 <= MAX_COMPUTE_WORKGROUPS_PER_DIMENSION
            &&& template.threads.2 <= MAX_COMPUTE_WORKGROUPS_PER_DIMENSION
            &&& positive(inputs) && positive(outputs) && !is_small_product(node, inputs)
                ==> dispatches(template)
        }),
{
    let base = crate::selection::common_bindings(node, inputs, outputs, opset_version);
    let chosen = selection(node, inputs, outputs, opset_version);
    assert(chosen is Ok);
    assert(node_template_of(node, inputs, outputs, opset_version)->Ok_0.threads
        == chosen->Ok_0.threads);
    if positive(inputs) && positive(outputs) && !is_small_product(node, inputs) {
        lemma_elementwise(node, inputs, outputs, base);
        lemma_reduce(node, inputs, outputs, base);
        lemma_index(node, inputs, outputs, base);
        lemma_batch_normalization(node, inputs, outputs, opset_version, base);
        lemma_by_spans(node, inputs, outputs, opset_version, base);
        if family_of(node.op_type) == OpFamily::Gemm {
            lemma_gemm(node, inputs, outputs, base);
        }
        assert(softmax_selection(node, inputs, outputs, opset_version, base) matches Ok(t)
            ==> dispatches(t));
    }
}

/// Every node that compiles is rendered with a template of the catalog.
pub proof fn lemma_template_is_cataloged(
    node: NodeView,
    inputs: Seq<ShapeView>,
    outputs: Seq<ShapeView>,
    opset_version: i64,
)
    requires
        node_template_of(node, inputs, outputs, opset_version) is Ok,
    ensures
        catalog().contains(node_template_of(node, inputs, outputs, opset_version)->Ok_0.template),
{
    let names = catalog();
    let chosen = selection(node, inputs, outputs, opset_version);
    assert(chosen is Ok);
    assert(node_template_of(node, inputs, outputs, opset_version)->Ok_0.template
        == chosen->Ok_0.template);
    assert(names[0] == "endomorphism/activation.wgsl"@);
    assert(names[1] == "endomorphism/arithmetic.wgsl"@);
    assert(names[2] == "endomorphism/batchnormalization.wgsl"@);
    assert(names[3] == "endomorphism/softmax.wgsl"@);
    assert(names[4] == "endomorphism/map.wgsl"@);
    assert(names[5] == "endomorphism/cast.wgsl"@);
    assert(names[6] == "matrix/concat.wgsl"@);
    assert(names[7] == "matrix/gemm_1.wgsl"@);
    assert(names[8] == "matrix/gemm.wgsl"@);
    assert(names[9] == "matrix/resize.wgsl"@);
    assert(names[10] == "matrix/split.wgsl"@);
    assert(names[11] == "matrix/transpose.wgsl"@);
    assert(names[12] == "pool/aggregate.wgsl"@);
    assert(names[13] == "pool/conv_kernel_1.wgsl"@);
    assert(names[14] == "pool/conv_kernel_3.wgsl"@);
    assert(names[15] == "pool/conv.wgsl"@);
    assert(names[16] == "pool/reduce.wgsl"@);
    assert(names[20] == "endomorphism/gather.wgsl"@);
    assert(names[21] == "endomorphism/onehot.wgsl"@);
}

} // verus!
