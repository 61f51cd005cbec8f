//! Normalisations: softmax and batch normalisation.

use crate::attributes::{find_attribute, get_attribute, AttributeType, Node, NodeView, Real};
use crate::environment::{Bindings, Environment, Value, ValueView};
use crate::error::{CompileError, CompileErrorView};
use crate::selection::{
    agreed,
    agreed_type,
    attribute,
    int_attribute,
    missing_operand,
    real_attribute,
    selected,
    selects,
    shape_views,
    NodeTemplateView,
    Selection,
};
use crate::text::{append_decimal, decimal, decimal_text};
use crate::types::{
    lemma_capacity_bounds,
    lemma_capacity_monotone,
    multi_type_elements,
    multi_type_for_size,
    multi_type_name,
    multi_type_stride,
    product_from,
    shape_text,
    MultiType,
    ScalarType,
    Shape,
    ShapeView,
};
use crate::workgroup::{ceil, ceil_div};
use vstd::prelude::*;
use vstd::slice::slice_subrange;
use vstd::string::*;

verus! {

/// The axis that softmax works along where the node names none, by the
/// version of the operator set; `None` for a version that is not supported.
pub open spec fn default_softmax_axis(opset_version: i64) -> Option<i64> {
    if 1 <= opset_version <= 12 {
        Some(1i64)
    } else if 13 <= opset_version <= 15 {
        Some(-1i64)
    } else {
        None
    }
}

/// The error for an axis that softmax cannot work along.
pub open spec fn invalid_axis(axis: int, opset_version: i64) -> CompileErrorView {
    CompileErrorView::InvalidAttributeValue {
        attribute: "axis"@,
        value: decimal(axis),
        opset_version,
    }
}

/// Softmax. An axis counted from the last one is accepted from version 13 of
/// the operator set on; only softmax along the second axis is implemented.
/// The shader is one workgroup.
pub open spec fn softmax_selection(
    node: NodeView,
    inputs: Seq<ShapeView>,
    outputs: Seq<ShapeView>,
    opset_version: i64,
    base: Bindings,
) -> Result<NodeTemplateView, CompileErrorView> {
    if inputs.len() == 0 {
        Err(CompileErrorView::InvalidOperation(node.op_type))
    } else {
        match default_softmax_axis(opset_version) {
            None => Err(CompileErrorView::UnsupportedOpsetVersion(opset_version)),
            Some(default_axis) => match attribute::<i64>(node, "axis"@, Some(default_axis)) {
                Err(e) => Err(e),
                Ok(given) => {
                    let rank = inputs[0].dims.len() as int;
                    let axis = if given < 0 {
                        given + rank
                    } else {
                        given as int
                    };
                    if given < 0 && opset_version < 13 {
                        Err(invalid_axis(given as int, opset_version))
                    } else if axis >= rank {
                        Err(invalid_axis(axis, opset_version))
                    } else if axis != 1 {
                        Err(
                            CompileErrorView::UnimplementedVariant {
                                variant: "softmax on an axis ("@ + decimal(axis)
                                    + ") other than the second with [1,n] inputs"@,
                                op: "Softmax"@,
                            },
                        )
                    } else {
                        match agreed(inputs, outputs) {
                            Err(e) => Err(e),
                            Ok(scalar_type) => Ok(
                                NodeTemplateView {
                                    scalar_type,
                                    template: "endomorphism/softmax.wgsl"@,
                                    threads: (1, 1, 1),
                                    bindings: base,
                                },
                            ),
                        }
                    }
                },
            },
        }
    }
}

fn invalid_axis_of(axis: i64, opset_version: i64) -> (r: CompileError)
    ensures
        r@ == invalid_axis(axis as int, opset_version),
{
    CompileError::InvalidAttributeValue {
        attribute: String::from_str("axis"),
        value: decimal_text(axis),
        opset_version,
    }
}

/// Selects the template of softmax.
pub fn select_softmax(
    node: &Node,
    input_shapes: &[&Shape],
    output_shapes: &[&Shape],
    opset_version: i64,
    environment: Environment,
) -> (r: Result<Selection, CompileError>)
    ensures
        selects(
            r,
            softmax_selection(
                node@,
                shape_views(input_shapes@),
                shape_views(output_shapes@),
                opset_version,
                environment@,
            ),
        ),
{
    if input_shapes.len() == 0 {
        return Err(missing_operand(node));
    }
    let default_axis: i64 = if 1 <= opset_version && opset_version <= 12 {
        1
    } else if 13 <= opset_version && opset_version <= 15 {
        -1
    } else {
        return Err(CompileError::UnsupportedOpsetVersion(opset_version));
    };
    let mut axis = int_attribute("axis", Some(default_axis), node)?;
    input_shapes[0].bounded();
    let rank = input_shapes[0].rank() as i64;
    if axis < 0 {
        if opset_version >= 13 {
            axis = axis + rank;
        } else {
            return Err(invalid_axis_of(axis, opset_version));
        }
    }
    if axis >= rank {
        return Err(invalid_axis_of(axis, opset_version));
    }
    if axis != 1 {
        let mut variant = String::from_str("softmax on an axis (");
        append_decimal(&mut variant, axis);
        variant.append(") other than the second with [1,n] inputs");
        return Err(CompileError::UnimplementedVariant { variant, op: String::from_str("Softmax") });
    }
    let scalar_type = agreed_type(input_shapes, output_shapes)?;
    selected(scalar_type, "endomorphism/softmax.wgsl", 1, 1, 1, environment)
}

/// The batches, the channels and the elements of one channel of the input of
/// a batch normalisation, which has rank three (one batch) or four.
pub open spec fn batches(dims: Seq<int>) -> int {
    if dims.len() == 4 {
        dims[0]
    } else {
        1
    }
}

/// The number of channels of the input of a batch normalisation.
pub open spec fn channels(dims: Seq<int>) -> int {
    dims[dims.len() - 3]
}

/// The number of elements in one channel of the input of a batch
/// normalisation.
pub open spec fn channel_elements(dims: Seq<int>) -> int {
    dims[dims.len() - 2] * dims[dims.len() - 1]
}

/// Batch normalisation of an input of rank three or four. The attribute
/// `spatial`, which versions of the operator set before the ninth gave another
/// meaning, is refused. The x dimension runs over the elements of one channel,
/// in the widest packed type that divides their number, the y dimension over
/// the channels, and the z dimension over the batches.
pub open spec fn batch_normalization_selection(
    node: NodeView,
    inputs: Seq<ShapeView>,
    outputs: Seq<ShapeView>,
    opset_version: i64,
    base: Bindings,
) -> Result<NodeTemplateView, CompileErrorView> {
    if inputs.len() == 0 || outputs.len() == 0 {
        Err(CompileErrorView::InvalidOperation(node.op_type))
    } else if find_attribute(node.attributes, "spatial"@) is Some {
        if opset_version < 9 {
            Err(
                CompileErrorView::UnimplementedVariant {
                    op: "BatchNormalization"@,
                    variant: "spatial"@,
                },
            )
        } else {
            Err(
                CompileErrorView::InvalidAttributeValue {
                    attribute: "spatial"@,
                    opset_version,
                    value: decimal(
                        i64::decoded(find_attribute(node.attributes, "spatial"@)->Some_0) as int,
                    ),
                },
            )
        }
    } else if inputs[0].dims.len() <= 2 || inputs[0].dims.len() > 4 {
        Err(
            CompileErrorView::UnimplementedVariant {
                op: "BatchNormalization"@,
                variant: "with input "@ + shape_text(inputs[0]),
            },
        )
    } else {
        let dims = inputs[0].dims;
        if batches(dims) == 0 || channels(dims) == 0 {
            Err(CompileErrorView::InvalidInputShape { input_index: 0, input_shape: inputs[0] })
        } else {
            let elem_type = multi_type_for_size(channel_elements(dims), ScalarType::F32);
            let elements = multi_type_elements(elem_type);
            match attribute::<Real>(node, "epsilon"@, Some("0.00001"@)) {
                Err(e) => Err(e),
                Ok(epsilon) => match agreed(inputs.subrange(0, 1), outputs.subrange(0, 1)) {
                    Err(e) => Err(e),
                    Ok(scalar_type) => Ok(
                        NodeTemplateView {
                            scalar_type,
                            template: "endomorphism/batchnormalization.wgsl"@,
                            threads: (
                                ceil_div(channel_elements(dims), elements),
                                channels(dims),
                                batches(dims),
                            ),
                            bindings: base.insert(
                                "elem_type"@,
                                ValueView::Text(multi_type_name(elem_type)),
                            ).insert(
                                "elem_stride"@,
                                ValueView::Number(multi_type_stride(elem_type)),
                            ).insert("epsilon"@, ValueView::Text(epsilon)).insert(
                                "batch_size"@,
                                ValueView::Number(
                                    ceil_div(channels(dims) * channel_elements(dims), elements),
                                ),
                            ).insert(
                                "channel_size"@,
                                ValueView::Number(ceil_div(channel_elements(dims), elements)),
                            ),
                        },
                    ),
                },
            }
        }
    }
}

/// Selects the template of a batch normalisation.
pub fn select_batch_normalization(
    node: &Node,
    input_shapes: &[&Shape],
    output_shapes: &[&Shape],
    opset_version: i64,
    environment: Environment,
) -> (r: Result<Selection, CompileError>)
    ensures
        selects(
            r,
            batch_normalization_selection(
                node@,
                shape_views(input_shapes@),
                shape_views(output_shapes@),
                opset_version,
                environment@,
            ),
        ),
{
    if input_shapes.len() == 0 || output_shapes.len() == 0 {
        return Err(missing_operand(node));
    }
    if let Ok(spatial_value) = get_attribute::<i64>("spatial", None, node) {
        if opset_version < 9 {
            return Err(
                CompileError::UnimplementedVariant {
                    op: String::from_str("BatchNormalization"),
                    variant: String::from_str("spatial"),
                },
            );
        } else {
            return Err(
                CompileError::InvalidAttributeValue {
                    attribute: String::from_str("spatial"),
                    opset_version,
                    value: decimal_text(spatial_value),
                },
            );
        }
    }
    let input = input_shapes[0];
    input.bounded();
    let rank = input.rank();
    if rank <= 2 || rank > 4 {
        let mut variant = String::from_str("with input ");
        variant.append(input.text().as_str());
        return Err(
            CompileError::UnimplementedVariant {
                op: String::from_str("BatchNormalization"),
                variant,
            },
        );
    }
    let input_batches = if rank == 4 {
        input.dim(0)
    } else {
        1
    };
    let input_channels = input.dim(rank - 3);
    let input_w = input.dim(rank - 2);
    let input_h = input.dim(rank - 1);
    if input_batches == 0 || input_channels == 0 {
        return Err(CompileError::InvalidInputShape { input_index: 0, input_shape: input.clone() });
    }
    proof {
        let dims = input@.dims;
        let n = dims.len() as int;
        lemma_capacity_bounds(dims, n - 3);
        lemma_capacity_bounds(dims, n - 2);
        lemma_capacity_bounds(dims, n - 1);
        lemma_capacity_monotone(dims, 0, n - 3);
        lemma_capacity_monotone(dims, n - 3, n - 2);
        assert(product_from(dims, n) == 1);
        assert(product_from(dims, n - 1) == dims[n - 1] * product_from(dims, n));
        assert(product_from(dims, n - 2) == dims[n - 2] * product_from(dims, n - 1));
        assert(product_from(dims, n - 3) == dims[n - 3] * product_from(dims, n - 2));
        assert(product_from(dims, n - 2) == input_w * input_h);
        assert(product_from(dims, n - 3) == input_channels * (input_w * input_h));
    }
    let channel_elements = input_w * input_h;
    let elem_type = MultiType::for_size(channel_elements, ScalarType::F32);
    let elements = elem_type.elements() as u64;
    let mut environment = environment;
    environment.bind("elem_type", Value::Text(elem_type.wgsl_type_name()));
    environment.bind("elem_stride", Value::UInt(elem_type.stride() as u64));
    let epsilon = real_attribute("epsilon", Some("0.00001"), node)?;
    environment.bind("epsilon", Value::Text(epsilon));
    environment.bind("batch_size", Value::UInt(ceil(input_channels * channel_elements, elements)));
    environment.bind("channel_size", Value::UInt(ceil(channel_elements, elements)));
    let first_input = slice_subrange(input_shapes, 0, 1);
    assert(shape_views(first_input@) =~= shape_views(input_shapes@).subrange(0, 1));
    let first_output = slice_subrange(output_shapes, 0, 1);
    assert(shape_views(first_output@) =~= shape_views(output_shapes@).subrange(0, 1));
    let scalar_type = agreed_type(first_input, first_output)?;
    selected(
        scalar_type,
        "endomorphism/batchnormalization.wgsl",
        ceil(channel_elements, elements),
        input_channels,
        input_batches,
        environment,
    )
}

} // verus!
