//! Matrix multiplication, general or plain.

use crate::attributes::{find_attribute, AttributeType, Node, NodeView, Real};
use crate::environment::{Bindings, Environment, Value, ValueView};
use crate::error::{CompileError, CompileErrorView};
use crate::selection::{
    agreed,
    agreed_type,
    attribute,
    int_attribute,
    missing_operand,
    real_attribute,
    selected,
    selects,
    shape_views,
    NodeTemplateView,
    Selection,
};
use crate::text::text_eq;
use crate::types::{Shape, ShapeView};
use vstd::prelude::*;
use vstd::string::*;

verus! {

/// The value of an integer attribute that is zero where it is absent.
pub open spec fn flag(node: NodeView, name: Seq<char>) -> i64 {
    match find_attribute(node.attributes, name) {
        Some(value) => i64::decoded(value),
        None => 0,
    }
}

/// Whether a general matrix multiplication asks for a transposed operand or
/// for broadcasting, none of which is implemented.
pub open spec fn has_unimplemented_options(node: NodeView) -> bool {
    node.op_type == "Gemm"@ && (flag(node, "transA"@) != 0 || flag(node, "transB"@) != 0 || flag(
        node,
        "broadcast"@,
    ) != 0)
}

/// The template and the dispatch of a matrix multiplication: a first input of
/// one row has a shader of its own, with one workgroup for each column of the
/// output; else one workgroup computes sixteen elements of the product.
pub open spec fn gemm_dispatch(
    node: NodeView,
    inputs: Seq<ShapeView>,
    outputs: Seq<ShapeView>,
    bindings: Bindings,
) -> Result<NodeTemplateView, CompileErrorView> {
    if inputs.len() == 0 {
        Err(CompileErrorView::InvalidOperation(node.op_type))
    } else if inputs[0].dims.len() == 0 {
        Err(CompileErrorView::InvalidInputShape { input_index: 0, input_shape: inputs[0] })
    } else if inputs[0].dims[0] == 1 {
        if outputs.len() == 0 || outputs[0].dims.len() < 2 {
            Err(CompileErrorView::InvalidOperation(node.op_type))
        } else {
            match agreed(inputs, outputs) {
                Err(e) => Err(e),
                Ok(scalar_type) => Ok(
                    NodeTemplateView {
                        scalar_type,
                        template: "matrix/gemm_1.wgsl"@,
                        threads: (outputs[0].dims[1], 1, 1),
                        bindings,
                    },
                ),
            }
        }
    } else if inputs.len() < 2 {
        Err(CompileErrorView::InvalidOperation(node.op_type))
    } else if inputs[1].dims.len() < 2 {
        Err(CompileErrorView::InvalidInputShape { input_index: 1, input_shape: inputs[1] })
    } else {
        match agreed(inputs, outputs) {
            Err(e) => Err(e),
            Ok(scalar_type) => Ok(
                NodeTemplateView {
                    scalar_type,
                    template: "matrix/gemm.wgsl"@,
                    threads: (inputs[0].dims[0] * inputs[1].dims[1] / 16, 1, 1),
                    bindings,
                },
            ),
        }
    }
}

/// A matrix multiplication.
pub open spec fn gemm_selection(
    node: NodeView,
    inputs: Seq<ShapeView>,
    outputs: Seq<ShapeView>,
    base: Bindings,
) -> Result<NodeTemplateView, CompileErrorView> {
    match attribute::<Real>(node, "alpha"@, Some("1"@)) {
        Err(e) => Err(e),
        Ok(alpha) => match attribute::<Real>(node, "beta"@, Some("1"@)) {
            Err(e) => Err(e),
            Ok(beta) => if has_unimplemented_options(node) {
                Err(
                    CompileErrorView::UnimplementedVariant {
                        variant: "Gemm with transA/transB/broadcast not equal to zero"@,
                        op: node.op_type,
                    },
                )
            } else {
                gemm_dispatch(
                    node,
                    inputs,
                    outputs,
                    base.insert("alpha"@, ValueView::Text(alpha)).insert(
                        "beta"@,
                        ValueView::Text(beta),
                    ),
                )
            },
        },
    }
}

/// Selects the template of a matrix multiplication.
pub fn select_gemm(
    node: &Node,
    input_shapes: &[&Shape],
    output_shapes: &[&Shape],
    environment: Environment,
) -> (r: Result<Selection, CompileError>)
    ensures
        selects(
            r,
            gemm_selection(
                node@,
                shape_views(input_shapes@),
                shape_views(output_shapes@),
                environment@,
            ),
        ),
{
    let alpha = real_attribute("alpha", Some("1"), node)?;
    let beta = real_attribute("beta", Some("1"), node)?;
    if text_eq(node.op_type.as_str(), "Gemm") {
        let transpose_a = int_attribute("transA", Some(0), node)?;
        let transpose_b = int_attribute("transB", Some(0), node)?;
        let broadcast = int_attribute("broadcast", Some(0), node)?;
        if transpose_a != 0 || transpose_b != 0 || broadcast != 0 {
            return Err(
                CompileError::UnimplementedVariant {
                    variant: String::from_str(
                        "Gemm with transA/transB/broadcast not equal to zero",
                    ),
                    op: node.op_type.clone(),
                },
            );
        }
    }
    let mut environment = environment;
    environment.bind("alpha", Value::Text(alpha));
    environment.bind("beta", Value::Text(beta));
    dispatch_gemm(node, input_shapes, output_shapes, environment)
}

/// Chooses the template and the dispatch of a matrix multiplication.
pub fn dispatch_gemm(
    node: &Node,
    input_shapes: &[&Shape],
    output_shapes: &[&Shape],
    environment: Environment,
) -> (r: Result<Selection, CompileError>)
    ensures
        selects(
            r,
            gemm_dispatch(
                node@,
                shape_views(input_shapes@),
                shape_views(output_shapes@),
                environment@,
            ),
        ),
{
    if input_shapes.len() == 0 {
        return Err(missing_operand(node));
    }
    let left = input_shapes[0];
    if left.rank() == 0 {
        return Err(CompileError::InvalidInputShape { input_index: 0, input_shape: left.clone() });
    }
    if left.dim(0) == 1 {
        if output_shapes.len() == 0 || output_shapes[0].rank() < 2 {
            return Err(missing_operand(node));
        }
        let scalar_type = agreed_type(input_shapes, output_shapes)?;
        selected(scalar_type, "matrix/gemm_1.wgsl", output_shapes[0].dim(1), 1, 1, environment)
    } else {
        if input_shapes.len() < 2 {
            return Err(missing_operand(node));
        }
        let right = input_shapes[1];
        if right.rank() < 2 {
            return Err(
                CompileError::InvalidInputShape { input_index: 1, input_shape: right.clone() },
            );
        }
        let scalar_type = agreed_type(input_shapes, output_shapes)?;
        let rows = left.dim(0) as u128;
        let columns = right.dim(1) as u128;
        assert(rows * columns <= 0xffff_ffff_ffff_ffff * 0xffff_ffff_ffff_ffff) by (nonlinear_arith)
            requires
                0 <= rows <= 0xffff_ffff_ffff_ffff,
                0 <= columns <= 0xffff_ffff_ffff_ffff,
        ;
        Ok(
            Selection {
                scalar_type,
                template: "matrix/gemm.wgsl",
                threads: (rows * columns / 16, 1, 1),
                environment,
            },
        )
    }
}

} // verus!
