//! Operators that work on each element by itself: functions of one element,
//! arithmetic on two, activations and casts. One invocation handles four
//! elements.

use crate::attributes::{Node, NodeView, Real};
use crate::environment::{Bindings, Environment, Value, ValueView};
use crate::error::{CompileError, CompileErrorView};
use crate::selection::{
    agreed,
    agreed_type,
    attribute,
    int_attribute,
    missing_operand,
    real_attribute,
    selected,
    selects,
    shape_views,
    NodeTemplateView,
    Selection,
};
use crate::text::text_eq;
use crate::types::{element_count, scalar_name, scalar_of_code, ScalarType, Shape, ShapeView};
use crate::workgroup::{
    ceil,
    ceil_div,
    workgroup_size,
    workgroup_split,
    MAX_COMPUTE_WORKGROUPS_PER_DIMENSION,
    MAX_WORKGROUP_SIZE_X,
};
use vstd::prelude::*;
use vstd::string::*;

verus! {

/// The split into workgroups of an operator that handles four elements of its
/// first output in one invocation.
pub open spec fn split_by_fours(outputs: Seq<ShapeView>) -> Result<(int, int), CompileErrorView> {
    workgroup_split(
        ceil_div(element_count(outputs[0].dims), 4),
        MAX_COMPUTE_WORKGROUPS_PER_DIMENSION as int,
        MAX_WORKGROUP_SIZE_X as int,
    )
}

/// A function of one element, applied to every element.
pub open spec fn map_selection(
    node: NodeView,
    inputs: Seq<ShapeView>,
    outputs: Seq<ShapeView>,
    base: Bindings,
) -> Result<NodeTemplateView, CompileErrorView> {
    if outputs.len() == 0 {
        Err(CompileErrorView::InvalidOperation(node.op_type))
    } else {
        match split_by_fours(outputs) {
            Err(e) => Err(e),
            Ok((threads, group)) => match agreed(inputs, outputs) {
                Err(e) => Err(e),
                Ok(scalar_type) => Ok(
                    NodeTemplateView {
                        scalar_type,
                        template: "endomorphism/map.wgsl"@,
                        threads: (threads, 1, 1),
                        bindings: base.insert("workgroup_size_x"@, ValueView::Number(group)),
                    },
                ),
            },
        }
    }
}

/// Selects the template of a function of one element.
pub fn select_map(
    node: &Node,
    input_shapes: &[&Shape],
    output_shapes: &[&Shape],
    environment: Environment,
) -> (r: Result<Selection, CompileError>)
    ensures
        selects(
            r,
            map_selection(
                node@,
                shape_views(input_shapes@),
                shape_views(output_shapes@),
                environment@,
            ),
        ),
{
    if output_shapes.len() == 0 {
        return Err(missing_operand(node));
    }
    let mut environment = environment;
    let (x_threads, workgroup_size_x) = workgroup_size(
        ceil(output_shapes[0].element_count(), 4),
        MAX_COMPUTE_WORKGROUPS_PER_DIMENSION,
        MAX_WORKGROUP_SIZE_X,
    )?;
    environment.bind("workgroup_size_x", Value::UInt(workgroup_size_x as u64));
    let scalar_type = agreed_type(input_shapes, output_shapes)?;
    selected(scalar_type, "endomorphism/map.wgsl", x_threads as u64, 1, 1, environment)
}

/// The sign that shader source writes for an arithmetic operator.
pub open spec fn operator_symbol(op: Seq<char>) -> Option<Seq<char>> {
    if op == "Add"@ {
        Some("+"@)
    } else if op == "And"@ {
        Some("&"@)
    } else if op == "Div"@ {
        Some("/"@)
    } else if op == "Equal"@ {
        Some("=="@)
    } else if op == "Greater"@ {
        Some(">"@)
    } else if op == "GreaterOrEqual"@ {
        Some(">="@)
    } else if op == "Less"@ {
        Some("<"@)
    } else if op == "LessOrEqual"@ {
        Some("<="@)
    } else if op == "Mod"@ {
        Some("%"@)
    } else if op == "Mul"@ {
        Some("*"@)
    } else if op == "Or"@ {
        Some("|"@)
    } else if op == "Sub"@ {
        Some("-"@)
    } else {
        None
    }
}

/// The sign that shader source writes for an arithmetic operator.
pub fn symbol_of(op: &str) -> (r: Option<&'static str>)
    ensures
        match operator_symbol(op@) {
            Some(symbol) => r is Some && r->Some_0@ == symbol,
            None => r is None,
        },
{
    if text_eq(op, "Add") {
        Some("+")
    } else if text_eq(op, "And") {
        Some("&")
    } else if text_eq(op, "Div") {
        Some("/")
    } else if text_eq(op, "Equal") {
        Some("==")
    } else if text_eq(op, "Greater") {
        Some(">")
    } else if text_eq(op, "GreaterOrEqual") {
        Some(">=")
    } else if text_eq(op, "Less") {
        Some("<")
    } else if text_eq(op, "LessOrEqual") {
        Some("<=")
    } else if text_eq(op, "Mod") {
        Some("%")
    } else if text_eq(op, "Mul") {
        Some("*")
    } else if text_eq(op, "Or") {
        Some("|")
    } else if text_eq(op, "Sub") {
        Some("-")
    } else {
        None
    }
}

/// Arithmetic on the elements of two tensors. The variable `op_type` is bound
/// anew, to the sign of the operator.
pub open spec fn arithmetic_selection(
    node: NodeView,
    inputs: Seq<ShapeView>,
    outputs: Seq<ShapeView>,
    base: Bindings,
) -> Result<NodeTemplateView, CompileErrorView> {
    if outputs.len() == 0 {
        Err(CompileErrorView::InvalidOperation(node.op_type))
    } else {
        match attribute::<Real>(node, "coefficient"@, Some("1"@)) {
            Err(e) => Err(e),
            Ok(coefficient) => match operator_symbol(node.op_type) {
                None => Err(CompileErrorView::UnimplementedOp(node.op_type)),
                Some(symbol) => match split_by_fours(outputs) {
                    Err(e) => Err(e),
                    Ok((threads, group)) => match agreed(inputs, outputs) {
                        Err(e) => Err(e),
                        Ok(scalar_type) => Ok(
                            NodeTemplateView {
                                scalar_type,
                                template: "endomorphism/arithmetic.wgsl"@,
                                threads: (threads, 1, 1),
                                bindings: base.insert(
                                    "coefficient"@,
                                    ValueView::Text(coefficient),
                                ).insert("op_type"@, ValueView::Text(symbol)).insert(
                                    "workgroup_size_x"@,
                                    ValueView::Number(group),
                                ),
                            },
                        ),
                    },
                },
            },
        }
    }
}

/// Selects the template of an arithmetic operator.
pub fn select_arithmetic(
    node: &Node,
    input_shapes: &[&Shape],
    output_shapes: &[&Shape],
    environment: Environment,
) -> (r: Result<Selection, CompileError>)
    ensures
        selects(
            r,
            arithmetic_selection(
                node@,
                shape_views(input_shapes@),
                shape_views(output_shapes@),
                environment@,
            ),
        ),
{
    if output_shapes.len() == 0 {
        return Err(missing_operand(node));
    }
    let mut environment = environment;
    let coefficient = real_attribute("coefficient", Some("1"), node)?;
    environment.bind("coefficient", Value::Text(coefficient));
    let symbol = match symbol_of(node.op_type.as_str()) {
        Some(symbol) => symbol,
        None => {
            return Err(CompileError::UnimplementedOp(node.op_type.clone()));
        },
    };
    environment.bind("op_type", Value::Text(String::from_str(symbol)));
    let (x_threads, workgroup_size_x) = workgroup_size(
        ceil(output_shapes[0].element_count(), 4),
        MAX_COMPUTE_WORKGROUPS_PER_DIMENSION,
        MAX_WORKGROUP_SIZE_X,
    )?;
    environment.bind("workgroup_size_x", Value::UInt(workgroup_size_x as u64));
    let scalar_type = agreed_type(input_shapes, output_shapes)?;
    selected(scalar_type, "endomorphism/arithmetic.wgsl", x_threads as u64, 1, 1, environment)
}

/// An activation function, applied to every element.
pub open spec fn activation_selection(
    node: NodeView,
    inputs: Seq<ShapeView>,
    outputs: Seq<ShapeView>,
    base: Bindings,
) -> Result<NodeTemplateView, CompileErrorView> {
    if outputs.len() == 0 {
        Err(CompileErrorView::InvalidOperation(node.op_type))
    } else {
        match attribute::<Real>(node, "alpha"@, Some("1"@)) {
            Err(e) => Err(e),
            Ok(alpha) => match split_by_fours(outputs) {
                Err(e) => Err(e),
                Ok((threads, group)) => match agreed(inputs, outputs) {
                    Err(e) => Err(e),
                    Ok(scalar_type) => Ok(
                        NodeTemplateView {
                            scalar_type,
                            template: "endomorphism/activation.wgsl"@,
                            threads: (threads, 1, 1),
                            bindings: base.insert("alpha"@, ValueView::Text(alpha)).insert(
                                "workgroup_size_x"@,
                                ValueView::Number(group),
                            ),
                        },
                    ),
                },
            },
        }
    }
}

/// Selects the template of an activation function.
pub fn select_activation(
    node: &Node,
    input_shapes: &[&Shape],
    output_shapes: &[&Shape],
    environment: Environment,
) -> (r: Result<Selection, CompileError>)
    ensures
        selects(
            r,
            activation_selection(
                node@,
                shape_views(input_shapes@),
                shape_views(output_shapes@),
                environment@,
            ),
        ),
{
    if output_shapes.len() == 0 {
        return Err(missing_operand(node));
    }
    let mut environment = environment;
    let alpha = real_attribute("alpha", Some("1"), node)?;
    environment.bind("alpha", Value::Text(alpha));
    let (x_threads, workgroup_size_x) = workgroup_size(
        ceil(output_shapes[0].element_count(), 4),
        MAX_COMPUTE_WORKGROUPS_PER_DIMENSION,
        MAX_WORKGROUP_SIZE_X,
    )?;
    environment.bind("workgroup_size_x", Value::UInt(workgroup_size_x as u64));
    let scalar_type = agreed_type(input_shapes, output_shapes)?;
    selected(scalar_type, "endomorphism/activation.wgsl", x_threads as u64, 1, 1, environment)
}

/// The data-type code that an attribute value is read as: the value itself
/// where it fits in 32 bits, else the nearest number that does.
pub open spec fn code_of(value: i64) -> i32 {
    if value > i32::MAX {
        i32::MAX
    } else if value < i32::MIN {
        i32::MIN
    } else {
        value as i32
    }
}

/// A cast to the element type that the attribute `to` names. Only the inputs
/// have to agree on an element type.
pub open spec fn cast_selection(
    node: NodeView,
    inputs: Seq<ShapeView>,
    outputs: Seq<ShapeView>,
    base: Bindings,
) -> Result<NodeTemplateView, CompileErrorView> {
    if outputs.len() == 0 {
        Err(CompileErrorView::InvalidOperation(node.op_type))
    } else {
        match attribute::<i64>(node, "to"@, None) {
            Err(e) => Err(e),
            Ok(to) => match scalar_of_code(code_of(to)) {
                Err(e) => Err(CompileErrorView::InvalidType(e)),
                Ok(cast_to_type) => match split_by_fours(outputs) {
                    Err(e) => Err(e),
                    Ok((threads, group)) => match agreed(inputs, Seq::empty()) {
                        Err(e) => Err(e),
                        Ok(scalar_type) => Ok(
                            NodeTemplateView {
                                scalar_type,
                                template: "endomorphism/cast.wgsl"@,
                                threads: (threads, 1, 1),
                                bindings: base.insert(
                                    "cast_to_type"@,
                                    ValueView::Text(scalar_name(cast_to_type)),
                                ).insert("workgroup_size_x"@, ValueView::Number(group)),
                            },
                        ),
                    },
                },
            },
        }
    }
}

/// Selects the template of a cast.
pub fn select_cast(
    node: &Node,
    input_shapes: &[&Shape],
    output_shapes: &[&Shape],
    environment: Environment,
) -> (r: Result<Selection, CompileError>)
    ensures
        selects(
            r,
            cast_selection(
                node@,
                shape_views(input_shapes@),
                shape_views(output_shapes@),
                environment@,
            ),
        ),
{
    if output_shapes.len() == 0 {
        return Err(missing_operand(node));
    }
    let mut environment = environment;
    let to = int_attribute("to", None, node)?;
    let code: i32 = if to > i32::MAX as i64 {
        i32::MAX
    } else if to < i32::MIN as i64 {
        i32::MIN
    } else {
        to as i32
    };
    let cast_to_type = match ScalarType::from_i32(code) {
        Ok(t) => t,
        Err(e) => {
            return Err(CompileError::InvalidType(e));
        },
    };
    environment.bind("cast_to_type", Value::Text(String::from_str(cast_to_type.wgsl_type_name())));
    let (x_threads, workgroup_size_x) = workgroup_size(
        ceil(output_shapes[0].element_count(), 4),
        MAX_COMPUTE_WORKGROUPS_PER_DIMENSION,
        MAX_WORKGROUP_SIZE_X,
    )?;
    environment.bind("workgroup_size_x", Value::UInt(workgroup_size_x as u64));
    let none: Vec<&Shape> = Vec::new();
    assert(shape_views(none@) =~= Seq::<ShapeView>::empty());
    let scalar_type = agreed_type(input_shapes, none.as_slice())?;
    selected(scalar_type, "endomorphism/cast.wgsl", x_threads as u64, 1, 1, environment)
}

} // verus!
