//! Resizing by scale factors.

use crate::attributes::{Node, NodeView, Real};
use crate::environment::{Bindings, Environment, Value, ValueView};
use crate::error::{CompileError, CompileErrorView};
use crate::ops::pool::invalid_list;
use crate::selection::{
    agreed,
    agreed_type,
    attribute,
    int_attribute,
    ints_attribute,
    missing_operand,
    real_attribute,
    reals_attribute,
    selected,
    selects,
    shape_views,
    text_attribute,
    NodeTemplateView,
    Selection,
};
use crate::decimal::{append_two_decimals, two_decimals, two_decimals_of, with_two_decimals};
use crate::text::{list_text_of, text_eq};
use crate::types::{element_count, signed_numbers, Shape, ShapeView};
use crate::workgroup::{ceil, ceil_div};
use vstd::prelude::*;
use vstd::slice::slice_subrange;
use vstd::string::*;

verus! {

/// A hundred times `size` divided by `dim`, rounded to the nearest integer,
/// a tie to the even one. The tie is decided on the exact quotient, not on a
/// floating-point number near it: 3 over 200 is a tie and gives 2, where a
/// division in single precision falls just below the tie and gives 1.
pub open spec fn hundredths(size: int, dim: int) -> int {
    let quotient = (100 * size) / dim;
    let remainder = (100 * size) % dim;
    if 2 * remainder > dim || (2 * remainder == dim && quotient % 2 == 1) {
        quotient + 1
    } else {
        quotient
    }
}

/// The writing, with two decimals, of the factor by which an axis of size
/// `dim` grows to size `size`. The exact quotient is meant, not a
/// floating-point number near it: 1015 over 1000 is half way between two
/// hundredths and is written 1.02, where single precision falls below the
/// half and gives 1.01. The factor for an axis of size zero is written
/// as infinite, or as no number where the new size is zero too.
pub open spec fn ratio_text(size: int, dim: int) -> Seq<char> {
    if dim == 0 {
        if size > 0 {
            "inf"@
        } else if size < 0 {
            "-inf"@
        } else {
            "NaN"@
        }
    } else if size < 0 {
        "-"@ + two_decimals(hundredths(-size, dim))
    } else {
        two_decimals(hundredths(size, dim))
    }
}

/// The factor of each axis for which a new size is given.
pub open spec fn ratio_texts(sizes: Seq<i64>, dims: Seq<int>) -> Seq<Seq<char>> {
    Seq::new(sizes.len(), |i: int| ratio_text(sizes[i] as int, dims[i]))
}

/// The error for an option of a resize that is not implemented.
pub open spec fn unimplemented_resize(option: Seq<char>, value: Seq<char>) -> CompileErrorView {
    CompileErrorView::UnimplementedVariant { op: "Resize"@, variant: option + "="@ + value }
}

/// The variables of the way in which coordinates of the output are mapped to
/// the input. A mapping that crops needs the region to crop to.
pub open spec fn coordinate_bindings(node: NodeView, mode: Seq<char>, bindings: Bindings)
    -> Result<Bindings, CompileErrorView> {
    if mode == "half_pixel"@ || mode == "pytorch_half_pixel"@ || mode == "align_corners"@ || mode
        == "asymmetric"@ {
        Ok(bindings)
    } else if mode == "tf_crop_and_resize"@ {
        match attribute::<Vec<i64>>(node, "roi"@, None) {
            Err(e) => Err(e),
            Ok(roi) => match attribute::<Real>(node, "extrapolation_value"@, Some("0"@)) {
                Err(e) => Err(e),
                Ok(extrapolation_value) => Ok(
                    bindings.insert("roi"@, ValueView::numbers(signed_numbers(roi))).insert(
                        "extrapolation_value"@,
                        ValueView::Text(extrapolation_value),
                    ),
                ),
            },
        }
    } else {
        Err(unimplemented_resize("coordinate_transformation_mode"@, mode))
    }
}

/// The literals of a list, each written with two decimals.
pub open spec fn rounded_literals(literals: Seq<Seq<char>>) -> Seq<Seq<char>> {
    Seq::new(literals.len(), |i: int| with_two_decimals(literals[i]))
}

/// The scale factors as the template gets them, written with two decimals:
/// those of the attribute `scales` where it holds any, else the factors that
/// the attribute `sizes` gives for the leading axes of the input.
pub open spec fn scale_prints(
    node: NodeView,
    scales: Seq<Seq<char>>,
    input: ShapeView,
    opset_version: i64,
) -> Result<Seq<Seq<char>>, CompileErrorView> {
    if scales.len() > 0 {
        Ok(rounded_literals(scales))
    } else {
        match attribute::<Vec<i64>>(node, "sizes"@, Some(Seq::empty())) {
            Err(e) => Err(e),
            Ok(sizes) => if sizes.len() > input.dims.len() {
                Err(invalid_list("sizes"@, sizes, opset_version))
            } else {
                Ok(ratio_texts(sizes, input.dims))
            },
        }
    }
}

/// Why a way of interpolating is not implemented: only the nearest element,
/// rounded down, is.
pub open spec fn interpolation_error(node: NodeView, mode: Seq<char>) -> Option<
    CompileErrorView,
> {
    if mode == "nearest"@ {
        match attribute::<String>(node, "nearest_mode"@, Some("round_prefer_floor"@)) {
            Err(e) => Some(e),
            Ok(nearest_mode) => if nearest_mode == "floor"@ {
                None
            } else {
                Some(unimplemented_resize("nearest_mode"@, nearest_mode))
            },
        }
    } else {
        Some(unimplemented_resize("mode"@, mode))
    }
}

/// The variables of the interpolation: its way, the scale factors, and whether
/// elements outside the input are left out.
pub open spec fn interpolation_bindings(
    bindings: Bindings,
    mode: Seq<char>,
    prints: Seq<Seq<char>>,
    exclude_outside: i64,
) -> Bindings {
    bindings.insert("mode"@, ValueView::Text(mode)).insert(
        "scales"@,
        ValueView::texts(prints),
    ).insert("exclude_outside"@, ValueView::Number(exclude_outside as int))
}

/// A resize of the first input.
pub open spec fn resize_selection(
    node: NodeView,
    inputs: Seq<ShapeView>,
    outputs: Seq<ShapeView>,
    opset_version: i64,
    base: Bindings,
) -> Result<NodeTemplateView, CompileErrorView> {
    if inputs.len() == 0 || outputs.len() == 0 {
        Err(CompileErrorView::InvalidOperation(node.op_type))
    } else {
        match attribute::<String>(node, "coordinate_transformation_mode"@, Some("half_pixel"@)) {
            Err(e) => Err(e),
            Ok(coordinates) => match coordinate_bindings(
                node,
                coordinates,
                base.insert("coordinate_transformation_mode"@, ValueView::Text(coordinates)),
            ) {
                Err(e) => Err(e),
                Ok(bindings) => match attribute::<Vec<Real>>(node, "scales"@, Some(Seq::empty())) {
                    Err(e) => Err(e),
                    Ok(scales) => match scale_prints(node, scales, inputs[0], opset_version) {
                        Err(e) => Err(e),
                        Ok(prints) => match attribute::<String>(node, "mode"@, Some("nearest"@)) {
                            Err(e) => Err(e),
                            Ok(mode) => match interpolation_error(node, mode) {
                                Some(e) => Err(e),
                                None => match attribute::<i64>(
                                    node,
                                    "exclude_outside"@,
                                    Some(0i64),
                                ) {
                                    Err(e) => Err(e),
                                    Ok(exclude_outside) => match agreed(
                                        inputs.subrange(0, 1),
                                        outputs.subrange(0, 1),
                                    ) {
                                        Err(e) => Err(e),
                                        Ok(scalar_type) => Ok(
                                            NodeTemplateView {
                                                scalar_type,
                                                template: "matrix/resize.wgsl"@,
                                                threads: (
                                                    ceil_div(element_count(outputs[0].dims), 256),
                                                    1,
                                                    1,
                                                ),
                                                bindings: interpolation_bindings(
                                                    bindings,
                                                    mode,
                                                    prints,
                                                    exclude_outside,
                                                ),
                                            },
                                        ),
                                    },
                                },
                            },
                        },
                    },
                },
            },
        }
    }
}

fn unimplemented_resize_of(option: &str, value: &str) -> (r: CompileError)
    ensures
        r@ == unimplemented_resize(option@, value@),
{
    let mut variant = String::from_str(option);
    variant.append("=");
    variant.append(value);
    CompileError::UnimplementedVariant { op: String::from_str("Resize"), variant }
}

/// The writing of the factor by which an axis of size `dim` grows to `size`.
pub fn ratio_text_of(size: i64, dim: u64) -> (r: String)
    ensures
        r@ == ratio_text(size as int, dim as int),
{
    if dim == 0 {
        return if size > 0 {
            String::from_str("inf")
        } else if size < 0 {
            String::from_str("-inf")
        } else {
            String::from_str("NaN")
        };
    }
    let mut r = String::new();
    let magnitude: u128 = if size < 0 {
        r.append("-");
        (-(size as i128)) as u128
    } else {
        size as u128
    };
    let scaled: u128 = 100 * magnitude;
    let quotient = scaled / (dim as u128);
    let remainder = scaled % (dim as u128);
    assert(quotient <= scaled) by (nonlinear_arith)
        requires
            quotient == scaled as int / dim as int,
            dim >= 1,
            scaled >= 0,
    ;
    let rounded: u128 = if 2 * remainder > dim as u128 || (2 * remainder == dim as u128 && quotient
        % 2 == 1) {
        quotient + 1
    } else {
        quotient
    };
    assert(rounded == hundredths(magnitude as int, dim as int));
    append_two_decimals(&mut r, rounded);
    proof {
        let text = two_decimals(rounded as int);
        if size < 0 {
            assert(r@ =~= "-"@ + text);
        } else {
            assert(r@ =~= text);
        }
    }
    r
}

/// Selects the template of a resize.
#[verifier::loop_isolation(false)]
pub fn select_resize(
    node: &Node,
    input_shapes: &[&Shape],
    output_shapes: &[&Shape],
    opset_version: i64,
    environment: Environment,
) -> (r: Result<Selection, CompileError>)
    ensures
        selects(
            r,
            resize_selection(
                node@,
                shape_views(input_shapes@),
                shape_views(output_shapes@),
                opset_version,
                environment@,
            ),
        ),
{
    if input_shapes.len() == 0 || output_shapes.len() == 0 {
        return Err(missing_operand(node));
    }
    let input = input_shapes[0];
    let mut environment = environment;
    let coordinate_transformation_mode = text_attribute(
        "coordinate_transformation_mode",
        Some("half_pixel"),
        node,
    )?;
    environment.bind(
        "coordinate_transformation_mode",
        Value::Text(coordinate_transformation_mode.clone()),
    );
    let coordinates = coordinate_transformation_mode.as_str();
    if text_eq(coordinates, "half_pixel") || text_eq(coordinates, "pytorch_half_pixel") || text_eq(
        coordinates,
        "align_corners",
    ) || text_eq(coordinates, "asymmetric") {
    } else if text_eq(coordinates, "tf_crop_and_resize") {
        let roi = ints_attribute("roi", None, node)?;
        let extrapolation_value = real_attribute("extrapolation_value", Some("0"), node)?;
        environment.bind("roi", Value::IntList(roi));
        environment.bind("extrapolation_value", Value::Text(extrapolation_value));
    } else {
        return Err(unimplemented_resize_of("coordinate_transformation_mode", coordinates));
    }
    let scales = reals_attribute("scales", node)?;
    let scale_prints = if scales.len() == 0 {
        let sizes = ints_attribute("sizes", Some(Vec::new()), node)?;
        if sizes.len() > input.rank() {
            return Err(
                CompileError::InvalidAttributeValue {
                    attribute: String::from_str("sizes"),
                    value: list_text_of(&sizes),
                    opset_version,
                },
            );
        }
        let ghost expected = ratio_texts(sizes@, input@.dims);
        let mut prints: Vec<String> = Vec::new();
        let mut i: usize = 0;
        while i < sizes.len()
            invariant
                i <= sizes.len(),
                prints@.len() == i,
                forall|j: int| 0 <= j < i ==> (#[trigger] prints@[j])@ == expected[j],
            decreases sizes.len() - i,
        {
            prints.push(ratio_text_of(sizes[i], input.dim(i)));
            i += 1;
        }
        assert(prints.deep_view() =~= expected);
        prints
    } else {
        let ghost expected = rounded_literals(scales.deep_view());
        let mut prints: Vec<String> = Vec::new();
        let mut i: usize = 0;
        while i < scales.len()
            invariant
                i <= scales.len(),
                prints@.len() == i,
                forall|j: int| 0 <= j < i ==> (#[trigger] prints@[j])@ == expected[j],
            decreases scales.len() - i,
        {
            prints.push(two_decimals_of(scales[i].as_str()));
            i += 1;
        }
        assert(prints.deep_view() =~= expected);
        prints
    };
    let mode = text_attribute("mode", Some("nearest"), node)?;
    environment.bind("mode", Value::Text(mode.clone()));
    environment.bind("scales", Value::TextList(scale_prints));
    if text_eq(mode.as_str(), "nearest") {
        let nearest_mode = text_attribute("nearest_mode", Some("round_prefer_floor"), node)?;
        if !text_eq(nearest_mode.as_str(), "floor") {
            return Err(unimplemented_resize_of("nearest_mode", nearest_mode.as_str()));
        }
    } else {
        return Err(unimplemented_resize_of("mode", mode.as_str()));
    }
    let exclude_outside = int_attribute("exclude_outside", Some(0), node)?;
    environment.bind("exclude_outside", Value::Int(exclude_outside));
    let first_input = slice_subrange(input_shapes, 0, 1);
    assert(shape_views(first_input@) =~= shape_views(input_shapes@).subrange(0, 1));
    let first_output = slice_subrange(output_shapes, 0, 1);
    assert(shape_views(first_output@) =~= shape_views(output_shapes@).subrange(0, 1));
    let scalar_type = agreed_type(first_input, first_output)?;
    selected(
        scalar_type,
        "matrix/resize.wgsl",
        ceil(output_shapes[0].element_count(), 256),
        1,
        1,
        environment,
    )
}

} // verus!
