//! Pooling and convolution over the last two axes of a tensor of rank four.

use crate::attributes::{Node, NodeView, Real};
use crate::environment::{Bindings, Environment, Value, ValueView};
use crate::error::{CompileError, CompileErrorView};
use crate::selection::{
    agreed,
    agreed_type,
    attribute,
    ints_attribute,
    missing_operand,
    real_attribute,
    selected,
    selects,
    shape_views,
    text_attribute,
    NodeTemplateView,
    Selection,
};
use crate::text::{list_text, list_text_of, text_eq};
use crate::types::{element_count, signed_numbers, Shape, ShapeView};
use crate::workgroup::{ceil, ceil_div};
use vstd::prelude::*;
use vstd::slice::slice_subrange;
use vstd::string::*;

verus! {

/// The attributes of a pooling or a convolution, once read and checked.
pub struct PoolSettings {
    pub kernel_shape: Seq<i64>,
    pub strides: Seq<i64>,
    pub dilations: Seq<i64>,
    pub pads: Seq<i64>,
}

/// Poolings, as opposed to convolutions.
pub open spec fn is_pooling(op: Seq<char>) -> bool {
    op == "MaxPool"@ || op == "AveragePool"@ || op == "GlobalAveragePool"@
}

/// By how much the extent of a kernel along one axis exceeds the stride.
pub open spec fn slack(kernel: int, dilation: int, stride: int) -> int {
    (kernel - 1) * dilation + 1 - stride
}

/// Half of a slack, rounded towards zero.
pub open spec fn slack_half(slack: int) -> int {
    if slack >= 0 {
        slack / 2
    } else {
        -((-slack) / 2)
    }
}

/// What is left of a slack beside its two halves: 0, or 1 with the sign of the
/// slack.
pub open spec fn slack_rest(slack: int) -> int {
    if slack >= 0 {
        slack % 2
    } else {
        -((-slack) % 2)
    }
}

/// The padding that keeps the size of the output at the size of the input
/// divided by the stride: on each axis each side gets half of the slack, and
/// the rest goes to the end of the axis (`upper`) or to its start.
pub open spec fn same_pads(upper: bool, slack_0: int, slack_1: int) -> Seq<i64> {
    if upper {
        seq![
            slack_half(slack_0) as i64,
            slack_half(slack_1) as i64,
            (slack_half(slack_0) + slack_rest(slack_0)) as i64,
            (slack_half(slack_1) + slack_rest(slack_1)) as i64,
        ]
    } else {
        seq![
            (slack_half(slack_0) + slack_rest(slack_0)) as i64,
            (slack_half(slack_1) + slack_rest(slack_1)) as i64,
            slack_half(slack_0) as i64,
            slack_half(slack_1) as i64,
        ]
    }
}

/// Whether a number fits in 64 bits with a sign.
pub open spec fn fits_i64(x: int) -> bool {
    i64::MIN <= x <= i64::MAX
}

/// The error for a list attribute whose value an operator cannot take.
pub open spec fn invalid_list(attribute: Seq<char>, value: Seq<i64>, opset_version: i64)
    -> CompileErrorView {
    CompileErrorView::InvalidAttributeValue { attribute, value: list_text(value), opset_version }
}

/// The size of the kernel: the attribute `kernel_shape`, or, for a pooling
/// over the whole input, the sizes of the last two axes of the input.
pub open spec fn kernel_of(node: NodeView, input: ShapeView) -> Result<
    Seq<i64>,
    CompileErrorView,
> {
    if node.op_type == "GlobalAveragePool"@ {
        if input.dims[2] > i64::MAX || input.dims[3] > i64::MAX {
            Err(CompileErrorView::InvalidInputShape { input_index: 0, input_shape: input })
        } else {
            Ok(seq![input.dims[2] as i64, input.dims[3] as i64])
        }
    } else {
        attribute::<Vec<i64>>(node, "kernel_shape"@, None)
    }
}

/// The checks on the attributes once all are read, and the padding that
/// results. `input` has rank four.
pub open spec fn checked_settings(
    node: NodeView,
    input: ShapeView,
    opset_version: i64,
    auto_pad: Seq<char>,
    dilations: Seq<i64>,
    kernel_shape: Seq<i64>,
    strides: Seq<i64>,
    pads: Seq<i64>,
) -> Result<PoolSettings, CompileErrorView> {
    if !(auto_pad == "NOTSET"@ || auto_pad == "SAME_UPPER"@ || auto_pad == "SAME_LOWER"@) {
        Err(
            CompileErrorView::UnimplementedVariant {
                op: node.op_type,
                variant: "auto_pad="@ + auto_pad,
            },
        )
    } else if kernel_shape.len() < 2 || kernel_shape[0] < 0 || kernel_shape[1] < 0
        || kernel_shape[0] * kernel_shape[1] > i64::MAX || kernel_shape[0] * kernel_shape[1]
        * input.dims[1] > u64::MAX {
        Err(invalid_list("kernel_shape"@, kernel_shape, opset_version))
    } else if auto_pad == "NOTSET"@ {
        Ok(PoolSettings { kernel_shape, strides, dilations, pads })
    } else if strides.len() < 2 {
        Err(invalid_list("strides"@, strides, opset_version))
    } else if dilations.len() < 2 {
        Err(invalid_list("dilations"@, dilations, opset_version))
    } else {
        let slack_0 = slack(kernel_shape[0] as int, dilations[0] as int, strides[0] as int);
        let slack_1 = slack(kernel_shape[1] as int, dilations[1] as int, strides[1] as int);
        if !fits_i64(slack_0) || !fits_i64(slack_1) {
            Err(invalid_list("kernel_shape"@, kernel_shape, opset_version))
        } else {
            Ok(
                PoolSettings {
                    kernel_shape,
                    strides,
                    dilations,
                    pads: same_pads(auto_pad == "SAME_UPPER"@, slack_0, slack_1),
                },
            )
        }
    }
}

/// The attributes of a pooling or a convolution, read in the order
/// `auto_pad`, `dilations`, `kernel_shape`, `strides`, `pads`, then checked.
pub open spec fn pool_settings(node: NodeView, input: ShapeView, opset_version: i64) -> Result<
    PoolSettings,
    CompileErrorView,
> {
    match attribute::<String>(node, "auto_pad"@, Some("NOTSET"@)) {
        Err(e) => Err(e),
        Ok(auto_pad) => match attribute::<Vec<i64>>(node, "dilations"@, Some(seq![1i64, 1i64])) {
            Err(e) => Err(e),
            Ok(dilations) => match kernel_of(node, input) {
                Err(e) => Err(e),
                Ok(kernel_shape) => match attribute::<Vec<i64>>(
                    node,
                    "strides"@,
                    Some(seq![1i64, 1i64]),
                ) {
                    Err(e) => Err(e),
                    Ok(strides) => match attribute::<Vec<i64>>(
                        node,
                        "pads"@,
                        Some(seq![0i64, 0i64, 0i64, 0i64]),
                    ) {
                        Err(e) => Err(e),
                        Ok(pads) => checked_settings(
                            node,
                            input,
                            opset_version,
                            auto_pad,
                            dilations,
                            kernel_shape,
                            strides,
                            pads,
                        ),
                    },
                },
            },
        },
    }
}

/// The variables of a pooling or a convolution. A pooling over the whole input
/// is rendered as an average pooling.
pub open spec fn pool_bindings(
    node: NodeView,
    base: Bindings,
    settings: PoolSettings,
    input: ShapeView,
    output: ShapeView,
) -> Bindings {
    let named = if node.op_type == "GlobalAveragePool"@ {
        base.insert("op_type"@, ValueView::Text("AveragePool"@))
    } else {
        base
    };
    named.insert("original_width"@, ValueView::Number(input.dims[3])).insert(
        "width"@,
        ValueView::Number(output.dims[3]),
    ).insert("original_height"@, ValueView::Number(input.dims[2])).insert(
        "channel"@,
        ValueView::Number(input.dims[1]),
    ).insert("stride"@, ValueView::numbers(signed_numbers(settings.strides))).insert(
        "kernel_shape"@,
        ValueView::numbers(signed_numbers(settings.kernel_shape)),
    ).insert(
        "kernel_len"@,
        ValueView::Number(settings.kernel_shape[0] * settings.kernel_shape[1]),
    ).insert(
        "kernel_channel_len"@,
        ValueView::Number(settings.kernel_shape[0] * settings.kernel_shape[1] * input.dims[1]),
    ).insert("pad"@, ValueView::numbers(signed_numbers(settings.pads))).insert(
        "dilation"@,
        ValueView::numbers(signed_numbers(settings.dilations)),
    )
}

/// Whether the convolution of one input element with a kernel of one element
/// applies: no stride, dilation or padding, and channels in the multiples that
/// its shader reads.
pub open spec fn is_pointwise(settings: PoolSettings, input: ShapeView, output: ShapeView)
    -> bool {
    &&& settings.strides == seq![1i64, 1i64]
    &&& settings.kernel_shape == seq![1i64, 1i64]
    &&& settings.dilations == seq![1i64, 1i64]
    &&& settings.pads == seq![0i64, 0i64, 0i64, 0i64]
    &&& input.dims[1] % 16 == 0
    &&& output.dims[1] % 4 == 0
}

/// Whether the convolution with a kernel of three by three elements applies.
pub open spec fn is_three_by_three(settings: PoolSettings, output: ShapeView) -> bool {
    &&& settings.strides == seq![1i64, 1i64]
    &&& settings.kernel_shape == seq![3i64, 3i64]
    &&& settings.dilations == seq![1i64, 1i64]
    &&& output.dims[1] % 4 == 0
}

/// The template of a convolution: the most special one that applies.
pub open spec fn convolution_template(
    settings: PoolSettings,
    input: ShapeView,
    output: ShapeView,
) -> Seq<char> {
    if is_pointwise(settings, input, output) {
        "pool/conv_kernel_1.wgsl"@
    } else if is_three_by_three(settings, output) {
        "pool/conv_kernel_3.wgsl"@
    } else {
        "pool/conv.wgsl"@
    }
}

/// The number of output elements that one workgroup of a convolution computes.
pub open spec fn convolution_span(settings: PoolSettings, input: ShapeView, output: ShapeView)
    -> int {
    if is_pointwise(settings, input, output) || is_three_by_three(settings, output) {
        1024
    } else {
        256
    }
}

/// A pooling or a convolution.
pub open spec fn pool_selection(
    node: NodeView,
    inputs: Seq<ShapeView>,
    outputs: Seq<ShapeView>,
    opset_version: i64,
    base: Bindings,
) -> Result<NodeTemplateView, CompileErrorView> {
    if inputs.len() == 0 || outputs.len() == 0 {
        Err(CompileErrorView::InvalidOperation(node.op_type))
    } else if inputs[0].dims.len() != 4 {
        Err(CompileErrorView::InvalidInputShape { input_index: 0, input_shape: inputs[0] })
    } else if outputs[0].dims.len() < 4 {
        Err(CompileErrorView::InvalidOperation(node.op_type))
    } else {
        match pool_settings(node, inputs[0], opset_version) {
            Err(e) => Err(e),
            Ok(settings) => {
                let bindings = pool_bindings(node, base, settings, inputs[0], outputs[0]);
                let output_length = element_count(outputs[0].dims);
                if is_pooling(node.op_type) {
                    match agreed(inputs, outputs.subrange(0, 1)) {
                        Err(e) => Err(e),
                        Ok(scalar_type) => Ok(
                            NodeTemplateView {
                                scalar_type,
                                template: "pool/aggregate.wgsl"@,
                                threads: (ceil_div(output_length, 1024), 1, 1),
                                bindings,
                            },
                        ),
                    }
                } else {
                    match attribute::<Real>(node, "alpha"@, Some("0.01"@)) {
                        Err(e) => Err(e),
                        Ok(alpha) => match agreed(inputs, outputs) {
                            Err(e) => Err(e),
                            Ok(scalar_type) => Ok(
                                NodeTemplateView {
                                    scalar_type,
                                    template: convolution_template(
                                        settings,
                                        inputs[0],
                                        outputs[0],
                                    ),
                                    threads: (
                                        ceil_div(
                                            output_length,
                                            convolution_span(settings, inputs[0], outputs[0]),
                                        ),
                                        1,
                                        1,
                                    ),
                                    bindings: bindings.insert("alpha"@, ValueView::Text(alpha)),
                                },
                            ),
                        },
                    }
                }
            },
        }
    }
}

/// A convolution with a kernel of three by three, a stride of two and no
/// dilation, padded to keep the size: whatever the attribute `pads` says, the
/// padding is one element at the end of each axis, or at its start, and none
/// at the other side. The general template is selected, with one workgroup
/// for every 256 elements of the output. The kernel has to count its elements
/// over all channels of the input in 64 bits.
pub proof fn lemma_same_padding(
    node: NodeView,
    inputs: Seq<ShapeView>,
    outputs: Seq<ShapeView>,
    opset_version: i64,
    base: Bindings,
    upper: bool,
)
    requires
        !is_pooling(node.op_type),
        inputs.len() >= 1,
        outputs.len() >= 1,
        inputs[0].dims.len() == 4,
        outputs[0].dims.len() >= 4,
        0 <= inputs[0].dims[1],
        9 * inputs[0].dims[1] <= u64::MAX,
        attribute::<String>(node, "auto_pad"@, Some("NOTSET"@)) == Ok::<
            Seq<char>,
            CompileErrorView,
        >(
            if upper {
                "SAME_UPPER"@
            } else {
                "SAME_LOWER"@
            },
        ),
        attribute::<Vec<i64>>(node, "kernel_shape"@, None) == Ok::<Seq<i64>, CompileErrorView>(
            seq![3i64, 3i64],
        ),
        attribute::<Vec<i64>>(node, "strides"@, Some(seq![1i64, 1i64])) == Ok::<
            Seq<i64>,
            CompileErrorView,
        >(seq![2i64, 2i64]),
        attribute::<Vec<i64>>(node, "dilations"@, Some(seq![1i64, 1i64])) == Ok::<
            Seq<i64>,
            CompileErrorView,
        >(seq![1i64, 1i64]),
        agreed(inputs, outputs) is Ok,
    ensures
        pool_selection(node, inputs, outputs, opset_version, base) is Ok,
        ({
            let selected = pool_selection(node, inputs, outputs, opset_version, base)->Ok_0;
            &&& selected.template == "pool/conv.wgsl"@
            &&& selected.threads == (ceil_div(element_count(outputs[0].dims), 256), 1int, 1int)
            &&& selected.scalar_type == agreed(inputs, outputs)->Ok_0
            &&& selected.bindings.dom().contains("pad"@)
            &&& selected.bindings["pad"@] == ValueView::numbers(
                if upper {
                    seq![0int, 0int, 1int, 1int]
                } else {
                    seq![1int, 1int, 0int, 0int]
                },
            )
        }),
{
    reveal_strlit("NOTSET");
    reveal_strlit("SAME_UPPER");
    reveal_strlit("SAME_LOWER");
    reveal_strlit("GlobalAveragePool");
    reveal_strlit("pad");
    reveal_strlit("dilation");
    reveal_strlit("alpha");
    let auto_pad = if upper {
        "SAME_UPPER"@
    } else {
        "SAME_LOWER"@
    };
    assert(auto_pad.len() == 10 && "NOTSET"@.len() == 6);
    assert("SAME_UPPER"@[5] != "SAME_LOWER"@[5]);
    assert("pad"@.len() != "dilation"@.len() && "pad"@.len() != "alpha"@.len());
    assert(node.op_type != "GlobalAveragePool"@);
    let kernel_shape = seq![3i64, 3i64];
    let strides = seq![2i64, 2i64];
    let dilations = seq![1i64, 1i64];
    assert(kernel_shape[0] == 3 && kernel_shape[1] == 3 && kernel_shape.len() == 2);
    assert(strides[0] == 2 && strides[1] == 2 && strides.len() == 2);
    assert(dilations[0] == 1 && dilations[1] == 1 && dilations.len() == 2);
    assert(seq![1i64, 1i64][0] == 1);
    assert(strides != seq![1i64, 1i64]);
    assert(kernel_of(node, inputs[0]) == Ok::<Seq<i64>, CompileErrorView>(kernel_shape));
    assert(slack(3, 1, 2) == 1);
    let pads = same_pads(upper, 1, 1);
    assert(signed_numbers(pads) =~= if upper {
        seq![0int, 0int, 1int, 1int]
    } else {
        seq![1int, 1int, 0int, 0int]
    });
    let settings = PoolSettings { kernel_shape, strides, dilations, pads };
    assert(pool_settings(node, inputs[0], opset_version) == Ok::<PoolSettings, CompileErrorView>(
        settings,
    ));
    assert(!is_pointwise(settings, inputs[0], outputs[0]));
    assert(!is_three_by_three(settings, outputs[0]));
}

fn invalid_list_of(attribute: &str, value: &Vec<i64>, opset_version: i64) -> (r: CompileError)
    ensures
        r@ == invalid_list(attribute@, value@, opset_version),
{
    CompileError::InvalidAttributeValue {
        attribute: String::from_str(attribute),
        value: list_text_of(value),
        opset_version,
    }
}

fn is_pair(list: &Vec<i64>, a: i64, b: i64) -> (r: bool)
    ensures
        r == (list@ == seq![a, b]),
{
    let r = list.len() == 2 && list[0] == a && list[1] == b;
    proof {
        if r {
            assert(list@ =~= seq![a, b]);
        } else if list@ == seq![a, b] {
            assert(seq![a, b].len() == 2);
            assert(seq![a, b][0] == a);
            assert(seq![a, b][1] == b);
        }
    }
    r
}

fn is_zeros(list: &Vec<i64>) -> (r: bool)
    ensures
        r == (list@ == seq![0i64, 0i64, 0i64, 0i64]),
{
    let r = list.len() == 4 && list[0] == 0 && list[1] == 0 && list[2] == 0 && list[3] == 0;
    proof {
        let zeros = seq![0i64, 0i64, 0i64, 0i64];
        if r {
            assert(list@ =~= zeros);
        } else if list@ == zeros {
            assert(zeros.len() == 4);
            assert(zeros[0] == 0 && zeros[1] == 0 && zeros[2] == 0 && zeros[3] == 0);
        }
    }
    r
}

fn pair_of(a: i64, b: i64) -> (r: Vec<i64>)
    ensures
        r@ == seq![a, b],
{
    let mut r: Vec<i64> = Vec::new();
    r.push(a);
    r.push(b);
    assert(r@ =~= seq![a, b]);
    r
}

/// The slack of one axis, or `None` where it does not fit in 64 bits.
fn slack_of(kernel: i64, dilation: i64, stride: i64) -> (r: Option<i64>)
    requires
        kernel >= 0,
    ensures
        match r {
            Some(s) => s == slack(kernel as int, dilation as int, stride as int),
            None => !fits_i64(slack(kernel as int, dilation as int, stride as int)),
        },
{
    let reach: i128 = kernel as i128 - 1;
    assert(-0x4000_0000_0000_0000_0000_0000_0000_0000 <= reach * (dilation as int)
        <= 0x4000_0000_0000_0000_0000_0000_0000_0000) by (nonlinear_arith)
        requires
            -1 <= reach <= 0x7fff_ffff_ffff_ffff,
            -0x8000_0000_0000_0000 <= dilation <= 0x7fff_ffff_ffff_ffff,
    ;
    let wide: i128 = reach * (dilation as i128) + 1 - (stride as i128);
    if wide < i64::MIN as i128 || wide > i64::MAX as i128 {
        None
    } else {
        Some(wide as i64)
    }
}

fn half_of(slack: i64) -> (r: i64)
    ensures
        r == slack_half(slack as int),
{
    if slack >= 0 {
        slack / 2
    } else {
        let magnitude: i128 = -(slack as i128);
        (-(magnitude / 2)) as i64
    }
}

fn rest_of(slack: i64) -> (r: i64)
    ensures
        r == slack_rest(slack as int),
{
    if slack >= 0 {
        slack % 2
    } else {
        let magnitude: i128 = -(slack as i128);
        (-(magnitude % 2)) as i64
    }
}

fn same_pads_of(upper: bool, slack_0: i64, slack_1: i64) -> (r: Vec<i64>)
    ensures
        r@ == same_pads(upper, slack_0 as int, slack_1 as int),
{
    let half_0 = half_of(slack_0);
    let half_1 = half_of(slack_1);
    let rest_0 = rest_of(slack_0);
    let rest_1 = rest_of(slack_1);
    let mut r: Vec<i64> = Vec::new();
    if upper {
        r.push(half_0);
        r.push(half_1);
        r.push(half_0 + rest_0);
        r.push(half_1 + rest_1);
    } else {
        r.push(half_0 + rest_0);
        r.push(half_1 + rest_1);
        r.push(half_0);
        r.push(half_1);
    }
    assert(r@ =~= same_pads(upper, slack_0 as int, slack_1 as int));
    r
}

/// What `select_pool` holds of the attributes once they are read and checked.
struct Settings {
    kernel_shape: Vec<i64>,
    strides: Vec<i64>,
    dilations: Vec<i64>,
    pads: Vec<i64>,
    kernel_len: i64,
    kernel_channel_len: u64,
}

impl View for Settings {
    type V = PoolSettings;

    closed spec fn view(&self) -> PoolSettings {
        PoolSettings {
            kernel_shape: self.kernel_shape@,
            strides: self.strides@,
            dilations: self.dilations@,
            pads: self.pads@,
        }
    }
}

fn read_settings(node: &Node, input: &Shape, opset_version: i64) -> (r: Result<
    Settings,
    CompileError,
>)
    requires
        input@.dims.len() == 4,
    ensures
        match pool_settings(node@, input@, opset_version) {
            Ok(settings) => r is Ok && r->Ok_0@ == settings && r->Ok_0.kernel_len
                == settings.kernel_shape[0] * settings.kernel_shape[1] && r->Ok_0.kernel_channel_len
                == settings.kernel_shape[0] * settings.kernel_shape[1] * input@.dims[1],
            Err(e) => r is Err && r->Err_0@ == e,
        },
{
    let auto_pad = text_attribute("auto_pad", Some("NOTSET"), node)?;
    let dilations = ints_attribute("dilations", Some(pair_of(1, 1)), node)?;
    let kernel_shape = if text_eq(node.op_type.as_str(), "GlobalAveragePool") {
        let height = input.dim(2);
        let width = input.dim(3);
        if height > i64::MAX as u64 || width > i64::MAX as u64 {
            return Err(
                CompileError::InvalidInputShape { input_index: 0, input_shape: input.clone() },
            );
        }
        pair_of(height as i64, width as i64)
    } else {
        ints_attribute("kernel_shape", None, node)?
    };
    let strides = ints_attribute("strides", Some(pair_of(1, 1)), node)?;
    let mut zeros = pair_of(0, 0);
    zeros.push(0);
    zeros.push(0);
    assert(zeros@ =~= seq![0i64, 0i64, 0i64, 0i64]);
    let pads = ints_attribute("pads", Some(zeros), node)?;
    let not_set = text_eq(auto_pad.as_str(), "NOTSET");
    let upper = text_eq(auto_pad.as_str(), "SAME_UPPER");
    let lower = text_eq(auto_pad.as_str(), "SAME_LOWER");
    if !(not_set || upper || lower) {
        let mut variant = String::from_str("auto_pad=");
        variant.append(auto_pad.as_str());
        return Err(CompileError::UnimplementedVariant { op: node.op_type.clone(), variant });
    }
    if kernel_shape.len() < 2 || kernel_shape[0] < 0 || kernel_shape[1] < 0 {
        return Err(invalid_list_of("kernel_shape", &kernel_shape, opset_version));
    }
    assert(kernel_shape@[0] * kernel_shape@[1] >= 0) by (nonlinear_arith)
        requires
            kernel_shape@[0] >= 0,
            kernel_shape@[1] >= 0,
    ;
    let kernel_len = match kernel_shape[0].checked_mul(kernel_shape[1]) {
        Some(len) => len,
        None => {
            return Err(invalid_list_of("kernel_shape", &kernel_shape, opset_version));
        },
    };
    let kernel_channel_len = match (kernel_len as u64).checked_mul(input.dim(1)) {
        Some(len) => len,
        None => {
            return Err(invalid_list_of("kernel_shape", &kernel_shape, opset_version));
        },
    };
    if not_set {
        return Ok(
            Settings { kernel_shape, strides, dilations, pads, kernel_len, kernel_channel_len },
        );
    }
    if strides.len() < 2 {
        return Err(invalid_list_of("strides", &strides, opset_version));
    }
    if dilations.len() < 2 {
        return Err(invalid_list_of("dilations", &dilations, opset_version));
    }
    let slack_0 = slack_of(kernel_shape[0], dilations[0], strides[0]);
    let slack_1 = slack_of(kernel_shape[1], dilations[1], strides[1]);
    match (slack_0, slack_1) {
        (Some(slack_0), Some(slack_1)) => {
            let pads = same_pads_of(upper, slack_0, slack_1);
            Ok(Settings { kernel_shape, strides, dilations, pads, kernel_len, kernel_channel_len })
        },
        _ => Err(invalid_list_of("kernel_shape", &kernel_shape, opset_version)),
    }
}

/// Selects the template of a pooling or a convolution.
pub fn select_pool(
    node: &Node,
    input_shapes: &[&Shape],
    output_shapes: &[&Shape],
    opset_version: i64,
    environment: Environment,
) -> (r: Result<Selection, CompileError>)
    ensures
        selects(
            r,
            pool_selection(
                node@,
                shape_views(input_shapes@),
                shape_views(output_shapes@),
                opset_version,
                environment@,
            ),
        ),
{
    if input_shapes.len() == 0 || output_shapes.len() == 0 {
        return Err(missing_operand(node));
    }
    let input = input_shapes[0];
    let output = output_shapes[0];
    if input.rank() != 4 {
        return Err(CompileError::InvalidInputShape { input_index: 0, input_shape: input.clone() });
    }
    if output.rank() < 4 {
        return Err(missing_operand(node));
    }
    let global = text_eq(node.op_type.as_str(), "GlobalAveragePool");
    let ghost base = environment@;
    let mut environment = environment;
    if global {
        environment.bind("op_type", Value::Text(String::from_str("AveragePool")));
    }
    let settings = read_settings(node, input, opset_version)?;
    let ghost model = settings@;
    let pointwise = is_pair(&settings.strides, 1, 1) && is_pair(&settings.kernel_shape, 1, 1)
        && is_pair(&settings.dilations, 1, 1) && is_zeros(&settings.pads) && input.dim(1) % 16 == 0
        && output.dim(1) % 4 == 0;
    let three_by_three = is_pair(&settings.strides, 1, 1) && is_pair(&settings.kernel_shape, 3, 3)
        && is_pair(&settings.dilations, 1, 1) && output.dim(1) % 4 == 0;
    environment.bind("original_width", Value::UInt(input.dim(3)));
    environment.bind("width", Value::UInt(output.dim(3)));
    environment.bind("original_height", Value::UInt(input.dim(2)));
    environment.bind("channel", Value::UInt(input.dim(1)));
    environment.bind("stride", Value::IntList(settings.strides));
    environment.bind("kernel_shape", Value::IntList(settings.kernel_shape));
    environment.bind("kernel_len", Value::Int(settings.kernel_len));
    environment.bind("kernel_channel_len", Value::UInt(settings.kernel_channel_len));
    environment.bind("pad", Value::IntList(settings.pads));
    environment.bind("dilation", Value::IntList(settings.dilations));
    assert(environment@ == pool_bindings(node@, base, model, input@, output@));
    let output_length = output.element_count();
    if global || text_eq(node.op_type.as_str(), "MaxPool") || text_eq(
        node.op_type.as_str(),
        "AveragePool",
    ) {
        let first_output = slice_subrange(output_shapes, 0, 1);
        assert(shape_views(first_output@) =~= shape_views(output_shapes@).subrange(0, 1));
        let scalar_type = agreed_type(input_shapes, first_output)?;
        selected(scalar_type, "pool/aggregate.wgsl", ceil(output_length, 1024), 1, 1, environment)
    } else {
        let alpha = real_attribute("alpha", Some("0.01"), node)?;
        environment.bind("alpha", Value::Text(alpha));
        let scalar_type = agreed_type(input_shapes, output_shapes)?;
        if pointwise {
            selected(
                scalar_type,
                "pool/conv_kernel_1.wgsl",
                ceil(output_length, 1024),
                1,
                1,
                environment,
            )
        } else if three_by_three {
            selected(
                scalar_type,
                "pool/conv_kernel_3.wgsl",
                ceil(output_length, 1024),
                1,
                1,
                environment,
            )
        } else {
            selected(scalar_type, "pool/conv.wgsl", ceil(output_length, 256), 1, 1, environment)
        }
    }
}

} // verus!
