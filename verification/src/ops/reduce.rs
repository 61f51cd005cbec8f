//! Reductions along axes of a tensor.

use crate::attributes::{Node, NodeView};
use crate::environment::{Bindings, Environment, Value, ValueView};
use crate::error::{CompileError, CompileErrorView};
use crate::selection::{
    agreed,
    agreed_type,
    attribute,
    ints_attribute,
    missing_operand,
    selected,
    selects,
    shape_views,
    NodeTemplateView,
    Selection,
};
use crate::types::{
    capacity_from,
    chunk_vector,
    dims_fit,
    element_count,
    lemma_capacity_bounds,
    lemma_capacity_monotone,
    numbers,
    product_from,
    signed_numbers,
    Shape,
    ShapeView,
};
use crate::workgroup::{
    workgroup_size,
    workgroup_split,
    MAX_COMPUTE_WORKGROUPS_PER_DIMENSION,
    MAX_WORKGROUP_SIZE_X,
};
use vstd::prelude::*;
use vstd::slice::slice_subrange;

verus! {

/// Every axis of a tensor of the given rank, in order.
pub open spec fn all_axes(rank: int) -> Seq<i64> {
    Seq::new(rank as nat, |i: int| i as i64)
}

/// The axes of a reduction, an axis counted from the last one (a negative
/// number) written as counted from the first.
pub open spec fn normalized_axes(axes: Seq<i64>, rank: int) -> Seq<int> {
    Seq::new(
        axes.len(),
        |i: int|
            if axes[i] < 0 {
                rank + axes[i]
            } else {
                axes[i] as int
            },
    )
}

/// The dimensions of a tensor with each reduced axis set to size 1: the rank
/// stays.
pub open spec fn dims_preserved(dims: Seq<int>, axes: Seq<int>) -> Seq<int> {
    Seq::new(
        dims.len(),
        |i: int|
            if axes.contains(i) {
                1
            } else {
                dims[i]
            },
    )
}

/// The product of the dimensions from position `from` on, reduced axes left out.
pub open spec fn kept_product_from(dims: Seq<int>, axes: Seq<int>, from: int) -> int
    decreases dims.len() - from,
{
    if from < 0 || from >= dims.len() {
        1
    } else if axes.contains(from) {
        kept_product_from(dims, axes, from + 1)
    } else {
        dims[from] * kept_product_from(dims, axes, from + 1)
    }
}

proof fn lemma_preserved_product(dims: Seq<int>, axes: Seq<int>, from: int)
    requires
        0 <= from,
    ensures
        product_from(dims_preserved(dims, axes), from) == kept_product_from(dims, axes, from),
    decreases dims.len() - from,
{
    if from < dims.len() {
        lemma_preserved_product(dims, axes, from + 1);
    }
}

/// The chunk vector of a tensor with its reduced axes set to size 1 is as long
/// as the rank of the tensor, and a reduced axis adds nothing to a chunk: each
/// chunk is the product of the sizes of the later axes that are not reduced.
pub proof fn lemma_chunks_with_dims_preserved(dims: Seq<int>, axes: Seq<int>)
    requires
        dims.len() >= 1,
    ensures
        chunk_vector(dims_preserved(dims, axes)).len() == dims.len(),
        forall|axis: int|
            0 <= axis < dims.len() ==> #[trigger] chunk_vector(dims_preserved(dims, axes))[axis]
                == kept_product_from(dims, axes, axis + 1),
{
    assert forall|axis: int| 0 <= axis < dims.len() implies #[trigger] chunk_vector(
        dims_preserved(dims, axes),
    )[axis] == kept_product_from(dims, axes, axis + 1) by {
        lemma_preserved_product(dims, axes, axis + 1);
    }
}

proof fn lemma_preserved_capacity(dims: Seq<int>, axes: Seq<int>, from: int)
    requires
        forall|i: int| 0 <= i < dims.len() ==> 0 <= #[trigger] dims[i],
        0 <= from,
    ensures
        capacity_from(dims_preserved(dims, axes), from) <= capacity_from(dims, from),
    decreases dims.len() - from,
{
    if from < dims.len() {
        let preserved = dims_preserved(dims, axes);
        lemma_preserved_capacity(dims, axes, from + 1);
        lemma_capacity_bounds(dims, from + 1);
        lemma_capacity_bounds(preserved, from + 1);
        lemma_capacity_monotone(dims, from, from + 1);
        let d = dims[from];
        let a = capacity_from(preserved, from + 1);
        let b = capacity_from(dims, from + 1);
        if !axes.contains(from) && d > 0 {
            assert(d * a <= d * b) by (nonlinear_arith)
                requires
                    d > 0,
                    a <= b,
            ;
        } else if axes.contains(from) {
            assert(1 * a == a);
        }
    }
}

/// A reduction. One invocation computes one element of the output.
pub open spec fn reduce_selection(
    node: NodeView,
    inputs: Seq<ShapeView>,
    outputs: Seq<ShapeView>,
    base: Bindings,
) -> Result<NodeTemplateView, CompileErrorView> {
    if inputs.len() == 0 || outputs.len() == 0 {
        Err(CompileErrorView::InvalidOperation(node.op_type))
    } else {
        let dims = inputs[0].dims;
        match attribute::<Vec<i64>>(node, "axes"@, Some(all_axes(dims.len() as int))) {
            Err(e) => Err(e),
            Ok(axes) => {
                let axes = normalized_axes(axes, dims.len() as int);
                match agreed(inputs.subrange(0, 1), outputs) {
                    Err(e) => Err(e),
                    Ok(scalar_type) => match workgroup_split(
                        element_count(outputs[0].dims),
                        MAX_COMPUTE_WORKGROUPS_PER_DIMENSION as int,
                        MAX_WORKGROUP_SIZE_X as int,
                    ) {
                        Err(e) => Err(e),
                        Ok((threads, group)) => Ok(
                            NodeTemplateView {
                                scalar_type,
                                template: "pool/reduce.wgsl"@,
                                threads: (threads, 1, 1),
                                bindings: base.insert(
                                    "workgroup_size_x"@,
                                    ValueView::Number(group),
                                ).insert(
                                    "chunks_with_dims_preserved"@,
                                    ValueView::numbers(chunk_vector(dims_preserved(dims, axes))),
                                ).insert("axes"@, ValueView::numbers(axes)),
                            },
                        ),
                    },
                }
            },
        }
    }
}

fn contains_axis(axes: &Vec<i64>, axis: i64) -> (r: bool)
    ensures
        r == signed_numbers(axes@).contains(axis as int),
{
    let mut i: usize = 0;
    while i < axes.len()
        invariant
            i <= axes.len(),
            forall|j: int| 0 <= j < i ==> axes@[j] != axis,
        decreases axes.len() - i,
    {
        if axes[i] == axis {
            assert(signed_numbers(axes@)[i as int] == axis as int);
            return true;
        }
        i += 1;
    }
    false
}

/// Selects the template of a reduction.
pub fn select_reduce(
    node: &Node,
    input_shapes: &[&Shape],
    output_shapes: &[&Shape],
    environment: Environment,
) -> (r: Result<Selection, CompileError>)
    ensures
        selects(
            r,
            reduce_selection(
                node@,
                shape_views(input_shapes@),
                shape_views(output_shapes@),
                environment@,
            ),
        ),
{
    if input_shapes.len() == 0 || output_shapes.len() == 0 {
        return Err(missing_operand(node));
    }
    let input = input_shapes[0];
    input.bounded();
    let rank = input.rank();
    let ghost dims = input@.dims;
    let mut all: Vec<i64> = Vec::new();
    let mut i: usize = 0;
    while i < rank
        invariant
            i <= rank,
            rank <= i64::MAX,
            all@.len() == i,
            forall|j: int| 0 <= j < i ==> all@[j] == j,
        decreases rank - i,
    {
        all.push(i as i64);
        i += 1;
    }
    assert(all@ =~= all_axes(rank as int));
    let given = ints_attribute("axes", Some(all), node)?;
    let mut axes: Vec<i64> = Vec::new();
    let mut i: usize = 0;
    while i < given.len()
        invariant
            i <= given.len(),
            rank <= i64::MAX,
            axes@.len() == i,
            forall|j: int|
                0 <= j < i ==> axes@[j] as int == normalized_axes(given@, rank as int)[j],
        decreases given.len() - i,
    {
        let axis = given[i];
        if axis < 0 {
            axes.push(rank as i64 + axis);
        } else {
            axes.push(axis);
        }
        i += 1;
    }
    assert(signed_numbers(axes@) =~= normalized_axes(given@, rank as int));
    let first_input = slice_subrange(input_shapes, 0, 1);
    assert(shape_views(first_input@) =~= shape_views(input_shapes@).subrange(0, 1));
    let scalar_type = agreed_type(first_input, output_shapes)?;
    let ghost preserved = dims_preserved(dims, signed_numbers(axes@));
    let mut dims_removed: Vec<u64> = Vec::new();
    let mut i: usize = 0;
    while i < rank
        invariant
            i <= rank,
            rank == dims.len(),
            rank <= i64::MAX,
            dims == input@.dims,
            preserved == dims_preserved(dims, signed_numbers(axes@)),
            dims_removed@.len() == i,
            forall|j: int| 0 <= j < i ==> dims_removed@[j] as int == preserved[j],
        decreases rank - i,
    {
        if contains_axis(&axes, i as i64) {
            dims_removed.push(1);
        } else {
            dims_removed.push(input.dim(i));
        }
        i += 1;
    }
    proof {
        assert(numbers(dims_removed@) =~= preserved);
        lemma_preserved_capacity(dims, signed_numbers(axes@), 0);
        assert(dims_fit(preserved));
    }
    let chunks_with_dims_preserved = match Shape::new(scalar_type, dims_removed) {
        Some(shape) => shape.chunks(),
        None => {
            return Err(missing_operand(node));
        },
    };
    let (x_threads, workgroup_size_x) = workgroup_size(
        output_shapes[0].element_count(),
        MAX_COMPUTE_WORKGROUPS_PER_DIMENSION,
        MAX_WORKGROUP_SIZE_X,
    )?;
    let mut environment = environment;
    environment.bind("workgroup_size_x", Value::UInt(workgroup_size_x as u64));
    environment.bind("chunks_with_dims_preserved", Value::UIntList(chunks_with_dims_preserved));
    environment.bind("axes", Value::IntList(axes));
    selected(scalar_type, "pool/reduce.wgsl", x_threads as u64, 1, 1, environment)
}

} // verus!
