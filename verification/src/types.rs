//! Shapes and element types of tensors, and the packed types that shaders use.

use crate::text::{append_digits, digits};
use vstd::prelude::*;
use vstd::string::*;

verus! {

/// The element type of a tensor.
#[derive(Clone, Copy, Debug, PartialEq, Eq, Structural)]
pub enum ScalarType {
    F32,
    I64,
    I32,
    U8,
}

/// Why a data-type code of the exchange format names no element type.
#[derive(Clone, Copy, Debug, PartialEq, Eq, Structural)]
pub enum DataTypeError {
    /// The code names a data type that shaders cannot hold.
    NotSupported(i32),
    /// The code names no data type at all.
    NotRecognized(i32),
}

/// The largest data-type code that the exchange format defines.
pub const LAST_DATA_TYPE_CODE: i32 = 16;

/// The element type that a data-type code of the exchange format stands for.
pub open spec fn scalar_of_code(code: i32) -> Result<ScalarType, DataTypeError> {
    if code == 1 {
        Ok(ScalarType::F32)
    } else if code == 2 {
        Ok(ScalarType::U8)
    } else if code == 6 {
        Ok(ScalarType::I32)
    } else if code == 7 {
        Ok(ScalarType::I64)
    } else if 0 <= code <= LAST_DATA_TYPE_CODE {
        Err(DataTypeError::NotSupported(code))
    } else {
        Err(DataTypeError::NotRecognized(code))
    }
}

/// The number of bytes between two neighbouring elements of a type.
pub open spec fn scalar_stride(t: ScalarType) -> int {
    match t {
        ScalarType::F32 => 4,
        ScalarType::I32 => 4,
        ScalarType::I64 => 8,
        ScalarType::U8 => 1,
    }
}

/// The name of an element type in shader source.
pub open spec fn scalar_name(t: ScalarType) -> Seq<char> {
    match t {
        ScalarType::F32 => "f32"@,
        ScalarType::I32 => "i32"@,
        ScalarType::I64 => "i64"@,
        ScalarType::U8 => "u8"@,
    }
}

impl ScalarType {
    /// Reads a data-type code of the exchange format.
    pub fn from_i32(code: i32) -> (r: Result<ScalarType, DataTypeError>)
        ensures
            r == scalar_of_code(code),
    {
        if code == 1 {
            Ok(ScalarType::F32)
        } else if code == 2 {
            Ok(ScalarType::U8)
        } else if code == 6 {
            Ok(ScalarType::I32)
        } else if code == 7 {
            Ok(ScalarType::I64)
        } else if 0 <= code && code <= LAST_DATA_TYPE_CODE {
            Err(DataTypeError::NotSupported(code))
        } else {
            Err(DataTypeError::NotRecognized(code))
        }
    }

    /// The number of bytes between two neighbouring elements.
    pub fn stride(&self) -> (r: usize)
        ensures
            r == scalar_stride(*self),
    {
        match self {
            ScalarType::F32 => 4,
            ScalarType::I32 => 4,
            ScalarType::I64 => 8,
            ScalarType::U8 => 1,
        }
    }

    /// The name of the type in shader source.
    pub fn wgsl_type_name(&self) -> (r: &'static str)
        ensures
            r@ == scalar_name(*self),
    {
        match self {
            ScalarType::F32 => "f32",
            ScalarType::I32 => "i32",
            ScalarType::I64 => "i64",
            ScalarType::U8 => "u8",
        }
    }
}

/// A type that a shader reads or writes in one access: one element, a vector
/// of elements, or a matrix of them.
#[derive(Clone, Copy, Debug, PartialEq, Eq, Structural)]
pub enum MultiType {
    Scalar(ScalarType),
    Vec(ScalarType, u8),
    Mat(ScalarType, u8, u8),
}

/// The widest of the packed types of 4, 2 and 1 elements whose width divides `n`.
pub open spec fn multi_type_for_size(n: int, scalar: ScalarType) -> MultiType {
    if n % 4 == 0 {
        MultiType::Vec(scalar, 4)
    } else if n % 2 == 0 {
        MultiType::Vec(scalar, 2)
    } else {
        MultiType::Scalar(scalar)
    }
}

/// The number of elements in a packed type.
pub open spec fn multi_type_elements(t: MultiType) -> int {
    match t {
        MultiType::Scalar(_) => 1,
        MultiType::Vec(_, n) => n as int,
        MultiType::Mat(_, w, h) => w * h,
    }
}

/// The number of bytes between two neighbouring values of a packed type. A
/// vector of three elements is laid out as one of four.
pub open spec fn multi_type_stride(t: MultiType) -> int {
    match t {
        MultiType::Scalar(s) => scalar_stride(s),
        MultiType::Vec(s, n) => if n == 3 {
            scalar_stride(s) * 4
        } else {
            scalar_stride(s) * n
        },
        MultiType::Mat(s, w, h) => scalar_stride(s) * w * h,
    }
}

/// The name of a packed type in shader source.
pub open spec fn multi_type_name(t: MultiType) -> Seq<char> {
    match t {
        MultiType::Scalar(s) => scalar_name(s),
        MultiType::Vec(s, n) => "vec"@ + digits(n as nat) + "<"@ + scalar_name(s) + ">"@,
        MultiType::Mat(s, w, h) => "mat"@ + digits(w as nat) + "x"@ + digits(h as nat) + "<"@
            + scalar_name(s) + ">"@,
    }
}

impl MultiType {
    /// The widest packed type of 4, 2 or 1 elements whose width divides `n`.
    pub fn for_size(n: u64, scalar: ScalarType) -> (r: MultiType)
        ensures
            r == multi_type_for_size(n as int, scalar),
    {
        if n % 4 == 0 {
            MultiType::Vec(scalar, 4)
        } else if n % 2 == 0 {
            MultiType::Vec(scalar, 2)
        } else {
            MultiType::Scalar(scalar)
        }
    }

    /// The number of elements.
    pub fn elements(&self) -> (r: usize)
        ensures
            r == multi_type_elements(*self),
            r <= 65025,
    {
        match self {
            MultiType::Scalar(_) => 1,
            MultiType::Vec(_, n) => *n as usize,
            MultiType::Mat(_, w, h) => {
                assert((*w as int) * (*h as int) <= 65025) by (nonlinear_arith)
                    requires
                        0 <= *w <= 255,
                        0 <= *h <= 255,
                ;
                (*w as usize) * (*h as usize)
            },
        }
    }

    /// The number of bytes between two neighbouring values.
    pub fn stride(&self) -> (r: usize)
        ensures
            r == multi_type_stride(*self),
    {
        match self {
            MultiType::Scalar(s) => s.stride(),
            MultiType::Vec(s, n) => if *n == 3 {
                s.stride() * 4
            } else {
                let width = *n as usize;
                let stride = s.stride();
                assert(stride * width <= 2040) by (nonlinear_arith)
                    requires
                        0 <= stride <= 8,
                        0 <= width <= 255,
                ;
                stride * width
            },
            MultiType::Mat(s, w, h) => {
                let elements = self.elements();
                let stride = s.stride();
                assert(stride * elements <= 520200) by (nonlinear_arith)
                    requires
                        0 <= stride <= 8,
                        0 <= elements <= 65025,
                ;
                assert(scalar_stride(*s) * (*w as int) * (*h as int) == scalar_stride(*s) * ((
                *w as int) * (*h as int))) by (nonlinear_arith);
                stride * elements
            },
        }
    }

    /// The name of the type in shader source.
    pub fn wgsl_type_name(&self) -> (r: String)
        ensures
            r@ == multi_type_name(*self),
    {
        match self {
            MultiType::Scalar(s) => String::from_str(s.wgsl_type_name()),
            MultiType::Vec(s, n) => {
                let mut r = String::from_str("vec");
                append_digits(&mut r, *n as u64);
                r.append("<");
                r.append(s.wgsl_type_name());
                r.append(">");
                r
            },
            MultiType::Mat(s, w, h) => {
                let mut r = String::from_str("mat");
                append_digits(&mut r, *w as u64);
                r.append("x");
                append_digits(&mut r, *h as u64);
                r.append("<");
                r.append(s.wgsl_type_name());
                r.append(">");
                r
            },
        }
    }
}

/// The product of the dimensions from position `from` to the last: the number of
/// elements in one slice of a tensor below that position.
pub open spec fn product_from(dims: Seq<int>, from: int) -> int
    decreases dims.len() - from,
{
    if from < 0 || from >= dims.len() {
        1
    } else {
        dims[from] * product_from(dims, from + 1)
    }
}

/// Like `product_from`, with every dimension of size zero counted as one. It
/// bounds the product of any selection of the dimensions.
pub open spec fn capacity_from(dims: Seq<int>, from: int) -> int
    decreases dims.len() - from,
{
    if from < 0 || from >= dims.len() {
        1
    } else if dims[from] <= 0 {
        capacity_from(dims, from + 1)
    } else {
        dims[from] * capacity_from(dims, from + 1)
    }
}

/// The number of elements in a tensor with these dimensions.
pub open spec fn element_count(dims: Seq<int>) -> int {
    product_from(dims, 0)
}

/// The chunk vector of a tensor: at each axis, the number of elements that one
/// step along that axis passes over. A tensor without axes has the single
/// chunk 1.
pub open spec fn chunk_vector(dims: Seq<int>) -> Seq<int> {
    Seq::new(
        if dims.len() == 0 {
            1
        } else {
            dims.len()
        },
        |axis: int| product_from(dims, axis + 1),
    )
}

/// Whether dimensions are sizes whose number and whose products fit in 64 bits.
pub open spec fn dims_fit(dims: Seq<int>) -> bool {
    &&& dims.len() <= i64::MAX
    &&& forall|i: int| 0 <= i < dims.len() ==> 0 <= #[trigger] dims[i]
    &&& capacity_from(dims, 0) <= u64::MAX
}

/// The integers that a sequence of machine words holds.
pub open spec fn numbers(s: Seq<u64>) -> Seq<int> {
    Seq::new(s.len(), |i: int| s[i] as int)
}

/// The integers that a sequence of signed machine words holds.
pub open spec fn signed_numbers(s: Seq<i64>) -> Seq<int> {
    Seq::new(s.len(), |i: int| s[i] as int)
}

/// The product of sizes from a position on lies between zero and the
/// product with zeros counted as one, which is at least 1.
pub proof fn lemma_capacity_bounds(dims: Seq<int>, from: int)
    requires
        forall|i: int| 0 <= i < dims.len() ==> 0 <= #[trigger] dims[i],
    ensures
        0 <= product_from(dims, from) <= capacity_from(dims, from),
        1 <= capacity_from(dims, from),
    decreases dims.len() - from,
{
    if 0 <= from < dims.len() {
        lemma_capacity_bounds(dims, from + 1);
        let d = dims[from];
        let p = product_from(dims, from + 1);
        let c = capacity_from(dims, from + 1);
        if d > 0 {
            assert(0 <= d * p <= d * c && 1 <= d * c) by (nonlinear_arith)
                requires
                    d > 0,
                    0 <= p <= c,
                    1 <= c,
            ;
        } else {
            assert(d * p == 0) by (nonlinear_arith)
                requires
                    d == 0,
            ;
        }
    }
}

/// The product with zeros counted as one does not grow where it starts
/// from a later position.
pub proof fn lemma_capacity_monotone(dims: Seq<int>, from: int, to: int)
    requires
        forall|i: int| 0 <= i < dims.len() ==> 0 <= #[trigger] dims[i],
        0 <= from <= to,
    ensures
        capacity_from(dims, to) <= capacity_from(dims, from),
    decreases to - from,
{
    if from < to {
        lemma_capacity_monotone(dims, from + 1, to);
        lemma_capacity_bounds(dims, from + 1);
        if from < dims.len() {
            let d = dims[from];
            let c = capacity_from(dims, from + 1);
            if d > 0 {
                assert(c <= d * c) by (nonlinear_arith)
                    requires
                        d >= 1,
                        c >= 1,
                ;
            }
        }
    }
}

/// The chunk vector of a tensor with axes is as long as the rank of the
/// tensor, and its last chunk is 1. Where the first dimension is not zero,
/// the first chunk is the element count divided by that dimension.
pub proof fn lemma_chunk_vector_ends(dims: Seq<int>)
    ensures
        chunk_vector(dims).last() == 1,
        dims.len() >= 1 ==> chunk_vector(dims).len() == dims.len(),
        dims.len() >= 1 && dims[0] > 0 ==> chunk_vector(dims)[0] == element_count(dims) / dims[0],
{
    if dims.len() >= 1 {
        let d = dims[0];
        let p = product_from(dims, 1);
        assert(product_from(dims, 0) == d * p);
        if d > 0 {
            assert((d * p) / d == p) by (nonlinear_arith)
                requires
                    d > 0,
            ;
        }
        assert(product_from(dims, dims.len() as int) == 1);
    } else {
        assert(product_from(dims, 1) == 1);
    }
}

/// The mathematical value of a shape.
pub struct ShapeView {
    pub dims: Seq<int>,
    pub data_type: ScalarType,
}

/// The writing of a list of dimensions: their decimal notations, joined by `x`.
pub open spec fn dims_text(dims: Seq<int>, upto: int) -> Seq<char>
    decreases upto,
{
    if upto <= 0 {
        Seq::empty()
    } else if upto == 1 {
        digits(dims[0] as nat)
    } else {
        dims_text(dims, upto - 1) + "x"@ + digits(dims[upto - 1] as nat)
    }
}

/// The writing of a shape: its dimensions, a colon, and its element type.
pub open spec fn shape_text(s: ShapeView) -> Seq<char> {
    dims_text(s.dims, s.dims.len() as int) + ":"@ + scalar_name(s.data_type)
}

/// The dimensions and the element type of a tensor. The number of its
/// dimensions and their product, zeros left out, fit in 64 bits.
#[derive(Debug, PartialEq, Eq)]
pub struct Shape {
    dims: Vec<u64>,
    data_type: ScalarType,
}

impl View for Shape {
    type V = ShapeView;

    closed spec fn view(&self) -> ShapeView {
        ShapeView { dims: numbers(self.dims@), data_type: self.data_type }
    }
}

impl Clone for Shape {
    fn clone(&self) -> (r: Shape)
        ensures
            r@ == self@,
    {
        proof {
            use_type_invariant(self);
        }
        let mut dims: Vec<u64> = Vec::new();
        let mut i: usize = 0;
        while i < self.dims.len()
            invariant
                i <= self.dims.len(),
                dims@ == self.dims@.subrange(0, i as int),
            decreases self.dims.len() - i,
        {
            dims.push(self.dims[i]);
            assert(dims@ =~= self.dims@.subrange(0, i + 1));
            i += 1;
        }
        assert(dims@ =~= self.dims@);
        Shape { dims, data_type: self.data_type }
    }
}

impl Shape {
    #[verifier::type_invariant]
    spec fn fits(self) -> bool {
        dims_fit(numbers(self.dims@))
    }

    /// A shape with the given dimensions, or `None` where their number or their
    /// product, zeros left out, does not fit in 64 bits.
    pub fn new(data_type: ScalarType, dims: Vec<u64>) -> (r: Option<Shape>)
        ensures
            match r {
                Some(s) => s@ == (ShapeView { dims: numbers(dims@), data_type })
                    && dims_fit(numbers(dims@)),
                None => !dims_fit(numbers(dims@)),
            },
    {
        let ghost model = numbers(dims@);
        if dims.len() as u64 > i64::MAX as u64 {
            return None;
        }
        let mut capacity: u64 = 1;
        let mut k: usize = dims.len();
        while k > 0
            invariant
                k <= dims.len(),
                model == numbers(dims@),
                capacity == capacity_from(model, k as int),
            decreases k,
        {
            k -= 1;
            let d = if dims[k] == 0 {
                1
            } else {
                dims[k]
            };
            match capacity.checked_mul(d) {
                Some(c) => {
                    assert(capacity_from(model, k as int) == d * capacity_from(model, k + 1));
                    capacity = c;
                },
                None => {
                    proof {
                        assert(capacity_from(model, k as int) == d * capacity_from(model, k + 1));
                        lemma_capacity_monotone(model, 0, k as int);
                    }
                    return None;
                },
            }
        }
        Some(Shape { dims, data_type })
    }

    /// A shape with the given dimensions, or `None` where one of them is
    /// negative or their number or their product, zeros left out, does not fit
    /// in 64 bits.
    pub fn from(data_type: ScalarType, dims: &[i64]) -> (r: Option<Shape>)
        ensures
            match r {
                Some(s) => s@ == (ShapeView { dims: signed_numbers(dims@), data_type })
                    && dims_fit(signed_numbers(dims@)),
                None => !dims_fit(signed_numbers(dims@)),
            },
    {
        let mut sizes: Vec<u64> = Vec::new();
        let mut i: usize = 0;
        while i < dims.len()
            invariant
                i <= dims.len(),
                sizes@.len() == i,
                forall|j: int| 0 <= j < i ==> sizes@[j] as int == #[trigger] dims@[j] as int,
            decreases dims.len() - i,
        {
            if dims[i] < 0 {
                assert(signed_numbers(dims@)[i as int] < 0);
                return None;
            }
            sizes.push(dims[i] as u64);
            i += 1;
        }
        assert(numbers(sizes@) =~= signed_numbers(dims@));
        Shape::new(data_type, sizes)
    }

    /// States what every shape satisfies.
    pub fn bounded(&self)
        ensures
            dims_fit(self@.dims),
    {
        proof {
            use_type_invariant(self);
        }
    }

    /// The element type.
    pub fn data_type(&self) -> (r: ScalarType)
        ensures
            r == self@.data_type,
    {
        self.data_type
    }

    /// The number of axes.
    pub fn rank(&self) -> (r: usize)
        ensures
            r == self@.dims.len(),
    {
        self.dims.len()
    }

    /// The size of the axis at `idx`.
    pub fn dim(&self, idx: usize) -> (r: u64)
        requires
            idx < self@.dims.len(),
        ensures
            r == self@.dims[idx as int],
    {
        self.dims[idx]
    }

    /// The sizes of all axes.
    pub fn dims(&self) -> (r: &Vec<u64>)
        ensures
            numbers(r@) == self@.dims,
    {
        &self.dims
    }

    /// The number of elements.
    pub fn element_count(&self) -> (r: u64)
        ensures
            r == element_count(self@.dims),
    {
        proof {
            use_type_invariant(self);
        }
        let ghost model = numbers(self.dims@);
        let mut count: u64 = 1;
        let mut k: usize = self.dims.len();
        while k > 0
            invariant
                k <= self.dims.len(),
                model == numbers(self.dims@),
                dims_fit(model),
                count == product_from(model, k as int),
            decreases k,
        {
            k -= 1;
            proof {
                lemma_capacity_bounds(model, k as int);
                lemma_capacity_bounds(model, k + 1);
                lemma_capacity_monotone(model, 0, k as int);
                assert(model[k as int] == self.dims[k as int]);
                assert(product_from(model, k as int) == model[k as int] * product_from(
                    model,
                    k + 1,
                ));
                assert(model[k as int] * product_from(model, k + 1) == product_from(model, k + 1)
                    * model[k as int]) by (nonlinear_arith);
            }
            count = count * self.dims[k];
        }
        count
    }

    /// The chunk vector.
    pub fn chunks(&self) -> (r: Vec<u64>)
        ensures
            numbers(r@) == chunk_vector(self@.dims),
    {
        proof {
            use_type_invariant(self);
        }
        let ghost model = numbers(self.dims@);
        let n = self.dims.len();
        let mut out: Vec<u64> = Vec::new();
        if n == 0 {
            out.push(1);
            assert(numbers(out@) =~= chunk_vector(model));
            return out;
        }
        let mut i: usize = 0;
        while i < n
            invariant
                i <= n,
                out@.len() == i,
            decreases n - i,
        {
            out.push(1);
            i += 1;
        }
        let mut chunk: u64 = 1;
        let mut k: usize = n;
        while k > 0
            invariant
                k <= n,
                n == self.dims.len(),
                out@.len() == n,
                model == numbers(self.dims@),
                dims_fit(model),
                chunk == product_from(model, k as int),
                forall|j: int| k <= j < n ==> out@[j] as int == product_from(model, j + 1),
            decreases k,
        {
            k -= 1;
            out.set(k, chunk);
            proof {
                lemma_capacity_bounds(model, k as int);
                lemma_capacity_bounds(model, k + 1);
                lemma_capacity_monotone(model, 0, k as int);
                assert(model[k as int] == self.dims[k as int]);
                assert(product_from(model, k as int) == model[k as int] * product_from(
                    model,
                    k + 1,
                ));
                assert(model[k as int] * product_from(model, k + 1) == product_from(model, k + 1)
                    * model[k as int]) by (nonlinear_arith);
            }
            chunk = chunk * self.dims[k];
        }
        assert(numbers(out@) =~= chunk_vector(model));
        out
    }

    /// The writing of the shape, as error messages show it.
    pub fn text(&self) -> (r: String)
        ensures
            r@ == shape_text(self@),
    {
        let ghost model = numbers(self.dims@);
        let mut r = String::new();
        let mut i: usize = 0;
        while i < self.dims.len()
            invariant
                i <= self.dims.len(),
                model == numbers(self.dims@),
                r@ == dims_text(model, i as int),
            decreases self.dims.len() - i,
        {
            if i > 0 {
                r.append("x");
            }
            append_digits(&mut r, self.dims[i]);
            assert(r@ =~= dims_text(model, i + 1));
            i += 1;
        }
        r.append(":");
        r.append(self.data_type.wgsl_type_name());
        r
    }
}

} // verus!
