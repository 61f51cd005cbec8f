//! The reasons for which a node cannot be compiled.

use crate::attributes::{AttributeNotFoundError, AttributeNotFoundErrorView};
use crate::text::{append_decimal, append_digits, decimal, digits};
use crate::types::{scalar_name, shape_text, DataTypeError, ScalarType, Shape, ShapeView};
use vstd::prelude::*;
use vstd::std_specs::convert::FromSpecImpl;
use vstd::string::*;

verus! {

/// A reason for which a node cannot be compiled.
#[derive(Debug)]
pub enum CompileError {
    /// The shape of an input or output of a node is not known.
    DimensionsMissing(String, String),
    /// A required attribute is absent.
    AttributeNotFound(AttributeNotFoundError),
    /// The operator should have been removed from the graph before compiling,
    /// or the node lacks an operand that its operator works on.
    InvalidOperation(String),
    /// The operator is not implemented.
    UnimplementedOp(String),
    /// The operator is implemented, but not for these attributes or shapes.
    UnimplementedVariant { variant: String, op: String },
    /// The operator is not implemented for this version of the operator set.
    UnsupportedOpsetVersion(i64),
    /// An attribute has a value that the operator cannot take.
    InvalidAttributeValue { attribute: String, value: String, opset_version: i64 },
    /// An input has a shape that the operator cannot take.
    InvalidInputShape { input_index: usize, input_shape: Shape },
    /// The node needs more of the named resource than a device offers: what it
    /// needs, cut off at 32 bits, and the limit.
    ComputeLimitExceeded(String, u32, u32),
    /// Two operands that must have one element type have these.
    TypesDisagree(ScalarType, ScalarType),
    /// No operand gives an element type.
    TypeUnderspecified,
    /// A data-type code names no usable element type.
    InvalidType(DataTypeError),
    /// The template could not be rendered; the text says why.
    TemplateError(String),
}

/// The mathematical value of a reason not to compile.
pub enum CompileErrorView {
    DimensionsMissing(Seq<char>, Seq<char>),
    AttributeNotFound(AttributeNotFoundErrorView),
    InvalidOperation(Seq<char>),
    UnimplementedOp(Seq<char>),
    UnimplementedVariant { variant: Seq<char>, op: Seq<char> },
    UnsupportedOpsetVersion(i64),
    InvalidAttributeValue { attribute: Seq<char>, value: Seq<char>, opset_version: i64 },
    InvalidInputShape { input_index: int, input_shape: ShapeView },
    ComputeLimitExceeded(Seq<char>, u32, u32),
    TypesDisagree(ScalarType, ScalarType),
    TypeUnderspecified,
    InvalidType(DataTypeError),
    TemplateError(Seq<char>),
}

impl View for CompileError {
    type V = CompileErrorView;

    open spec fn view(&self) -> CompileErrorView {
        match self {
            CompileError::DimensionsMissing(tensor, node) => CompileErrorView::DimensionsMissing(
                tensor@,
                node@,
            ),
            CompileError::AttributeNotFound(e) => CompileErrorView::AttributeNotFound(e@),
            CompileError::InvalidOperation(op) => CompileErrorView::InvalidOperation(op@),
            CompileError::UnimplementedOp(op) => CompileErrorView::UnimplementedOp(op@),
            CompileError::UnimplementedVariant { variant, op } => {
                CompileErrorView::UnimplementedVariant { variant: variant@, op: op@ }
            },
            CompileError::UnsupportedOpsetVersion(v) => CompileErrorView::UnsupportedOpsetVersion(
                *v,
            ),
            CompileError::InvalidAttributeValue { attribute, value, opset_version } => {
                CompileErrorView::InvalidAttributeValue {
                    attribute: attribute@,
                    value: value@,
                    opset_version: *opset_version,
                }
            },
            CompileError::InvalidInputShape { input_index, input_shape } => {
                CompileErrorView::InvalidInputShape {
                    input_index: *input_index as int,
                    input_shape: input_shape@,
                }
            },
            CompileError::ComputeLimitExceeded(what, requested, limit) => {
                CompileErrorView::ComputeLimitExceeded(what@, *requested, *limit)
            },
            CompileError::TypesDisagree(a, b) => CompileErrorView::TypesDisagree(*a, *b),
            CompileError::TypeUnderspecified => CompileErrorView::TypeUnderspecified,
            CompileError::InvalidType(e) => CompileErrorView::InvalidType(*e),
            CompileError::TemplateError(text) => CompileErrorView::TemplateError(text@),
        }
    }
}

impl From<AttributeNotFoundError> for CompileError {
    fn from(e: AttributeNotFoundError) -> (r: CompileError) {
        CompileError::AttributeNotFound(e)
    }
}

impl FromSpecImpl<AttributeNotFoundError> for CompileError {
    open spec fn obeys_from_spec() -> bool {
        true
    }

    open spec fn from_spec(e: AttributeNotFoundError) -> CompileError {
        CompileError::AttributeNotFound(e)
    }
}

impl From<DataTypeError> for CompileError {
    fn from(e: DataTypeError) -> (r: CompileError) {
        CompileError::InvalidType(e)
    }
}

impl FromSpecImpl<DataTypeError> for CompileError {
    open spec fn obeys_from_spec() -> bool {
        true
    }

    open spec fn from_spec(e: DataTypeError) -> CompileError {
        CompileError::InvalidType(e)
    }
}

/// What is said of an attribute that was not found.
pub open spec fn attribute_message(e: AttributeNotFoundErrorView) -> Seq<char> {
    "did not find attribute '"@ + e.attribute + "' for node '"@ + e.op_type + "'"@
}

/// What is said of a data-type code that names no usable element type.
pub open spec fn data_type_message(e: DataTypeError) -> Seq<char> {
    match e {
        DataTypeError::NotSupported(code) => "the ONNX scalar data type '"@ + decimal(code as int)
            + "' is not supported"@,
        DataTypeError::NotRecognized(code) => "the ONNX data type '"@ + decimal(code as int)
            + "' is not recognized"@,
    }
}

/// What is said of a reason not to compile.
pub open spec fn message_of(e: CompileErrorView) -> Seq<char> {
    match e {
        CompileErrorView::DimensionsMissing(tensor, node) => {
            "dimensions information missing for input/output '"@ + tensor + "' of node '"@ + node
                + "'. You may want to run onnx-simplifier on the model first."@
        },
        CompileErrorView::AttributeNotFound(e) => "attribute not found: "@ + attribute_message(e),
        CompileErrorView::InvalidOperation(op) => "operation not recognized: "@ + op,
        CompileErrorView::UnimplementedOp(op) => "op "@ + op
            + " is not implemented yet! Check the README if you want to implement it"@,
        CompileErrorView::UnimplementedVariant { variant, op } => "'"@ + variant
            + "' is not yet implemented for op "@ + op,
        CompileErrorView::UnsupportedOpsetVersion(version) => "the opset version "@ + decimal(
            version as int,
        ) + " is not supported"@,
        CompileErrorView::InvalidAttributeValue { attribute, value, opset_version } => {
            "the value '"@ + value + "' is invalid for attribute '"@ + attribute
                + "' (opset version "@ + decimal(opset_version as int) + ")"@
        },
        CompileErrorView::InvalidInputShape { input_index, input_shape } => "input "@ + digits(
            input_index as nat,
        ) + " has invalid shape "@ + shape_text(input_shape),
        CompileErrorView::ComputeLimitExceeded(what, requested, limit) => {
            "the model exceeds the limit for "@ + what + ": "@ + digits(requested as nat) + " > "@
                + digits(limit as nat)
        },
        CompileErrorView::TypesDisagree(a, b) => "cannot determine data type to use: "@
            + scalar_name(a) + " or "@ + scalar_name(b),
        CompileErrorView::TypeUnderspecified => "cannot infer data type to use"@,
        CompileErrorView::InvalidType(e) => "invalid type encountered: "@ + data_type_message(e),
        CompileErrorView::TemplateError(text) => "failed to render shader: "@ + text,
    }
}

impl AttributeNotFoundError {
    /// The message of the error.
    pub fn message(&self) -> (r: String)
        ensures
            r@ == attribute_message(self@),
    {
        let mut r = String::from_str("did not find attribute '");
        r.append(self.attribute.as_str());
        r.append("' for node '");
        r.append(self.op_type.as_str());
        r.append("'");
        r
    }
}

impl DataTypeError {
    /// The message of the error.
    pub fn message(&self) -> (r: String)
        ensures
            r@ == data_type_message(*self),
    {
        match self {
            DataTypeError::NotSupported(code) => {
                let mut r = String::from_str("the ONNX scalar data type '");
                append_decimal(&mut r, *code as i64);
                r.append("' is not supported");
                r
            },
            DataTypeError::NotRecognized(code) => {
                let mut r = String::from_str("the ONNX data type '");
                append_decimal(&mut r, *code as i64);
                r.append("' is not recognized");
                r
            },
        }
    }
}

impl CompileError {
    /// The message of the error.
    pub fn message(&self) -> (r: String)
        ensures
            r@ == message_of(self@),
    {
        match self {
            CompileError::DimensionsMissing(tensor, node) => {
                let mut r = String::from_str("dimensions information missing for input/output '");
                r.append(tensor.as_str());
                r.append("' of node '");
                r.append(node.as_str());
                r.append("'. You may want to run onnx-simplifier on the model first.");
                r
            },
            CompileError::AttributeNotFound(e) => {
                let mut r = String::from_str("attribute not found: ");
                r.append(e.message().as_str());
                r
            },
            CompileError::InvalidOperation(op) => {
                let mut r = String::from_str("operation not recognized: ");
                r.append(op.as_str());
                r
            },
            CompileError::UnimplementedOp(op) => {
                let mut r = String::from_str("op ");
                r.append(op.as_str());
                r.append(" is not implemented yet! Check the README if you want to implement it");
                r
            },
            CompileError::UnimplementedVariant { variant, op } => {
                let mut r = String::from_str("'");
                r.append(variant.as_str());
                r.append("' is not yet implemented for op ");
                r.append(op.as_str());
                r
            },
            CompileError::UnsupportedOpsetVersion(version) => {
                let mut r = String::from_str("the opset version ");
                append_decimal(&mut r, *version);
                r.append(" is not supported");
                r
            },
            CompileError::InvalidAttributeValue { attribute, value, opset_version } => {
                let mut r = String::from_str("the value '");
                r.append(value.as_str());
                r.append("' is invalid for attribute '");
                r.append(attribute.as_str());
                r.append("' (opset version ");
                append_decimal(&mut r, *opset_version);
                r.append(")");
                r
            },
            CompileError::InvalidInputShape { input_index, input_shape } => {
                let mut r = String::from_str("input ");
                append_digits(&mut r, *input_index as u64);
                r.append(" has invalid shape ");
                r.append(input_shape.text().as_str());
                r
            },
            CompileError::ComputeLimitExceeded(what, requested, limit) => {
                let mut r = String::from_str("the model exceeds the limit for ");
                r.append(what.as_str());
                r.append(": ");
                append_digits(&mut r, *requested as u64);
                r.append(" > ");
                append_digits(&mut r, *limit as u64);
                r
            },
            CompileError::TypesDisagree(a, b) => {
                let mut r = String::from_str("cannot determine data type to use: ");
                r.append(a.wgsl_type_name());
                r.append(" or ");
                r.append(b.wgsl_type_name());
                r
            },
            CompileError::TypeUnderspecified => String::from_str("cannot infer data type to use"),
            CompileError::InvalidType(e) => {
                let mut r = String::from_str("invalid type encountered: ");
                r.append(e.message().as_str());
                r
            },
            CompileError::TemplateError(text) => {
                let mut r = String::from_str("failed to render shader: ");
                r.append(text.as_str());
                r
            },
        }
    }
}

} // verus!
