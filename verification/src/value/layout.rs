//! The size and alignment of the elements of the numeric tower and of
//! vectors, and of arrays of them.

use vstd::prelude::*;
use vstd::layout::{align_of, size_of};
use crate::value::decimal::DecimalType;
use crate::value::function::Function;
use crate::value::integer::IntegerType;
use crate::value::natural::Natural;
use crate::value::rational::Rational;
use crate::value::signed::BigInteger;
use crate::value::tuple::Tuple;
use crate::value::vector::{Vector, VectorType, declared_length};

verus! {

/// A size and an alignment, in bytes.
#[derive(Clone, Copy, Debug, PartialEq, Eq, Structural)]
pub struct Layout {
    pub size: usize,
    pub align: usize,
}

/// The layout of a number of elements in a row: the sizes add up and the
/// alignment stays. There is none where the sizes add up to more than
/// `isize::MAX`.
pub open spec fn array_layout(element: Layout, count: usize) -> Option<Layout> {
    if element.size * count <= isize::MAX {
        Some(Layout { size: (element.size * count) as usize, align: element.align })
    } else {
        None
    }
}

/// The layout of an integer of a variant.
pub open spec fn integer_layout(kind: IntegerType) -> Layout {
    match kind {
        IntegerType::U8 => Layout { size: 1, align: 1 },
        IntegerType::U16 => Layout { size: 2, align: 2 },
        IntegerType::U32 => Layout { size: 4, align: 4 },
        IntegerType::U64 => Layout { size: 8, align: 8 },
        IntegerType::I8 => Layout { size: 1, align: 1 },
        IntegerType::I16 => Layout { size: 2, align: 2 },
        IntegerType::I32 => Layout { size: 4, align: 4 },
        IntegerType::I64 => Layout { size: 8, align: 8 },
        IntegerType::Natural => Layout {
            size: size_of::<Natural>() as usize,
            align: align_of::<Natural>() as usize,
        },
        IntegerType::Integer => Layout {
            size: size_of::<BigInteger>() as usize,
            align: align_of::<BigInteger>() as usize,
        },
    }
}

/// The layout of a decimal of a variant.
pub open spec fn decimal_layout(kind: DecimalType) -> Layout {
    match kind {
        DecimalType::F32 => Layout { size: 4, align: 4 },
        DecimalType::F64 => Layout { size: 8, align: 8 },
        DecimalType::Rational => Layout {
            size: size_of::<Rational>() as usize,
            align: align_of::<Rational>() as usize,
        },
    }
}

/// The layout of an element of a vector of a kind.
pub open spec fn element_layout(kind: VectorType) -> Layout {
    match kind {
        VectorType::U8(_) => integer_layout(IntegerType::U8),
        VectorType::U16(_) => integer_layout(IntegerType::U16),
        VectorType::U32(_) => integer_layout(IntegerType::U32),
        VectorType::U64(_) => integer_layout(IntegerType::U64),
        VectorType::I8(_) => integer_layout(IntegerType::I8),
        VectorType::I16(_) => integer_layout(IntegerType::I16),
        VectorType::I32(_) => integer_layout(IntegerType::I32),
        VectorType::I64(_) => integer_layout(IntegerType::I64),
        VectorType::F32(_) => decimal_layout(DecimalType::F32),
        VectorType::F64(_) => decimal_layout(DecimalType::F64),
        VectorType::Natural(_) => integer_layout(IntegerType::Natural),
        VectorType::Integer(_) => integer_layout(IntegerType::Integer),
        VectorType::Rational(_) => decimal_layout(DecimalType::Rational),
        VectorType::Reference(_) => Layout { size: 8, align: 8 },
        VectorType::Vector(_, _) => Layout {
            size: size_of::<Vector>() as usize,
            align: align_of::<Vector>() as usize,
        },
        VectorType::Tuple(_) => Layout {
            size: size_of::<Tuple>() as usize,
            align: align_of::<Tuple>() as usize,
        },
        VectorType::Function(_) => Layout {
            size: size_of::<Function>() as usize,
            align: align_of::<Function>() as usize,
        },
    }
}

/// The layout of a number of elements in a row.
pub fn layout_of_array(element: Layout, count: usize) -> (r: Option<Layout>)
    ensures
        r == array_layout(element, count),
{
    match element.size.checked_mul(count) {
        Some(size) => if size <= isize::MAX as usize {
            Some(Layout { size, align: element.align })
        } else {
            None
        },
        None => None,
    }
}

impl IntegerType {
    /// The layout of one integer of this variant.
    pub fn get_layout(&self) -> (r: Layout)
        ensures
            r == integer_layout(*self),
    {
        match self {
            IntegerType::U8 => Layout { size: 1, align: 1 },
            IntegerType::U16 => Layout { size: 2, align: 2 },
            IntegerType::U32 => Layout { size: 4, align: 4 },
            IntegerType::U64 => Layout { size: 8, align: 8 },
            IntegerType::I8 => Layout { size: 1, align: 1 },
            IntegerType::I16 => Layout { size: 2, align: 2 },
            IntegerType::I32 => Layout { size: 4, align: 4 },
            IntegerType::I64 => Layout { size: 8, align: 8 },
            IntegerType::Natural => Layout {
                size: core::mem::size_of::<Natural>(),
                align: core::mem::align_of::<Natural>(),
            },
            IntegerType::Integer => Layout {
                size: core::mem::size_of::<BigInteger>(),
                align: core::mem::align_of::<BigInteger>(),
            },
        }
    }

    /// The layout of `size` integers of this variant in a row, where
    /// there is one.
    pub fn get_array_layout(&self, size: usize) -> (r: Option<Layout>)
        ensures
            r == array_layout(integer_layout(*self), size),
    {
        layout_of_array(self.get_layout(), size)
    }
}

impl DecimalType {
    /// The layout of one decimal of this variant.
    pub fn get_layout(&self) -> (r: Layout)
        ensures
            r == decimal_layout(*self),
    {
        match self {
            DecimalType::F32 => Layout { size: 4, align: 4 },
            DecimalType::F64 => Layout { size: 8, align: 8 },
            DecimalType::Rational => Layout {
                size: core::mem::size_of::<Rational>(),
                align: core::mem::align_of::<Rational>(),
            },
        }
    }

    /// The layout of `size` decimals of this variant in a row, where
    /// there is one.
    pub fn get_array_layout(&self, size: usize) -> (r: Option<Layout>)
        ensures
            r == array_layout(decimal_layout(*self), size),
    {
        layout_of_array(self.get_layout(), size)
    }
}

impl VectorType {
    /// The layout of one element of a vector of this kind.
    pub fn get_element_layout(&self) -> (r: Layout)
        ensures
            r == element_layout(*self),
    {
        match self {
            VectorType::U8(_) => IntegerType::U8.get_layout(),
            VectorType::U16(_) => IntegerType::U16.get_layout(),
            VectorType::U32(_) => IntegerType::U32.get_layout(),
            VectorType::U64(_) => IntegerType::U64.get_layout(),
            VectorType::I8(_) => IntegerType::I8.get_layout(),
            VectorType::I16(_) => IntegerType::I16.get_layout(),
            VectorType::I32(_) => IntegerType::I32.get_layout(),
            VectorType::I64(_) => IntegerType::I64.get_layout(),
            VectorType::F32(_) => DecimalType::F32.get_layout(),
            VectorType::F64(_) => DecimalType::F64.get_layout(),
            VectorType::Natural(_) => IntegerType::Natural.get_layout(),
            VectorType::Integer(_) => IntegerType::Integer.get_layout(),
            VectorType::Rational(_) => DecimalType::Rational.get_layout(),
            VectorType::Reference(_) => Layout { size: 8, align: 8 },
            VectorType::Vector(_, _) => Layout {
                size: core::mem::size_of::<Vector>(),
                align: core::mem::align_of::<Vector>(),
            },
            VectorType::Tuple(_) => Layout {
                size: core::mem::size_of::<Tuple>(),
                align: core::mem::align_of::<Tuple>(),
            },
            VectorType::Function(_) => Layout {
                size: core::mem::size_of::<Function>(),
                align: core::mem::align_of::<Function>(),
            },
        }
    }

    /// The layout of a vector of this kind with its declared length,
    /// where there is one.
    pub fn get_layout(&self) -> (r: Option<Layout>)
        ensures
            r == array_layout(element_layout(*self), declared_length(*self) as usize),
    {
        layout_of_array(self.get_element_layout(), self.length())
    }

    /// The layout of `size` elements of a vector of this kind in a row,
    /// where there is one.
    pub fn get_array_layout(&self, size: usize) -> (r: Option<Layout>)
        ensures
            r == array_layout(element_layout(*self), size),
    {
        layout_of_array(self.get_element_layout(), size)
    }
}

} // verus!
