//! How the values and the instructions of the machine are written out.
//!
//! A text is made of pieces. Most pieces are texts of their own; a
//! character and a floating-point number are handed on as they are, for
//! the one who prints to write them.

use vstd::prelude::*;
use crate::instruction::{
    FunctionSource, FunctionSourceModel, Instruction, InstructionModel, JumpTarget,
    OperationModel, RealInstruction, comparison_name, condition_name,
};
use crate::program::{StringTablePath, path_text, texts};
use crate::stack::Stack;
use crate::value::decimal::{Decimal, DecimalModel, decimal_type_name};
use crate::value::function::{Function, FunctionModel};
use crate::value::integer::integer_type_name;
use crate::value::text::{
    decimal_text, fraction_text, hexadecimal_text, signed_text, to_decimal, to_hexadecimal,
    to_signed_decimal,
};
use crate::value::product::{ProductModel, ProductType};
use crate::value::sum::{SumModel, SumType};
use crate::value::tuple::Tuple;
use crate::value::vector::{Vector, VectorModel, VectorType};
use crate::value::{Value, ValueModel, ValueType, fields_model, values_model};

verus! {

/// A piece of a text.
#[derive(Debug)]
pub enum Piece {
    Text(String),
    Character(char),
    /// The bit pattern of a binary32 number.
    Single(u32),
    /// The bit pattern of a binary64 number.
    Double(u64),
}

/// What a `Piece` is.
pub enum PieceModel {
    Text(Seq<char>),
    Character(char),
    Single(u32),
    Double(u64),
}

impl View for Piece {
    type V = PieceModel;

    open spec fn view(&self) -> PieceModel {
        match *self {
            Piece::Text(text) => PieceModel::Text(text@),
            Piece::Character(c) => PieceModel::Character(c),
            Piece::Single(bits) => PieceModel::Single(bits),
            Piece::Double(bits) => PieceModel::Double(bits),
        }
    }
}

/// The models of a sequence of pieces.
pub open spec fn pieces_model(pieces: Seq<Piece>) -> Seq<PieceModel> {
    Seq::new(pieces.len(), |i: int| pieces[i]@)
}

/// The text that is one piece.
pub open spec fn word(text: Seq<char>) -> Seq<PieceModel> {
    seq![PieceModel::Text(text)]
}

/// The name under which a truth value is written.
pub open spec fn truth_text(value: bool) -> Seq<char> {
    if value {
        "true"@
    } else {
        "false"@
    }
}

/// The text of the path of a string table: each segment with `::` after
/// it.
pub open spec fn table_path_text(segments: Seq<Seq<char>>) -> Seq<char>
    decreases segments.len(),
{
    if segments.len() == 0 {
        Seq::empty()
    } else {
        table_path_text(segments.drop_last()) + segments.last() + "::"@
    }
}

/// A kind of vector: the kind of its elements and its declared length.
pub open spec fn vector_type_pieces(kind: VectorType) -> Seq<PieceModel>
    decreases kind,
{
    match kind {
        VectorType::U8(n) => word("u8 x "@) + word(decimal_text(n as nat)),
        VectorType::U16(n) => word("u16 x "@) + word(decimal_text(n as nat)),
        VectorType::U32(n) => word("u32 x "@) + word(decimal_text(n as nat)),
        VectorType::U64(n) => word("u64 x "@) + word(decimal_text(n as nat)),
        VectorType::I8(n) => word("i8 x "@) + word(decimal_text(n as nat)),
        VectorType::I16(n) => word("i16 x "@) + word(decimal_text(n as nat)),
        VectorType::I32(n) => word("i32 x "@) + word(decimal_text(n as nat)),
        VectorType::I64(n) => word("i64 x "@) + word(decimal_text(n as nat)),
        VectorType::F32(n) => word("f32 x "@) + word(decimal_text(n as nat)),
        VectorType::F64(n) => word("f64 x "@) + word(decimal_text(n as nat)),
        VectorType::Natural(n) => word("Natural x "@) + word(decimal_text(n as nat)),
        VectorType::Integer(n) => word("Integer x "@) + word(decimal_text(n as nat)),
        VectorType::Rational(n) => word("Rational x "@) + word(decimal_text(n as nat)),
        VectorType::Reference(n) => word("Reference x "@) + word(decimal_text(n as nat)),
        VectorType::Tuple(n) => word("Tuple x "@) + word(decimal_text(n as nat)),
        VectorType::Function(n) => word("Function x "@) + word(decimal_text(n as nat)),
        VectorType::Vector(inner, n) => word("Vector of "@) + vector_type_pieces(*inner) + word(
            " x "@,
        ) + word(decimal_text(n as nat)),
    }
}

/// A type of values.
pub open spec fn value_type_pieces(target: ValueType) -> Seq<PieceModel> {
    match target {
        ValueType::String => word("String"@),
        ValueType::Integer(kind) => word("Integer: "@) + word(integer_type_name(kind)),
        ValueType::Decimal(kind) => word("Decimal: "@) + word(decimal_type_name(kind)),
        ValueType::Vector(kind) => word("Vector: "@) + vector_type_pieces(kind),
        ValueType::Product => word("Product"@),
        ValueType::Sum => word("Sum"@),
        ValueType::Function => word("Function"@),
        ValueType::Reference => word("Reference"@),
        ValueType::Tuple => word("Tuple"@),
        ValueType::Character => word("Character"@),
        ValueType::Boolean => word("Boolean"@),
    }
}

/// Where a function is taken from.
pub open spec fn source_pieces(source: FunctionSourceModel) -> Seq<PieceModel> {
    match source {
        FunctionSourceModel::Name(path) => word("name: "@) + word(path_text(path)),
        FunctionSourceModel::Address => word("address"@),
        FunctionSourceModel::Stack => word("stack"@),
    }
}

/// Where a jump goes: a relative target in decimal, an absolute one in
/// hexadecimal digits.
pub open spec fn target_pieces(target: JumpTarget) -> Seq<PieceModel> {
    match target {
        JumpTarget::Relative(offset) => word("relative: "@) + word(signed_text(offset as int)),
        JumpTarget::Absolute(address) => word("absolute: "@) + word(
            hexadecimal_text(address as nat),
        ),
    }
}

/// A decimal: a fraction as numerator, `/` and denominator; a
/// floating-point number as it is.
pub open spec fn decimal_pieces(decimal: DecimalModel) -> Seq<PieceModel> {
    match decimal {
        DecimalModel::F32(bits) => seq![PieceModel::Single(bits)],
        DecimalModel::F64(bits) => seq![PieceModel::Double(bits)],
        DecimalModel::Rational(q) => word(fraction_text(q.numerator, q.denominator)),
    }
}

/// A value. A vector stands in brackets with `, ` between its elements;
/// a tuple in parentheses with `, ` after each element.
pub open spec fn value_pieces(value: ValueModel) -> Seq<PieceModel>
    decreases value, 0nat,
{
    match value {
        ValueModel::String(text) => word(text),
        ValueModel::Integer(integer) => word(signed_text(integer.value)),
        ValueModel::Decimal(decimal) => decimal_pieces(decimal),
        ValueModel::Vector(vector) => vector_pieces(vector),
        ValueModel::Product(product) => product_pieces(product),
        ValueModel::Sum(sum) => sum_pieces(sum),
        ValueModel::Function(function) => function_pieces(function),
        ValueModel::Reference(id) => word("&"@) + word(hexadecimal_text(id as nat)),
        ValueModel::Tuple(items) => tuple_pieces(items),
        ValueModel::Character(c) => seq![PieceModel::Character(c)],
        ValueModel::Boolean(b) => word(truth_text(b)),
    }
}

/// A vector: its elements in brackets, with `, ` between them.
pub open spec fn vector_pieces(vector: VectorModel) -> Seq<PieceModel>
    decreases vector, 0nat,
{
    word("["@) + separated(vector.items, vector.items.len()) + word("]"@)
}

/// A tuple: its elements in parentheses, with `, ` after each.
pub open spec fn tuple_pieces(items: Seq<ValueModel>) -> Seq<PieceModel>
    decreases items, items.len() + 1,
{
    word("("@) + terminated(items, items.len(), ", "@) + word(")"@)
}

/// A product: its name and, in braces, its fields, one to a line.
pub open spec fn product_pieces(product: ProductModel) -> Seq<PieceModel>
    decreases product, 0nat,
{
    word(product.name) + word(" {"@) + fields_pieces(
        product.fields,
        product.fields.len(),
        ", \n"@,
    ) + word("}"@)
}

/// A sum: its name and, in parentheses, its fields.
pub open spec fn sum_pieces(sum: SumModel) -> Seq<PieceModel>
    decreases sum, 0nat,
{
    word(sum.name) + word("("@) + fields_pieces(sum.fields, sum.fields.len(), ", "@) + word(")"@)
}

/// The first `count` values with `, ` between them.
pub open spec fn separated(items: Seq<ValueModel>, count: nat) -> Seq<PieceModel>
    decreases items, count,
{
    if count == 0 || count > items.len() {
        Seq::empty()
    } else if count == 1 {
        value_pieces(items[0])
    } else {
        separated(items, (count - 1) as nat) + word(", "@) + value_pieces(items[count - 1])
    }
}

/// The first `count` values, each with a text after it.
pub open spec fn terminated(items: Seq<ValueModel>, count: nat, after: Seq<char>) -> Seq<
    PieceModel,
>
    decreases items, count,
{
    if count == 0 || count > items.len() {
        Seq::empty()
    } else {
        terminated(items, (count - 1) as nat, after) + value_pieces(items[count - 1]) + word(after)
    }
}

/// The first `count` fields, each as name, `: ` and value with a text
/// after it.
pub open spec fn fields_pieces(
    fields: Seq<(Seq<char>, ValueModel)>,
    count: nat,
    after: Seq<char>,
) -> Seq<PieceModel>
    decreases fields, count,
{
    if count == 0 || count > fields.len() {
        Seq::empty()
    } else {
        fields_pieces(fields, (count - 1) as nat, after) + word(fields[count - 1].0) + word(": "@)
            + value_pieces(fields[count - 1].1) + word(after)
    }
}

/// The first `count` names, each with `, ` after it.
pub open spec fn names_pieces(names: Seq<Seq<char>>, count: nat) -> Seq<PieceModel>
    decreases count,
{
    if count == 0 || count > names.len() {
        Seq::empty()
    } else {
        names_pieces(names, (count - 1) as nat) + word(names[count - 1]) + word(", "@)
    }
}

/// A function: its parameters in parentheses and its instructions in
/// braces, one to a line.
pub open spec fn function_pieces(function: FunctionModel) -> Seq<PieceModel>
    decreases function, 0nat,
{
    word("fn("@) + names_pieces(function.argument_names, function.argument_names.len()) + word(
        ") {\n"@,
    ) + code_pieces(function.code, function.code.len()) + word("}"@)
}

/// The first `count` instructions, each with `, ` and a line break after
/// it.
pub open spec fn code_pieces(code: Seq<InstructionModel>, count: nat) -> Seq<PieceModel>
    decreases code, count,
{
    if count == 0 || count > code.len() {
        Seq::empty()
    } else {
        code_pieces(code, (count - 1) as nat) + instruction_pieces(code[count - 1]) + word(
            ", \n"@,
        )
    }
}

/// An instruction: the operation, ` @ `, the row, `:` and the column.
pub open spec fn instruction_pieces(instruction: InstructionModel) -> Seq<PieceModel>
    decreases instruction, 0nat,
{
    operation_pieces(instruction.instruction) + word(" @ "@) + word(
        decimal_text(instruction.row as nat),
    ) + word(":"@) + word(decimal_text(instruction.column as nat))
}

/// An operation: its name and, after a blank, what it carries.
pub open spec fn operation_pieces(operation: OperationModel) -> Seq<PieceModel>
    decreases operation, 0nat,
{
    match operation {
        OperationModel::Halt => word("halt"@),
        OperationModel::NoOp => word("noop"@),
        OperationModel::Push(a) => word("push "@) + value_pieces(a),
        OperationModel::Pop => word("pop"@),
        OperationModel::Duplicate => word("duplicate"@),
        OperationModel::TupleNew => word("tuple.new"@),
        OperationModel::TupleGet => word("tuple.get"@),
        OperationModel::VectorNew(a) => word("vector.new "@) + vector_type_pieces(a),
        OperationModel::VectorGet => word("vector.get"@),
        OperationModel::VectorSet => word("vector.set"@),
        OperationModel::VectorLength => word("vector.length"@),
        OperationModel::ProductNew(a) => word("product.new "@) + word(decimal_text(a as nat)),
        OperationModel::ProductGet(a) => word("product.get "@) + word(a),
        OperationModel::ProductSet(a) => word("product.set "@) + word(decimal_text(a as nat)),
        OperationModel::SumNew(a) => word("sum.new "@) + word(a),
        OperationModel::SumGet(a) => word("sum.get "@) + word(a),
        OperationModel::SumSet(a) => word("sum.set "@) + word(a),
        OperationModel::FunctionCall(a, b) => word("function.call "@) + source_pieces(a) + word(
            " when "@,
        ) + word(condition_name(b)),
        OperationModel::Return(a) => word("return when "@) + word(condition_name(a)),
        OperationModel::ClosureNew(a) => word("closure.new "@) + source_pieces(a),
        OperationModel::ReferenceNew => word("reference.new"@),
        OperationModel::ReferenceGet => word("reference.get"@),
        OperationModel::ReferenceSet => word("reference.set"@),
        OperationModel::ReferenceSetShared => word("reference.set_shared"@),
        OperationModel::IntegerNew(a) => word("integer.new "@) + word(signed_text(a.value)),
        OperationModel::IntegerAdd => word("integer.add"@),
        OperationModel::IntegerSubtract => word("integer.subtract"@),
        OperationModel::IntegerMultiply => word("integer.multiply"@),
        OperationModel::IntegerDivide => word("integer.divide"@),
        OperationModel::IntegerModulo => word("integer.modulo"@),
        OperationModel::IntegerPower => word("integer.power"@),
        OperationModel::IntegerNegate => word("integer.negate"@),
        OperationModel::IntegerBitwiseAnd => word("integer.bitwise_and"@),
        OperationModel::IntegerBitwiseOr => word("integer.bitwise_or"@),
        OperationModel::IntegerBitwiseXor => word("integer.bitwise_xor"@),
        OperationModel::IntegerBitwiseNot => word("integer.bitwise_not"@),
        OperationModel::IntegerShiftLeft => word("integer.shift_left"@),
        OperationModel::IntegerShiftRight => word("integer.shift_right"@),
        OperationModel::DecimalNew(a) => word("decimal.new "@) + decimal_pieces(a),
        OperationModel::DecimalAdd => word("decimal.add"@),
        OperationModel::DecimalSubtract => word("decimal.subtract"@),
        OperationModel::DecimalMultiply => word("decimal.multiply"@),
        OperationModel::DecimalDivide => word("decimal.divide"@),
        OperationModel::DecimalModulo => word("decimal.modulo"@),
        OperationModel::DecimalPower => word("decimal.power"@),
        OperationModel::DecimalNegate => word("decimal.negate"@),
        OperationModel::StringNew(a) => word("string.new "@) + word(a),
        OperationModel::StringConcat => word("string.concat"@),
        OperationModel::StringLength => word("string.length"@),
        OperationModel::BooleanNew(a) => word("boolean.new "@) + word(truth_text(a)),
        OperationModel::BooleanAnd => word("boolean.and"@),
        OperationModel::BooleanOr => word("boolean.or"@),
        OperationModel::BooleanNot => word("boolean.not"@),
        OperationModel::CharacterNew(a) => word("character.new "@) + seq![PieceModel::Character(a)],
        OperationModel::RequestValue(a) => word("request_value "@) + word(a),
        OperationModel::SetValue(a) => word("set_value "@) + word(a),
        OperationModel::Compare(a) => word("compare "@) + word(comparison_name(a)),
        OperationModel::Goto(a, b) => word("goto "@) + target_pieces(a) + word(" "@) + word(
            condition_name(b),
        ),
        OperationModel::Store(a) => word("store "@) + word(a),
        OperationModel::Lookup(a) => word("lookup "@) + word(a),
        OperationModel::GlobalStore(a) => word("global_store "@) + word(a),
        OperationModel::GlobalLookup(a) => word("global_lookup "@) + word(a),
        OperationModel::Write => word("write"@),
        OperationModel::Read => word("read"@),
        OperationModel::GetStringRef(a, b) => word("get_string_ref "@) + word(
            table_path_text(a),
        ) + word(" "@) + word(decimal_text(b as nat)),
        OperationModel::Cast(a) => word("cast "@) + value_type_pieces(a),
    }
}

/// A text that is being written, piece by piece.
#[derive(Debug)]
pub struct Writer {
    pub pieces: Vec<Piece>,
}

impl View for Writer {
    type V = Seq<PieceModel>;

    open spec fn view(&self) -> Seq<PieceModel> {
        pieces_model(self.pieces@)
    }
}

impl Writer {
    /// The empty text.
    pub fn new() -> (r: Writer)
        ensures
            r@ == Seq::<PieceModel>::empty(),
    {
        let pieces: Vec<Piece> = Vec::new();
        assert(pieces_model(pieces@) =~= Seq::<PieceModel>::empty());
        Writer { pieces }
    }

    fn piece(&mut self, piece: Piece)
        ensures
            final(self)@ == old(self)@ + seq![piece@],
    {
        proof {
            assert(pieces_model(self.pieces@.push(piece)) =~= pieces_model(self.pieces@) + seq![
                piece@,
            ]);
        }
        self.pieces.push(piece);
    }

    /// Writes a text.
    pub fn text(&mut self, text: &str)
        ensures
            final(self)@ == old(self)@ + word(text@),
    {
        self.piece(Piece::Text(text.to_owned()));
    }

    /// Writes a text that is handed over.
    pub fn string(&mut self, text: String)
        ensures
            final(self)@ == old(self)@ + word(text@),
    {
        self.piece(Piece::Text(text));
    }

    /// Writes a character.
    pub fn character(&mut self, c: char)
        ensures
            final(self)@ == old(self)@ + seq![PieceModel::Character(c)],
    {
        self.piece(Piece::Character(c));
    }
}

fn truth_name(value: bool) -> (r: &'static str)
    ensures
        r@ == truth_text(value),
{
    if value {
        "true"
    } else {
        "false"
    }
}

/// The text of the path of a string table.
pub fn table_path_to_text(path: &StringTablePath) -> (r: String)
    ensures
        r@ == table_path_text(path@),
{
    let mut text = String::new();
    let mut i: usize = 0;
    let ghost all = texts(path.path@);
    while i < path.path.len()
        invariant
            i <= path.path.len(),
            all == texts(path.path@),
            text@ == table_path_text(all.subrange(0, i as int)),
        decreases path.path.len() - i,
    {
        proof {
            let longer = all.subrange(0, i + 1);
            assert(longer.drop_last() =~= all.subrange(0, i as int));
            assert(longer.last() == path.path@[i as int]@);
        }
        text.append(path.path[i].as_str());
        text.append("::");
        i = i + 1;
    }
    proof {
        assert(all.subrange(0, path.path@.len() as int) =~= all);
    }
    text
}

/// Writes a kind of vector.
pub fn write_vector_type(out: &mut Writer, kind: &VectorType)
    ensures
        final(out)@ == old(out)@ + vector_type_pieces(*kind),
    decreases *kind,
{
    match kind {
        VectorType::U8(n) => {
            out.text("u8 x ");
            out.string(to_decimal(*n as u64));
        },
        VectorType::U16(n) => {
            out.text("u16 x ");
            out.string(to_decimal(*n as u64));
        },
        VectorType::U32(n) => {
            out.text("u32 x ");
            out.string(to_decimal(*n as u64));
        },
        VectorType::U64(n) => {
            out.text("u64 x ");
            out.string(to_decimal(*n as u64));
        },
        VectorType::I8(n) => {
            out.text("i8 x ");
            out.string(to_decimal(*n as u64));
        },
        VectorType::I16(n) => {
            out.text("i16 x ");
            out.string(to_decimal(*n as u64));
        },
        VectorType::I32(n) => {
            out.text("i32 x ");
            out.string(to_decimal(*n as u64));
        },
        VectorType::I64(n) => {
            out.text("i64 x ");
            out.string(to_decimal(*n as u64));
        },
        VectorType::F32(n) => {
            out.text("f32 x ");
            out.string(to_decimal(*n as u64));
        },
        VectorType::F64(n) => {
            out.text("f64 x ");
            out.string(to_decimal(*n as u64));
        },
        VectorType::Natural(n) => {
            out.text("Natural x ");
            out.string(to_decimal(*n as u64));
        },
        VectorType::Integer(n) => {
            out.text("Integer x ");
            out.string(to_decimal(*n as u64));
        },
        VectorType::Rational(n) => {
            out.text("Rational x ");
            out.string(to_decimal(*n as u64));
        },
        VectorType::Reference(n) => {
            out.text("Reference x ");
            out.string(to_decimal(*n as u64));
        },
        VectorType::Tuple(n) => {
            out.text("Tuple x ");
            out.string(to_decimal(*n as u64));
        },
        VectorType::Function(n) => {
            out.text("Function x ");
            out.string(to_decimal(*n as u64));
        },
        VectorType::Vector(inner, n) => {
            out.text("Vector of ");
            write_vector_type(out, &**inner);
            out.text(" x ");
            out.string(to_decimal(*n as u64));
        },
    }
    proof {
        assert(final(out)@ =~= old(out)@ + vector_type_pieces(*kind));
    }
}

/// Writes a type of values.
pub fn write_value_type(out: &mut Writer, target: &ValueType)
    ensures
        final(out)@ == old(out)@ + value_type_pieces(*target),
{
    match target {
        ValueType::String => {
            out.text("String");
        },
        ValueType::Integer(kind) => {
            out.text("Integer: ");
            out.text(kind.name());
        },
        ValueType::Decimal(kind) => {
            out.text("Decimal: ");
            out.text(kind.name());
        },
        ValueType::Vector(kind) => {
            out.text("Vector: ");
            write_vector_type(out, kind);
        },
        ValueType::Product => {
            out.text("Product");
        },
        ValueType::Sum => {
            out.text("Sum");
        },
        ValueType::Function => {
            out.text("Function");
        },
        ValueType::Reference => {
            out.text("Reference");
        },
        ValueType::Tuple => {
            out.text("Tuple");
        },
        ValueType::Character => {
            out.text("Character");
        },
        ValueType::Boolean => {
            out.text("Boolean");
        },
    }
    proof {
        assert(final(out)@ =~= old(out)@ + value_type_pieces(*target));
    }
}

/// Writes where a function is taken from.
pub fn write_source(out: &mut Writer, source: &FunctionSource)
    ensures
        final(out)@ == old(out)@ + source_pieces(source@),
{
    match source {
        FunctionSource::Name(path) => {
            out.text("name: ");
            out.string(path.to_text());
        },
        FunctionSource::Address => {
            out.text("address");
        },
        FunctionSource::Stack => {
            out.text("stack");
        },
    }
    proof {
        assert(final(out)@ =~= old(out)@ + source_pieces(source@));
    }
}

/// Writes where a jump goes.
pub fn write_target(out: &mut Writer, target: &JumpTarget)
    ensures
        final(out)@ == old(out)@ + target_pieces(*target),
{
    match target {
        JumpTarget::Relative(offset) => {
            out.text("relative: ");
            out.string(to_signed_decimal(*offset as i64));
        },
        JumpTarget::Absolute(address) => {
            out.text("absolute: ");
            out.string(to_hexadecimal(*address as u64));
        },
    }
    proof {
        assert(final(out)@ =~= old(out)@ + target_pieces(*target));
    }
}

/// Writes a decimal.
pub fn write_decimal(out: &mut Writer, decimal: &Decimal)
    ensures
        final(out)@ == old(out)@ + decimal_pieces(decimal@),
{
    match decimal {
        Decimal::F32(bits) => {
            out.piece(Piece::Single(*bits));
        },
        Decimal::F64(bits) => {
            out.piece(Piece::Double(*bits));
        },
        Decimal::Rational(q) => {
            out.string(q.to_text());
        },
    }
}

/// Writes a value.
pub fn write_value(out: &mut Writer, value: &Value)
    ensures
        final(out)@ == old(out)@ + value_pieces(value@),
    decreases *value, 0nat,
{
    match value {
        Value::String(text) => {
            out.text(text.as_str());
        },
        Value::Integer(integer) => {
            out.string(integer.to_text());
        },
        Value::Decimal(decimal) => {
            write_decimal(out, decimal);
        },
        Value::Vector(vector) => {
            write_vector(out, vector);
        },
        Value::Product(product) => {
            write_product(out, product);
        },
        Value::Sum(sum) => {
            write_sum(out, sum);
        },
        Value::Function(function) => {
            write_function(out, function);
        },
        Value::Reference(reference) => {
            out.text("&");
            out.string(to_hexadecimal(reference.0));
        },
        Value::Tuple(tuple) => {
            write_tuple(out, tuple);
        },
        Value::Character(c) => {
            out.character(*c);
        },
        Value::Boolean(b) => {
            out.text(truth_name(*b));
        },
    }
    proof {
        assert(final(out)@ =~= old(out)@ + value_pieces(value@));
    }
}

/// Writes a vector.
pub fn write_vector(out: &mut Writer, vector: &Vector)
    ensures
        final(out)@ == old(out)@ + vector_pieces(vector@),
    decreases *vector, 0nat,
{
    out.text("[");
    write_separated(out, &vector.items);
    out.text("]");
    proof {
        assert(final(out)@ =~= old(out)@ + vector_pieces(vector@));
    }
}

/// Writes a tuple.
pub fn write_tuple(out: &mut Writer, tuple: &Tuple)
    ensures
        final(out)@ == old(out)@ + tuple_pieces(tuple@),
    decreases *tuple, 0nat,
{
    out.text("(");
    write_terminated(out, &tuple.data, ", ");
    out.text(")");
    proof {
        assert(final(out)@ =~= old(out)@ + tuple_pieces(tuple@));
    }
}

/// Writes a product.
pub fn write_product(out: &mut Writer, product: &ProductType)
    ensures
        final(out)@ == old(out)@ + product_pieces(product@),
    decreases *product, 0nat,
{
    out.text(product.name.as_str());
    out.text(" {");
    write_fields(out, &product.fields, ", \n");
    out.text("}");
    proof {
        assert(final(out)@ =~= old(out)@ + product_pieces(product@));
    }
}

/// Writes a sum.
pub fn write_sum(out: &mut Writer, sum: &SumType)
    ensures
        final(out)@ == old(out)@ + sum_pieces(sum@),
    decreases *sum, 0nat,
{
    out.text(sum.name.as_str());
    out.text("(");
    write_fields(out, &sum.fields, ", ");
    out.text(")");
    proof {
        assert(final(out)@ =~= old(out)@ + sum_pieces(sum@));
    }
}

/// Writes values with `, ` between them.
pub fn write_separated(out: &mut Writer, items: &Vec<Value>)
    ensures
        final(out)@ == old(out)@ + separated(values_model(items@), items@.len()),
    decreases *items, 1nat,
{
    let ghost start = out@;
    let ghost models = values_model(items@);
    let mut i: usize = 0;
    proof {
        assert(start + separated(models, 0) =~= start);
    }
    while i < items.len()
        invariant
            i <= items.len(),
            models == values_model(items@),
            out@ == start + separated(models, i as nat),
        decreases items.len() - i,
    {
        let ghost before = out@;
        if i > 0 {
            out.text(", ");
        }
        write_value(out, &items[i]);
        proof {
            assert(models[i as int] == items@[i as int]@);
            assert(out@ =~= start + separated(models, (i + 1) as nat));
        }
        i = i + 1;
    }
}

/// Writes values, each with a text after it.
pub fn write_terminated(out: &mut Writer, items: &Vec<Value>, after: &str)
    ensures
        final(out)@ == old(out)@ + terminated(values_model(items@), items@.len(), after@),
    decreases *items, 1nat,
{
    let ghost start = out@;
    let ghost models = values_model(items@);
    let mut i: usize = 0;
    proof {
        assert(start + terminated(models, 0, after@) =~= start);
    }
    while i < items.len()
        invariant
            i <= items.len(),
            models == values_model(items@),
            out@ == start + terminated(models, i as nat, after@),
        decreases items.len() - i,
    {
        write_value(out, &items[i]);
        out.text(after);
        proof {
            assert(models[i as int] == items@[i as int]@);
            assert(out@ =~= start + terminated(models, (i + 1) as nat, after@));
        }
        i = i + 1;
    }
}

/// Writes fields, each as name, `: ` and value with a text after it.
pub fn write_fields(out: &mut Writer, fields: &Vec<(String, Value)>, after: &str)
    ensures
        final(out)@ == old(out)@ + fields_pieces(fields_model(fields@), fields@.len(), after@),
    decreases *fields, 1nat,
{
    let ghost start = out@;
    let ghost models = fields_model(fields@);
    let mut i: usize = 0;
    proof {
        assert(start + fields_pieces(models, 0, after@) =~= start);
    }
    while i < fields.len()
        invariant
            i <= fields.len(),
            models == fields_model(fields@),
            out@ == start + fields_pieces(models, i as nat, after@),
        decreases fields.len() - i,
    {
        out.text(fields[i].0.as_str());
        out.text(": ");
        write_value(out, &fields[i].1);
        out.text(after);
        proof {
            assert(models[i as int] == (fields@[i as int].0@, fields@[i as int].1@));
            assert(out@ =~= start + fields_pieces(models, (i + 1) as nat, after@));
        }
        i = i + 1;
    }
}

/// Writes names, each with `, ` after it.
pub fn write_names(out: &mut Writer, names: &Vec<String>)
    ensures
        final(out)@ == old(out)@ + names_pieces(texts(names@), names@.len()),
{
    let ghost start = out@;
    let ghost models = texts(names@);
    let mut i: usize = 0;
    proof {
        assert(start + names_pieces(models, 0) =~= start);
    }
    while i < names.len()
        invariant
            i <= names.len(),
            models == texts(names@),
            out@ == start + names_pieces(models, i as nat),
        decreases names.len() - i,
    {
        out.text(names[i].as_str());
        out.text(", ");
        proof {
            assert(out@ =~= start + names_pieces(models, (i + 1) as nat));
        }
        i = i + 1;
    }
}

/// Writes a function.
pub fn write_function(out: &mut Writer, function: &Function)
    ensures
        final(out)@ == old(out)@ + function_pieces(function@),
    decreases *function, 0nat,
{
    out.text("fn(");
    write_names(out, &function.argument_names);
    out.text(") {\n");
    write_code(out, &function.code);
    out.text("}");
    proof {
        assert(final(out)@ =~= old(out)@ + function_pieces(function@));
    }
}

/// Writes instructions, each with `, ` and a line break after it.
pub fn write_code(out: &mut Writer, code: &Vec<Instruction>)
    ensures
        final(out)@ == old(out)@ + code_pieces(crate::value::code_model(code@), code@.len()),
    decreases *code, 1nat,
{
    let ghost start = out@;
    let ghost models = crate::value::code_model(code@);
    let mut i: usize = 0;
    proof {
        assert(start + code_pieces(models, 0) =~= start);
    }
    while i < code.len()
        invariant
            i <= code.len(),
            models == crate::value::code_model(code@),
            out@ == start + code_pieces(models, i as nat),
        decreases code.len() - i,
    {
        write_instruction(out, &code[i]);
        out.text(", \n");
        proof {
            assert(models[i as int] == code@[i as int]@);
            assert(out@ =~= start + code_pieces(models, (i + 1) as nat));
        }
        i = i + 1;
    }
}

/// Writes an instruction.
pub fn write_instruction(out: &mut Writer, instruction: &Instruction)
    ensures
        final(out)@ == old(out)@ + instruction_pieces(instruction@),
    decreases *instruction, 0nat,
{
    write_operation(out, &instruction.instruction);
    out.text(" @ ");
    out.string(to_decimal(instruction.row as u64));
    out.text(":");
    out.string(to_decimal(instruction.column as u64));
    proof {
        assert(final(out)@ =~= old(out)@ + instruction_pieces(instruction@));
    }
}

/// Writes an operation.
#[verifier::rlimit(30)]
pub fn write_operation(out: &mut Writer, operation: &RealInstruction)
    ensures
        final(out)@ == old(out)@ + operation_pieces(operation@),
    decreases *operation, 0nat,
{
    match operation {
        RealInstruction::Halt => {
            out.text("halt");
        },
        RealInstruction::NoOp => {
            out.text("noop");
        },
        RealInstruction::Push(a) => {
            out.text("push ");
            write_value(out, a);
        },
        RealInstruction::Pop => {
            out.text("pop");
        },
        RealInstruction::Duplicate => {
            out.text("duplicate");
        },
        RealInstruction::TupleNew => {
            out.text("tuple.new");
        },
        RealInstruction::TupleGet => {
            out.text("tuple.get");
        },
        RealInstruction::VectorNew(a) => {
            out.text("vector.new ");
            write_vector_type(out, a);
        },
        RealInstruction::VectorGet => {
            out.text("vector.get");
        },
        RealInstruction::VectorSet => {
            out.text("vector.set");
        },
        RealInstruction::VectorLength => {
            out.text("vector.length");
        },
        RealInstruction::ProductNew(a) => {
            out.text("product.new ");
            out.string(to_decimal(*a as u64));
        },
        RealInstruction::ProductGet(a) => {
            out.text("product.get ");
            out.text(a.as_str());
        },
        RealInstruction::ProductSet(a) => {
            out.text("product.set ");
            out.string(to_decimal(*a as u64));
        },
        RealInstruction::SumNew(a) => {
            out.text("sum.new ");
            out.text(a.as_str());
        },
        RealInstruction::SumGet(a) => {
            out.text("sum.get ");
            out.text(a.as_str());
        },
        RealInstruction::SumSet(a) => {
            out.text("sum.set ");
            out.text(a.as_str());
        },
        RealInstruction::FunctionCall(a, b) => {
            out.text("function.call ");
            write_source(out, a);
            out.text(" when ");
            out.text(b.name());
        },
        RealInstruction::Return(a) => {
            out.text("return when ");
            out.text(a.name());
        },
        RealInstruction::ClosureNew(a) => {
            out.text("closure.new ");
            write_source(out, a);
        },
        RealInstruction::ReferenceNew => {
            out.text("reference.new");
        },
        RealInstruction::ReferenceGet => {
            out.text("reference.get");
        },
        RealInstruction::ReferenceSet => {
            out.text("reference.set");
        },
        RealInstruction::ReferenceSetShared => {
            out.text("reference.set_shared");
        },
        RealInstruction::IntegerNew(a) => {
            out.text("integer.new ");
            out.string(a.to_text());
        },
        RealInstruction::IntegerAdd => {
            out.text("integer.add");
        },
        RealInstruction::IntegerSubtract => {
            out.text("integer.subtract");
        },
        RealInstruction::IntegerMultiply => {
            out.text("integer.multiply");
        },
        RealInstruction::IntegerDivide => {
            out.text("integer.divide");
        },
        RealInstruction::IntegerModulo => {
            out.text("integer.modulo");
        },
        RealInstruction::IntegerPower => {
            out.text("integer.power");
        },
        RealInstruction::IntegerNegate => {
            out.text("integer.negate");
        },
        RealInstruction::IntegerBitwiseAnd => {
            out.text("integer.bitwise_and");
        },
        RealInstruction::IntegerBitwiseOr => {
            out.text("integer.bitwise_or");
        },
        RealInstruction::IntegerBitwiseXor => {
            out.text("integer.bitwise_xor");
        },
        RealInstruction::IntegerBitwiseNot => {
            out.text("integer.bitwise_not");
        },
        RealInstruction::IntegerShiftLeft => {
            out.text("integer.shift_left");
        },
        RealInstruction::IntegerShiftRight => {
            out.text("integer.shift_right");
        },
        RealInstruction::DecimalNew(a) => {
            out.text("decimal.new ");
            write_decimal(out, a);
        },
        RealInstruction::DecimalAdd => {
            out.text("decimal.add");
        },
        RealInstruction::DecimalSubtract => {
            out.text("decimal.subtract");
        },
        RealInstruction::DecimalMultiply => {
            out.text("decimal.multiply");
        },
        RealInstruction::DecimalDivide => {
            out.text("decimal.divide");
        },
        RealInstruction::DecimalModulo => {
            out.text("decimal.modulo");
        },
        RealInstruction::DecimalPower => {
            out.text("decimal.power");
        },
        RealInstruction::DecimalNegate => {
            out.text("decimal.negate");
        },
        RealInstruction::StringNew(a) => {
            out.text("string.new ");
            out.text(a.as_str());
        },
        RealInstruction::StringConcat => {
            out.text("string.concat");
        },
        RealInstruction::StringLength => {
            out.text("string.length");
        },
        RealInstruction::BooleanNew(a) => {
            out.text("boolean.new ");
            out.text(truth_name(*a));
        },
        RealInstruction::BooleanAnd => {
            out.text("boolean.and");
        },
        RealInstruction::BooleanOr => {
            out.text("boolean.or");
        },
        RealInstruction::BooleanNot => {
            out.text("boolean.not");
        },
        RealInstruction::CharacterNew(a) => {
            out.text("character.new ");
            out.character(*a);
        },
        RealInstruction::RequestValue(a) => {
            out.text("request_value ");
            out.text(a.as_str());
        },
        RealInstruction::SetValue(a) => {
            out.text("set_value ");
            out.text(a.as_str());
        },
        RealInstruction::Compare(a) => {
            out.text("compare ");
            out.text(a.name());
        },
        RealInstruction::Goto(a, b) => {
            out.text("goto ");
            write_target(out, a);
            out.text(" ");
            out.text(b.name());
        },
        RealInstruction::Store(a) => {
            out.text("store ");
            out.text(a.as_str());
        },
        RealInstruction::Lookup(a) => {
            out.text("lookup ");
            out.text(a.as_str());
        },
        RealInstruction::GlobalStore(a) => {
            out.text("global_store ");
            out.text(a.as_str());
        },
        RealInstruction::GlobalLookup(a) => {
            out.text("global_lookup ");
            out.text(a.as_str());
        },
        RealInstruction::Write => {
            out.text("write");
        },
        RealInstruction::Read => {
            out.text("read");
        },
        RealInstruction::GetStringRef(a, b) => {
            out.text("get_string_ref ");
            out.string(table_path_to_text(a));
            out.text(" ");
            out.string(to_decimal(*b as u64));
        },
        RealInstruction::Cast(a) => {
            out.text("cast ");
            write_value_type(out, a);
        },
    }
    proof {
        assert(final(out)@ =~= old(out)@ + operation_pieces(operation@));
    }
}

/// Writes the values of a stack from the bottom to the top, each with
/// `, ` and a line break after it.
pub fn write_stack(out: &mut Writer, stack: &Stack)
    ensures
        final(out)@ == old(out)@ + terminated(stack@, stack@.len(), ", \n"@),
{
    write_terminated(out, &stack.data, ", \n");
}

impl Value {
    /// The pieces of the text of the value.
    pub fn to_pieces(&self) -> (r: Vec<Piece>)
        ensures
            pieces_model(r@) == value_pieces(self@),
    {
        let mut out = Writer::new();
        write_value(&mut out, self);
        proof {
            assert(Seq::<PieceModel>::empty() + value_pieces(self@) =~= value_pieces(self@));
        }
        out.pieces
    }
}

impl Instruction {
    /// The pieces of the text of the instruction.
    pub fn to_pieces(&self) -> (r: Vec<Piece>)
        ensures
            pieces_model(r@) == instruction_pieces(self@),
    {
        let mut out = Writer::new();
        write_instruction(&mut out, self);
        proof {
            assert(Seq::<PieceModel>::empty() + instruction_pieces(self@) =~= instruction_pieces(
                self@,
            ));
        }
        out.pieces
    }
}

} // verus!
