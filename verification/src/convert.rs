//! Conversions between native values and boxed values.
//!
//! A native type's capability to be read from, or written into, a boxed value
//! is realised here over a per-type conversion plan: each plan entry carries a
//! type tag, and the tag selects the conversion.  A tag with no registered
//! conversion never matches, which is the ordinary "wrong shape" outcome.
//!
//! The read direction signals a mismatch by returning nothing; the write
//! direction returns a typed error, writes into a caller-provided cell, and
//! propagates the requested allocation lifetime class to every string the
//! conversion allocates.

use vstd::prelude::*;
use vstd::utf8::decode_utf8;
use vstd::utf8::encode_utf8;
use vstd::utf8::valid_utf8;

use crate::Error;
use crate::runtime::Runtime;
use crate::runtime::StrCellModel;
use crate::runtime::cell_at;
use crate::runtime::valid_handle;
use crate::value::DataType;
use crate::value::Zval;
use crate::zend_string::ZendString;

verus! {

/// The type tag of one plan entry: which native type a field or variant
/// payload has.  An `Opaque` tag names a type — a generic parameter, say —
/// for which no conversion is registered here.
#[derive(Debug, PartialEq)]
pub enum TypeTag {
    Long,
    Bool,
    Text,
    Opaque(String),
}

/// Mathematical model of a type tag.
pub enum TypeTagModel {
    Long,
    Bool,
    Text,
    Opaque(Seq<char>),
}

impl DeepView for TypeTag {
    type V = TypeTagModel;

    open spec fn deep_view(&self) -> TypeTagModel {
        match self {
            TypeTag::Long => TypeTagModel::Long,
            TypeTag::Bool => TypeTagModel::Bool,
            TypeTag::Text => TypeTagModel::Text,
            TypeTag::Opaque(name) => TypeTagModel::Opaque(name@),
        }
    }
}

impl TypeTag {
    /// A structural copy of the tag.
    pub fn dup(&self) -> (r: TypeTag)
        ensures
            r.deep_view() == self.deep_view(),
    {
        match self {
            TypeTag::Long => TypeTag::Long,
            TypeTag::Bool => TypeTag::Bool,
            TypeTag::Text => TypeTag::Text,
            TypeTag::Opaque(name) => TypeTag::Opaque(name.clone()),
        }
    }
}

/// A native value of one of the types this layer can marshal.
#[derive(Debug, PartialEq)]
pub enum NativeValue {
    Long(i64),
    Bool(bool),
    Text(String),
}

/// Mathematical model of a native value.
pub enum NativeValueModel {
    Long(i64),
    Bool(bool),
    Text(Seq<char>),
}

impl DeepView for NativeValue {
    type V = NativeValueModel;

    open spec fn deep_view(&self) -> NativeValueModel {
        match self {
            NativeValue::Long(i) => NativeValueModel::Long(*i),
            NativeValue::Bool(b) => NativeValueModel::Bool(*b),
            NativeValue::Text(s) => NativeValueModel::Text(s@),
        }
    }
}

/// The tag describing a native value's own type.
pub open spec fn tag_of(v: NativeValueModel) -> TypeTagModel {
    match v {
        NativeValueModel::Long(_) => TypeTagModel::Long,
        NativeValueModel::Bool(_) => TypeTagModel::Bool,
        NativeValueModel::Text(_) => TypeTagModel::Text,
    }
}

/// The discriminant a read conversion for this tag expects to find.
pub open spec fn accepted_type_spec(t: TypeTagModel) -> DataType {
    match t {
        TypeTagModel::Long => DataType::Long,
        TypeTagModel::Bool => DataType::Bool,
        TypeTagModel::Text => DataType::Str,
        TypeTagModel::Opaque(_) => DataType::Mixed,
    }
}

/// The discriminant a write conversion for this tag produces.
pub open spec fn produced_type_spec(t: TypeTagModel) -> DataType {
    accepted_type_spec(t)
}

/// The discriminant a read conversion for `tag` expects; introspective only,
/// the conversions themselves check the payload.
pub fn accepted_type(tag: &TypeTag) -> (r: DataType)
    ensures
        r == accepted_type_spec(tag.deep_view()),
{
    match tag {
        TypeTag::Long => DataType::Long,
        TypeTag::Bool => DataType::Bool,
        TypeTag::Text => DataType::Str,
        TypeTag::Opaque(_) => DataType::Mixed,
    }
}

/// The discriminant a write conversion for `tag` produces.
pub fn produced_type(tag: &TypeTag) -> (r: DataType)
    ensures
        r == produced_type_spec(tag.deep_view()),
{
    accepted_type(tag)
}

/// True when every byte is an ASCII decimal digit.
pub open spec fn all_ascii_digits(bs: Seq<u8>) -> bool {
    forall|i: int| 0 <= i < bs.len() ==> 48 <= #[trigger] bs[i] <= 57
}

/// The numeric value of a sequence of ASCII decimal digits.
pub open spec fn digits_value(bs: Seq<u8>) -> int
    decreases bs.len(),
{
    if bs.len() == 0 {
        0
    } else {
        digits_value(bs.drop_last()) * 10 + (bs.last() - 48)
    }
}

/// The lenient numeric-string rule: a non-empty, all-digit byte string whose
/// value fits the integer payload reads as that integer; anything else does
/// not.
pub open spec fn lenient_long_of(bs: Seq<u8>) -> Option<i64> {
    if bs.len() > 0 && all_ascii_digits(bs) && digits_value(bs) <= i64::MAX {
        Some(digits_value(bs) as i64)
    } else {
        None
    }
}

proof fn lemma_digits_value_nonneg(bs: Seq<u8>)
    requires
        all_ascii_digits(bs),
    ensures
        digits_value(bs) >= 0,
    decreases bs.len(),
{
    if bs.len() > 0 {
        assert(all_ascii_digits(bs.drop_last()));
        lemma_digits_value_nonneg(bs.drop_last());
    }
}

proof fn lemma_digits_value_monotone(bs: Seq<u8>, i: int)
    requires
        0 <= i <= bs.len(),
        all_ascii_digits(bs),
    ensures
        digits_value(bs.take(i)) <= digits_value(bs),
    decreases bs.len() - i,
{
    if i < bs.len() {
        assert(bs.take(i + 1).drop_last() =~= bs.take(i));
        assert(all_ascii_digits(bs.take(i)));
        lemma_digits_value_nonneg(bs.take(i));
        assert(digits_value(bs.take(i)) <= digits_value(bs.take(i + 1)));
        lemma_digits_value_monotone(bs, i + 1);
        assert(bs.take(bs.len() as int) =~= bs);
    } else {
        assert(bs.take(i) =~= bs);
    }
}

/// Reads a non-empty all-digit byte string as an integer, under the lenient
/// numeric-string rule.
fn parse_long_bytes(bytes: &Vec<u8>) -> (r: Option<i64>)
    ensures
        r == lenient_long_of(bytes@),
{
    if bytes.len() == 0 {
        return None;
    }
    let ghost whole = bytes@;
    let mut acc: i64 = 0;
    let mut i: usize = 0;
    proof {
        assert(whole.take(0) =~= Seq::<u8>::empty());
    }
    while i < bytes.len()
        invariant
            i <= bytes@.len(),
            bytes@ == whole,
            all_ascii_digits(whole.take(i as int)),
            acc == digits_value(whole.take(i as int)),
            acc >= 0,
        decreases bytes@.len() - i,
    {
        let b = bytes[i];
        proof {
            assert(whole.take(i + 1).drop_last() =~= whole.take(i as int));
            assert(whole.take(i + 1).last() == whole[i as int]);
        }
        if b < 48 || b > 57 {
            proof {
                assert(!all_ascii_digits(whole));
            }
            return None;
        }
        proof {
            assert(all_ascii_digits(whole.take(i + 1)));
        }
        let d = (b - 48) as i64;
        let stepped = match acc.checked_mul(10) {
            Some(m) => m.checked_add(d),
            None => None,
        };
        match stepped {
            Some(next) => {
                acc = next;
            },
            None => {
                proof {
                    assert(digits_value(whole.take(i + 1)) > i64::MAX);
                    if all_ascii_digits(whole) {
                        lemma_digits_value_monotone(whole, i + 1);
                    }
                }
                return None;
            },
        }
        i = i + 1;
    }
    proof {
        assert(whole.take(whole.len() as int) =~= whole);
    }
    Some(acc)
}

/// What an integer read finds in a boxed value: an integer payload, or — the
/// lenient numeric-string rule — a string payload whose bytes are all digits
/// and fit the integer payload.
pub open spec fn from_long_spec(rt: Seq<Option<StrCellModel>>, zv: Zval) -> Option<i64> {
    match zv {
        Zval::Long(i) => Some(i),
        Zval::Str(h) => if valid_handle(rt, h) {
            lenient_long_of(cell_at(rt, h).bytes)
        } else {
            None
        },
        _ => None,
    }
}

/// What a boolean read finds in a boxed value.
pub open spec fn from_bool_spec(zv: Zval) -> Option<bool> {
    match zv {
        Zval::Bool(b) => Some(b),
        _ => None,
    }
}

/// What a text read finds in a boxed value: a string payload with a live
/// handle whose bytes are well-formed UTF-8.
pub open spec fn from_text_spec(rt: Seq<Option<StrCellModel>>, zv: Zval) -> Option<Seq<char>> {
    match zv {
        Zval::Str(h) => if valid_handle(rt, h) && valid_utf8(cell_at(rt, h).bytes) {
            Some(decode_utf8(cell_at(rt, h).bytes))
        } else {
            None
        },
        _ => None,
    }
}

/// The read conversion selected by a type tag.  A tag with no registered
/// conversion never matches.
pub open spec fn convert_from_spec(
    t: TypeTagModel,
    rt: Seq<Option<StrCellModel>>,
    zv: Zval,
) -> Option<NativeValueModel> {
    match t {
        TypeTagModel::Long => match from_long_spec(rt, zv) {
            Some(i) => Some(NativeValueModel::Long(i)),
            None => None,
        },
        TypeTagModel::Bool => match from_bool_spec(zv) {
            Some(b) => Some(NativeValueModel::Bool(b)),
            None => None,
        },
        TypeTagModel::Text => match from_text_spec(rt, zv) {
            Some(s) => Some(NativeValueModel::Text(s)),
            None => None,
        },
        TypeTagModel::Opaque(_) => None,
    }
}

/// Reads a native value of the type named by `tag` out of the boxed value
/// `zv`, checking the discriminant before interpreting the payload.  Returns
/// nothing on a type mismatch or malformed payload; the boxed value is never
/// mutated.
pub fn convert_from(tag: &TypeTag, rt: &Runtime, zv: &Zval) -> (r: Option<NativeValue>)
    ensures
        r.deep_view() == convert_from_spec(tag.deep_view(), rt@, *zv),
{
    match tag {
        TypeTag::Long => match zv.long() {
            Some(i) => Some(NativeValue::Long(i)),
            None => match zv.str_handle() {
                Some(h) => match rt.string_bytes(h) {
                    Some(bytes) => match parse_long_bytes(&bytes) {
                        Some(i) => Some(NativeValue::Long(i)),
                        None => None,
                    },
                    None => None,
                },
                None => None,
            },
        },
        TypeTag::Bool => match zv.boolean() {
            Some(b) => Some(NativeValue::Bool(b)),
            None => None,
        },
        TypeTag::Text => match zv.str_handle() {
            Some(h) => match rt.string_bytes(h) {
                Some(bytes) => match crate::zend_string::bytes_into_string(bytes) {
                    Some(s) => Some(NativeValue::Text(s)),
                    None => None,
                },
                None => None,
            },
            None => None,
        },
        TypeTag::Opaque(_) => None,
    }
}

/// The string heap after writing a native value: a text write allocates one
/// string cell in the requested lifetime class, other writes leave the heap
/// unchanged.
pub open spec fn into_rt_spec(
    rt: Seq<Option<StrCellModel>>,
    v: NativeValueModel,
    persistent: bool,
) -> Seq<Option<StrCellModel>> {
    match v {
        NativeValueModel::Text(s) => rt.push(
            Some(
                StrCellModel {
                    bytes: encode_utf8(s),
                    refcount: 1,
                    persistent: persistent,
                    interned: false,
                },
            ),
        ),
        _ => rt,
    }
}

/// The boxed value a native value writes, given the heap it is written
/// against: a text write stores the handle of the cell it allocates.
pub open spec fn into_zval_spec(rt: Seq<Option<StrCellModel>>, v: NativeValueModel) -> Zval {
    match v {
        NativeValueModel::Long(i) => Zval::Long(i),
        NativeValueModel::Bool(b) => Zval::Bool(b),
        NativeValueModel::Text(_) => Zval::Str((rt.len() + 1) as usize),
    }
}

/// Writes a native value into the caller-provided boxed-value slot `zv`,
/// consuming the value.  `persistent` propagates to the string allocation a
/// text write performs, so the produced value's lifetime matches the
/// requesting context.  The write direction cannot fail for these types, and
/// the contract says so: the result is always `Ok`.
pub fn convert_into(v: NativeValue, rt: &mut Runtime, zv: &mut Zval, persistent: bool) -> (r:
    Result<(), Error>)
    requires
        old(rt)@.len() < usize::MAX,
    ensures
        r is Ok,
        final(rt)@ =~= into_rt_spec(old(rt)@, v.deep_view(), persistent),
        *final(zv) == into_zval_spec(old(rt)@, v.deep_view()),
{
    match v {
        NativeValue::Long(i) => {
            zv.set_long(i);
        },
        NativeValue::Bool(b) => {
            zv.set_bool(b);
        },
        NativeValue::Text(s) => {
            let zs = ZendString::new(rt, s.as_str(), persistent);
            let h = zs.release();
            zv.set_str(h);
        },
    }
    Ok(())
}

} // verus!
