//! Laws of the marshalling layer, stated over the mathematical models and
//! proved once for every input.

use vstd::prelude::*;
use vstd::utf8::decode_utf8;
use vstd::utf8::encode_utf8;
use vstd::utf8::valid_utf8;

use crate::convert::NativeValueModel;
use crate::convert::TypeTagModel;
use crate::convert::convert_from_spec;
use crate::convert::into_rt_spec;
use crate::convert::into_zval_spec;
use crate::convert::tag_of;
use crate::interp::EnumValueModel;
use crate::interp::FieldValueModel;
use crate::interp::enum_from_spec;
use crate::interp::fields_from_spec;
use crate::interp::set_rt_spec;
use crate::plan::PropBindingModel;
use crate::plan::VariantBindingModel;
use crate::runtime::StrCellModel;
use crate::runtime::cell_at;
use crate::runtime::release_model;
use crate::runtime::valid_handle;
use crate::value::Zval;
use crate::value::obj_lookup;

verus! {

/// Law: text survives the container.  A string cell constructed from native
/// text — in either lifetime class, zero bytes included — holds well-formed
/// UTF-8 that decodes back to exactly that text, so converting the container
/// back to text yields the text it was built from.
pub proof fn lemma_container_text_round_trip(s: Seq<char>)
    ensures
        valid_utf8(encode_utf8(s)),
        decode_utf8(encode_utf8(s)) == s,
{
    vstd::utf8::encode_utf8_valid_utf8(s);
    vstd::utf8::encode_utf8_decode_utf8(s);
}

/// Law: a release is final.  Giving up the sole reference to a string cell
/// frees it, and a freed handle is no longer live — so the release
/// precondition can never hold for it again, and no double release is
/// possible.  The wrapper side holds by construction: `release` consumes the
/// wrapper, so the wrapper performs no release of its own afterward.
pub proof fn lemma_single_release(rt: Seq<Option<StrCellModel>>, h: usize)
    requires
        valid_handle(rt, h),
        cell_at(rt, h).refcount == 1,
    ensures
        !valid_handle(release_model(rt, h), h),
{
}

/// Law: equal content maps to one shared allocation.  Registering the same
/// bytes in the interning table twice in a row hands back the same handle,
/// and the second registration changes nothing: the first interned cell with
/// those contents serves every later request.
pub proof fn lemma_interning_shares_one_cell(
    rt0: Seq<Option<StrCellModel>>,
    bytes: Seq<u8>,
    h1: usize,
    rt1: Seq<Option<StrCellModel>>,
    h2: usize,
    rt2: Seq<Option<StrCellModel>>,
)
    requires
        crate::runtime::intern_post(rt0, bytes, h1, rt1),
        crate::runtime::intern_post(rt1, bytes, h2, rt2),
    ensures
        h2 == h1,
        rt2 == rt1,
{
    if crate::runtime::has_interned(rt0, bytes) {
        assert(crate::runtime::interned_match(rt0, h1 - 1, bytes));
        assert(crate::runtime::interned_match(rt1, h2 - 1, bytes));
    } else {
        assert(crate::runtime::interned_match(rt1, rt0.len() as int, bytes));
        assert forall|j: int| 0 <= j < rt0.len() implies !crate::runtime::interned_match(
            rt1,
            j,
            bytes,
        ) by {
            assert(rt1[j] == rt0[j]);
            if crate::runtime::interned_match(rt1, j, bytes) {
                assert(crate::runtime::interned_match(rt0, j, bytes));
            }
        }
        assert(crate::runtime::interned_match(rt1, h2 - 1, bytes));
    }
}

/// True when `rt2` is `rt1` with cells appended: every live handle of `rt1`
/// addresses the same cell in `rt2`.
pub open spec fn rt_extends(
    rt2: Seq<Option<StrCellModel>>,
    rt1: Seq<Option<StrCellModel>>,
) -> bool {
    rt1.len() <= rt2.len() && forall|i: int| 0 <= i < rt1.len() ==> rt2[i] == rt1[i]
}

/// Writing a sequence of native values only appends string cells, at most one
/// per value.
pub proof fn lemma_set_rt_extends(
    rt: Seq<Option<StrCellModel>>,
    values: Seq<NativeValueModel>,
    persistent: bool,
)
    ensures
        rt_extends(set_rt_spec(rt, values, persistent), rt),
        set_rt_spec(rt, values, persistent).len() <= rt.len() + values.len(),
    decreases values.len(),
{
    if values.len() > 0 {
        lemma_set_rt_extends(rt, values.drop_last(), persistent);
    }
}

/// The heap after writing a prefix of the values is a prefix of the heap
/// after writing them all.
pub proof fn lemma_set_rt_prefix_extends(
    rt: Seq<Option<StrCellModel>>,
    values: Seq<NativeValueModel>,
    persistent: bool,
    m: int,
)
    requires
        0 <= m <= values.len(),
    ensures
        rt_extends(
            set_rt_spec(rt, values, persistent),
            set_rt_spec(rt, values.take(m), persistent),
        ),
    decreases values.len() - m,
{
    if m < values.len() {
        assert(values.take(m + 1).drop_last() =~= values.take(m));
        lemma_set_rt_prefix_extends(rt, values, persistent, m + 1);
    } else {
        assert(values.take(m) =~= values);
    }
}

/// A read conversion is stable under heap extension: appending string cells
/// changes no conversion of a value whose handle is already live.
pub proof fn lemma_convert_from_extend(
    t: TypeTagModel,
    rt1: Seq<Option<StrCellModel>>,
    rt2: Seq<Option<StrCellModel>>,
    zv: Zval,
)
    requires
        rt_extends(rt2, rt1),
        match zv {
            Zval::Str(h) => valid_handle(rt1, h),
            _ => true,
        },
    ensures
        convert_from_spec(t, rt2, zv) == convert_from_spec(t, rt1, zv),
{
    match zv {
        Zval::Str(h) => {
            assert(rt2[h - 1] == rt1[h - 1]);
        },
        _ => {},
    }
}

/// Law: every native value survives one write and read.  Writing a value
/// into a boxed value, in either lifetime class, and converting that boxed
/// value back as the value's own type yields the value again.
pub proof fn lemma_value_round_trip(
    rt: Seq<Option<StrCellModel>>,
    v: NativeValueModel,
    persistent: bool,
)
    requires
        rt.len() < usize::MAX,
    ensures
        convert_from_spec(tag_of(v), into_rt_spec(rt, v, persistent), into_zval_spec(rt, v))
            == Some(v),
{
    match v {
        NativeValueModel::Text(s) => {
            lemma_container_text_round_trip(s);
            let h = (rt.len() + 1) as usize;
            let rt2 = into_rt_spec(rt, v, persistent);
            assert(valid_handle(rt2, h));
            assert(cell_at(rt2, h).bytes == encode_utf8(s));
        },
        _ => {},
    }
}

/// The property bag returns the binding at `k` when no earlier binding has
/// the same key.
pub proof fn lemma_obj_lookup_at(props: Seq<(String, Zval)>, key: Seq<char>, k: int)
    requires
        0 <= k < props.len(),
        props[k].0@ == key,
        forall|k2: int| 0 <= k2 < k ==> (#[trigger] props[k2]).0@ != key,
    ensures
        obj_lookup(props, key) == Some(props[k].1),
    decreases k,
{
    if k > 0 {
        assert(props[0].0@ != key);
        assert(forall|k2: int|
            0 <= k2 < k - 1 ==> (#[trigger] props.skip(1)[k2]) == props[k2 + 1]);
        assert(props.skip(1)[k - 1] == props[k]);
        lemma_obj_lookup_at(props.skip(1), key, k - 1);
    }
}

proof fn lemma_struct_round_trip_prefix(
    writes: Seq<PropBindingModel>,
    values: Seq<NativeValueModel>,
    rt0: Seq<Option<StrCellModel>>,
    persistent: bool,
    props: Seq<(String, Zval)>,
    m: int,
)
    requires
        values.len() == writes.len(),
        0 <= m <= writes.len(),
        forall|j: int| 0 <= j < writes.len() ==> tag_of(#[trigger] values[j]) == writes[j].ty,
        forall|j1: int, j2: int|
            0 <= j1 < j2 < writes.len() ==> (#[trigger] writes[j1]).key != (
            #[trigger] writes[j2]).key,
        rt0.len() + values.len() <= usize::MAX,
        props.len() == writes.len(),
        forall|k: int|
            0 <= k < props.len() ==> {
                let j = writes.len() - 1 - k;
                (#[trigger] props[k]).0@ == writes[j].key && props[k].1 == into_zval_spec(
                    set_rt_spec(rt0, values.take(j), persistent),
                    values[j],
                )
            },
    ensures
        fields_from_spec(writes.take(m), set_rt_spec(rt0, values, persistent), props) == Some(
            Seq::new(m as nat, |j: int| FieldValueModel { name: writes[j].field, value: values[j] }),
        ),
    decreases m,
{
    let rt_all = set_rt_spec(rt0, values, persistent);
    if m == 0 {
        assert(writes.take(0) =~= Seq::<PropBindingModel>::empty());
        assert(Seq::new(0, |j: int| FieldValueModel { name: writes[j].field, value: values[j] })
            =~= Seq::<FieldValueModel>::empty());
    } else {
        lemma_struct_round_trip_prefix(writes, values, rt0, persistent, props, m - 1);
        let j = m - 1;
        let k = writes.len() - 1 - j;
        assert(writes.take(m).drop_last() =~= writes.take(j));
        assert(writes.take(m).last() == writes[j]);
        // The key of the write at position j sits at position k of the bag,
        // and no earlier bag entry shares it.
        assert forall|k2: int| 0 <= k2 < k implies (#[trigger] props[k2]).0@ != writes[j].key by {
            let j2 = writes.len() - 1 - k2;
            assert(props[k2].0@ == writes[j2].key);
            assert(j < j2 < writes.len());
        }
        lemma_obj_lookup_at(props, writes[j].key, k);
        // The value written at position j converts back to itself against the
        // heap as it stood then, and heap extension preserves that.
        let rt_pre = set_rt_spec(rt0, values.take(j), persistent);
        lemma_set_rt_extends(rt0, values.take(j), persistent);
        assert(rt_pre.len() < usize::MAX);
        lemma_value_round_trip(rt_pre, values[j], persistent);
        assert(values.take(j + 1).drop_last() =~= values.take(j));
        assert(values.take(j + 1).last() == values[j]);
        let rt_mid = set_rt_spec(rt0, values.take(j + 1), persistent);
        assert(rt_mid == into_rt_spec(rt_pre, values[j], persistent));
        lemma_set_rt_prefix_extends(rt0, values, persistent, j + 1);
        let zv = into_zval_spec(rt_pre, values[j]);
        assert(match zv {
            Zval::Str(h) => valid_handle(rt_mid, h),
            _ => true,
        });
        lemma_convert_from_extend(writes[j].ty, rt_mid, rt_all, zv);
        assert(convert_from_spec(writes[j].ty, rt_all, zv) == Some(values[j]));
        assert(Seq::new(
            m as nat,
            |j2: int| FieldValueModel { name: writes[j2].field, value: values[j2] },
        ) =~= Seq::new(
            (m - 1) as nat,
            |j2: int| FieldValueModel { name: writes[j2].field, value: values[j2] },
        ).push(FieldValueModel { name: writes[j].field, value: values[j] }));
    }
}

/// Law: a struct written into a boxed value is read back intact.  Take a
/// struct plan (the two derive directions share it), field values matching
/// the plan's tags, and pairwise distinct keys.  Write the fields in plan
/// order: the property bag then holds one binding per field, newest in front,
/// each converted against the heap as it stood at its own write — exactly
/// what `struct_set_zval` leaves behind.  Reading the same plan back from
/// that bag, against the final heap, succeeds and yields every field's value
/// again: nothing is lost, reordered, or half-read.
pub proof fn lemma_struct_round_trip(
    writes: Seq<PropBindingModel>,
    values: Seq<NativeValueModel>,
    rt0: Seq<Option<StrCellModel>>,
    persistent: bool,
    props: Seq<(String, Zval)>,
)
    requires
        values.len() == writes.len(),
        forall|j: int| 0 <= j < writes.len() ==> tag_of(#[trigger] values[j]) == writes[j].ty,
        forall|j1: int, j2: int|
            0 <= j1 < j2 < writes.len() ==> (#[trigger] writes[j1]).key != (
            #[trigger] writes[j2]).key,
        rt0.len() + values.len() <= usize::MAX,
        props.len() == writes.len(),
        forall|k: int|
            0 <= k < props.len() ==> {
                let j = writes.len() - 1 - k;
                (#[trigger] props[k]).0@ == writes[j].key && props[k].1 == into_zval_spec(
                    set_rt_spec(rt0, values.take(j), persistent),
                    values[j],
                )
            },
    ensures
        fields_from_spec(writes, set_rt_spec(rt0, values, persistent), props) == Some(
            Seq::new(
                writes.len(),
                |j: int| FieldValueModel { name: writes[j].field, value: values[j] },
            ),
        ),
{
    lemma_struct_round_trip_prefix(writes, values, rt0, persistent, props, writes.len() as int);
    assert(writes.take(writes.len() as int) =~= writes);
}

/// Law: declaration order decides.  When the variant binding at position `i`
/// converts the boxed value and no earlier binding does, the enum read
/// resolves to that variant — an ambiguous value goes to the earliest
/// declaration that accepts it.
pub proof fn lemma_enum_order_precedence(
    trials: Seq<VariantBindingModel>,
    fallback: Option<Seq<char>>,
    rt: Seq<Option<StrCellModel>>,
    zv: Zval,
    i: int,
)
    requires
        0 <= i < trials.len(),
        convert_from_spec(trials[i].ty, rt, zv) is Some,
        forall|j: int| 0 <= j < i ==> convert_from_spec((#[trigger] trials[j]).ty, rt, zv) is None,
    ensures
        enum_from_spec(trials, fallback, rt, zv) == Some(
            EnumValueModel {
                variant: trials[i].variant,
                payload: Some(convert_from_spec(trials[i].ty, rt, zv)->Some_0),
            },
        ),
    decreases i,
{
    if i > 0 {
        assert(convert_from_spec(trials[0].ty, rt, zv) is None);
        assert(forall|j: int|
            0 <= j < i - 1 ==> (#[trigger] trials.skip(1)[j]) == trials[j + 1]);
        assert(trials.skip(1)[i - 1] == trials[i]);
        lemma_enum_order_precedence(trials.skip(1), fallback, rt, zv, i - 1);
    }
}

/// Law: the unit fallback answers exactly when no variant matches.  When no
/// variant binding converts the boxed value, the enum read returns the unit
/// fallback if one was declared, and nothing otherwise.
pub proof fn lemma_enum_fallback(
    trials: Seq<VariantBindingModel>,
    fallback: Option<Seq<char>>,
    rt: Seq<Option<StrCellModel>>,
    zv: Zval,
)
    requires
        forall|j: int|
            0 <= j < trials.len() ==> convert_from_spec(
                (#[trigger] trials[j]).ty,
                rt,
                zv,
            ) is None,
    ensures
        enum_from_spec(trials, fallback, rt, zv) == (match fallback {
            Some(n) => Some(EnumValueModel { variant: n, payload: None }),
            None => None::<EnumValueModel>,
        }),
    decreases trials.len(),
{
    if trials.len() > 0 {
        assert(forall|j: int|
            0 <= j < trials.len() - 1 ==> (#[trigger] trials.skip(1)[j]) == trials[j + 1]);
        lemma_enum_fallback(trials.skip(1), fallback, rt, zv);
    }
}

} // verus!
