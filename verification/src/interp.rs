//! Runs a conversion plan against boxed values: the runtime realisation of a
//! generated implementation.
//!
//! Reading a struct requires the object discriminant, looks every bound key
//! up and converts each property; one missing property or failed conversion
//! fails the whole read.  Reading an enum tries the variant bindings in
//! declaration order against the same boxed value — first success wins — and
//! falls back to the unit variant when none match.  Writing a struct builds a
//! fresh object, converting and setting one property per binding, then stores
//! the object in the caller's slot; writing an enum delegates to the active
//! variant's payload conversion, and a unit variant writes null.

use vstd::prelude::*;

use crate::Error;
use crate::convert::NativeValue;
use crate::convert::NativeValueModel;
use crate::convert::convert_from;
use crate::convert::convert_from_spec;
use crate::convert::convert_into;
use crate::convert::into_rt_spec;
use crate::convert::into_zval_spec;
use crate::plan::PropBinding;
use crate::plan::PropBindingModel;
use crate::plan::VariantBinding;
use crate::plan::VariantBindingModel;
use crate::runtime::Runtime;
use crate::runtime::StrCellModel;
use crate::value::ZendObject;
use crate::value::Zval;
use crate::value::obj_lookup;

verus! {

/// One converted struct field: the native field name and its value.
#[derive(Debug, PartialEq)]
pub struct FieldValue {
    pub name: String,
    pub value: NativeValue,
}

/// Mathematical model of a converted field.
pub struct FieldValueModel {
    pub name: Seq<char>,
    pub value: NativeValueModel,
}

impl DeepView for FieldValue {
    type V = FieldValueModel;

    open spec fn deep_view(&self) -> FieldValueModel {
        FieldValueModel { name: self.name@, value: self.value.deep_view() }
    }
}

/// One converted enum value: the variant name, and its payload for a
/// single-field variant (a unit variant has none).
#[derive(Debug, PartialEq)]
pub struct EnumValue {
    pub variant: String,
    pub payload: Option<NativeValue>,
}

/// Mathematical model of a converted enum value.
pub struct EnumValueModel {
    pub variant: Seq<char>,
    pub payload: Option<NativeValueModel>,
}

impl DeepView for EnumValue {
    type V = EnumValueModel;

    open spec fn deep_view(&self) -> EnumValueModel {
        EnumValueModel { variant: self.variant@, payload: self.payload.deep_view() }
    }
}

/// What reading the bound fields out of an object's property bag yields:
/// every field's key looked up and its value converted, in plan order, with
/// nothing yielded as soon as one step fails.
pub open spec fn fields_from_spec(
    reads: Seq<PropBindingModel>,
    rt: Seq<Option<StrCellModel>>,
    props: Seq<(String, Zval)>,
) -> Option<Seq<FieldValueModel>>
    decreases reads.len(),
{
    if reads.len() == 0 {
        Some(Seq::empty())
    } else {
        match fields_from_spec(reads.drop_last(), rt, props) {
            None => None,
            Some(vals) => match obj_lookup(props, reads.last().key) {
                None => None,
                Some(pv) => match convert_from_spec(reads.last().ty, rt, pv) {
                    None => None,
                    Some(nv) => Some(
                        vals.push(FieldValueModel { name: reads.last().field, value: nv }),
                    ),
                },
            },
        }
    }
}

/// What reading a struct out of a boxed value yields: nothing unless the
/// discriminant is object, else the fields read out of the object's bag.
pub open spec fn struct_from_spec(
    reads: Seq<PropBindingModel>,
    rt: Seq<Option<StrCellModel>>,
    zv: Zval,
) -> Option<Seq<FieldValueModel>> {
    match zv {
        Zval::Object(o) => fields_from_spec(reads, rt, o.props@),
        _ => None,
    }
}

/// A field scan that fails on a prefix of the plan fails for the whole plan.
proof fn lemma_fields_from_none_prefix(
    reads: Seq<PropBindingModel>,
    rt: Seq<Option<StrCellModel>>,
    props: Seq<(String, Zval)>,
    i: int,
)
    requires
        0 <= i <= reads.len(),
        fields_from_spec(reads.take(i), rt, props) is None,
    ensures
        fields_from_spec(reads, rt, props) is None,
    decreases reads.len() - i,
{
    if i < reads.len() {
        assert(reads.take(i + 1).drop_last() =~= reads.take(i));
        lemma_fields_from_none_prefix(reads, rt, props, i + 1);
    } else {
        assert(reads.take(i) =~= reads);
    }
}

/// Reads a struct's fields out of the boxed value `zv` by the plan `reads`:
/// the discriminant must be object, and every bound key must be present and
/// convert.  Returns nothing — never a partially built struct — when any step
/// fails.
pub fn struct_from_zval(reads: &Vec<PropBinding>, rt: &Runtime, zv: &Zval) -> (r: Option<
    Vec<FieldValue>,
>)
    ensures
        r.deep_view() == struct_from_spec(reads.deep_view(), rt@, *zv),
{
    let ghost rm = reads.deep_view();
    let obj = match zv.object() {
        Some(o) => o,
        None => {
            return None;
        },
    };
    let mut vals: Vec<FieldValue> = Vec::new();
    let mut i: usize = 0;
    proof {
        assert(rm.take(0) =~= Seq::<PropBindingModel>::empty());
        assert(vals.deep_view() =~= Seq::<FieldValueModel>::empty());
    }
    while i < reads.len()
        invariant
            i <= reads@.len(),
            rm == reads.deep_view(),
            rm.len() == reads@.len(),
            *zv is Object,
            obj == &zv->Object_0,
            fields_from_spec(rm.take(i as int), rt@, obj.props@) == Some(vals.deep_view()),
        decreases reads@.len() - i,
    {
        proof {
            assert(rm.take(i + 1).drop_last() =~= rm.take(i as int));
            assert(rm.take(i + 1).last() == rm[i as int]);
        }
        let read = &reads[i];
        match obj.get_property(&read.key) {
            None => {
                proof {
                    lemma_fields_from_none_prefix(rm, rt@, obj.props@, i + 1);
                }
                return None;
            },
            Some(pv) => {
                match convert_from(&read.ty, rt, pv) {
                    None => {
                        proof {
                            lemma_fields_from_none_prefix(rm, rt@, obj.props@, i + 1);
                        }
                        return None;
                    },
                    Some(nv) => {
                        vals.push(FieldValue { name: read.field.clone(), value: nv });
                        proof {
                            assert(vals.deep_view() =~= fields_from_spec(
                                rm.take(i + 1),
                                rt@,
                                obj.props@,
                            )->Some_0);
                        }
                    },
                }
            },
        }
        i = i + 1;
    }
    proof {
        assert(rm.take(reads@.len() as int) =~= rm);
    }
    Some(vals)
}

/// What reading an enum out of a boxed value yields: the first variant
/// binding, in declaration order, whose conversion succeeds against the same
/// boxed value; the unit fallback when none does; nothing without a fallback.
pub open spec fn enum_from_spec(
    trials: Seq<VariantBindingModel>,
    fallback: Option<Seq<char>>,
    rt: Seq<Option<StrCellModel>>,
    zv: Zval,
) -> Option<EnumValueModel>
    decreases trials.len(),
{
    if trials.len() == 0 {
        match fallback {
            Some(n) => Some(EnumValueModel { variant: n, payload: None }),
            None => None,
        }
    } else {
        match convert_from_spec(trials[0].ty, rt, zv) {
            Some(nv) => Some(
                EnumValueModel { variant: trials[0].variant, payload: Some(nv) },
            ),
            None => enum_from_spec(trials.skip(1), fallback, rt, zv),
        }
    }
}

/// Reads an enum out of the boxed value `zv` by trying the variant bindings
/// in declaration order: the earliest match wins, an ambiguous value resolves
/// to the earlier declaration, and the unit fallback answers when no variant
/// matches.
pub fn enum_from_zval(
    trials: &Vec<VariantBinding>,
    fallback: &Option<String>,
    rt: &Runtime,
    zv: &Zval,
) -> (r: Option<EnumValue>)
    ensures
        r.deep_view() == enum_from_spec(trials.deep_view(), fallback.deep_view(), rt@, *zv),
{
    let ghost tm = trials.deep_view();
    let mut i: usize = 0;
    proof {
        assert(tm.skip(0) =~= tm);
    }
    while i < trials.len()
        invariant
            i <= trials@.len(),
            tm == trials.deep_view(),
            tm.len() == trials@.len(),
            enum_from_spec(tm.skip(i as int), fallback.deep_view(), rt@, *zv) == enum_from_spec(
                tm,
                fallback.deep_view(),
                rt@,
                *zv,
            ),
        decreases trials@.len() - i,
    {
        proof {
            assert(tm.skip(i as int)[0] == tm[i as int]);
            assert(tm.skip(i as int).skip(1) =~= tm.skip(i + 1));
        }
        let trial = &trials[i];
        match convert_from(&trial.ty, rt, zv) {
            Some(nv) => {
                return Some(EnumValue { variant: trial.variant.clone(), payload: Some(nv) });
            },
            None => {},
        }
        i = i + 1;
    }
    match fallback {
        Some(n) => Some(EnumValue { variant: n.clone(), payload: None }),
        None => None,
    }
}

/// The string heap after writing a sequence of native values in order.
pub open spec fn set_rt_spec(
    rt: Seq<Option<StrCellModel>>,
    values: Seq<NativeValueModel>,
    persistent: bool,
) -> Seq<Option<StrCellModel>>
    decreases values.len(),
{
    if values.len() == 0 {
        rt
    } else {
        into_rt_spec(set_rt_spec(rt, values.drop_last(), persistent), values.last(), persistent)
    }
}

/// Writes a struct into the boxed-value slot `zv` by the plan `writes`: a
/// fresh generic object gets one property per binding, each field value
/// converted with the requested lifetime class, and the completed object is
/// stored in the slot.  `values` holds the field values in plan order.
pub fn struct_set_zval(
    writes: &Vec<PropBinding>,
    values: Vec<NativeValue>,
    rt: &mut Runtime,
    zv: &mut Zval,
    persistent: bool,
) -> (r: Result<(), Error>)
    requires
        writes@.len() == values@.len(),
        old(rt)@.len() + values@.len() <= usize::MAX,
    ensures
        r is Ok,
        final(rt)@ == set_rt_spec(old(rt)@, values.deep_view(), persistent),
        *final(zv) is Object,
        final(zv)->Object_0.props@.len() == writes@.len(),
        forall|k: int|
            0 <= k < writes@.len() ==> {
                let j = writes@.len() - 1 - k;
                (#[trigger] final(zv)->Object_0.props@[k]).0@ == writes.deep_view()[j].key
                    && final(zv)->Object_0.props@[k].1 == into_zval_spec(
                    set_rt_spec(old(rt)@, values.deep_view().take(j), persistent),
                    values.deep_view()[j],
                )
            },
{
    let ghost rt0 = old(rt)@;
    let ghost wm = writes.deep_view();
    let ghost vm = values.deep_view();
    let mut remaining = values;
    let mut obj = ZendObject::new_stdclass();
    let mut i: usize = 0;
    proof {
        assert(vm.take(0) =~= Seq::<NativeValueModel>::empty());
        assert(remaining.deep_view() =~= vm.skip(0));
    }
    while i < writes.len()
        invariant
            i <= writes@.len(),
            wm == writes.deep_view(),
            wm.len() == writes@.len(),
            vm.len() == writes@.len(),
            remaining.deep_view() == vm.skip(i as int),
            remaining@.len() == vm.len() - i,
            rt@ == set_rt_spec(rt0, vm.take(i as int), persistent),
            rt@.len() <= rt0.len() + i,
            rt0.len() + vm.len() <= usize::MAX,
            obj.props@.len() == i,
            forall|k: int|
                0 <= k < i ==> {
                    let j = i - 1 - k;
                    (#[trigger] obj.props@[k]).0@ == wm[j].key && obj.props@[k].1 == into_zval_spec(
                        set_rt_spec(rt0, vm.take(j), persistent),
                        vm[j],
                    )
                },
        decreases writes@.len() - i,
    {
        proof {
            assert(vm.take(i + 1).drop_last() =~= vm.take(i as int));
            assert(vm.take(i + 1).last() == vm[i as int]);
            assert(vm.skip(i as int)[0] == vm[i as int]);
        }
        let ghost rem_pre = remaining@;
        let v = remaining.remove(0);
        proof {
            assert(remaining@ =~= rem_pre.skip(1));
            assert(v == rem_pre[0]);
            assert(v.deep_view() == vm.skip(i as int)[0]);
            assert forall|k: int| 0 <= k < remaining@.len() implies #[trigger] remaining.deep_view()[k]
                == vm.skip(i + 1)[k] by {
                assert(remaining@[k] == rem_pre[k + 1]);
                assert(remaining.deep_view()[k] == rem_pre[k + 1].deep_view());
                assert(rem_pre[k + 1].deep_view() == vm.skip(i as int)[k + 1]);
            }
            assert(remaining.deep_view() =~= vm.skip(i + 1));
            assert(v.deep_view() == vm[i as int]);
        }
        let mut slot = Zval::Null;
        let write_result = convert_into(v, rt, &mut slot, persistent);
        match write_result {
            Ok(_) => {},
            Err(e) => {
                return Err(e);
            },
        }
        obj.set_property(writes[i].key.clone(), slot);
        i = i + 1;
    }
    proof {
        assert(vm.take(writes@.len() as int) =~= vm);
    }
    zv.set_object(obj);
    Ok(())
}

/// True when some arm of the plan is for the named variant.
pub open spec fn arm_match(arms: Seq<VariantBindingModel>, name: Seq<char>) -> bool {
    exists|i: int| 0 <= i < arms.len() && arms[i].variant == name
}

/// Writes an enum into the boxed-value slot `zv`: the active variant's
/// payload is converted when the variant has an arm in the plan, and a unit
/// variant — the fallback included — writes the null discriminant.  The value
/// must fit the plan: exactly the variants with an arm carry a payload.
pub fn enum_set_zval(
    arms: &Vec<VariantBinding>,
    value: EnumValue,
    rt: &mut Runtime,
    zv: &mut Zval,
    persistent: bool,
) -> (r: Result<(), Error>)
    requires
        old(rt)@.len() < usize::MAX,
        value.payload is Some <==> arm_match(arms.deep_view(), value.variant@),
    ensures
        r is Ok,
        match value.deep_view().payload {
            Some(nv) => final(rt)@ == into_rt_spec(old(rt)@, nv, persistent) && *final(zv)
                == into_zval_spec(old(rt)@, nv),
            None => final(rt)@ == old(rt)@ && *final(zv) == Zval::Null,
        },
{
    match value.payload {
        Some(nv) => {
            let write_result = convert_into(nv, rt, zv, persistent);
            match write_result {
                Ok(_) => Ok(()),
                Err(e) => Err(e),
            }
        },
        None => {
            zv.set_null();
            Ok(())
        },
    }
}

} // verus!
