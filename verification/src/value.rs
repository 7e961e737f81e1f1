//! The boxed value cell and the object property bridge.
//!
//! A boxed value ("zval") is the runtime's uniformly sized, tagged cell.  Its
//! discriminant says which payload it holds; a typed read accessor checks the
//! discriminant before interpreting the payload and fails on a mismatch, never
//! reading garbage.  String payloads are handles into the runtime's string
//! heap; a float payload is carried as its raw bits, opaque to this layer.
//!
//! A runtime object, as this layer sees it, is a named bag of boxed values
//! addressable by string key: the intermediate shape used by generated struct
//! conversions.

use vstd::prelude::*;

verus! {

/// The type discriminant of a boxed value.
#[derive(Clone, Copy, Debug, PartialEq, Eq, Structural)]
pub enum DataType {
    Null,
    Bool,
    Long,
    Double,
    Str,
    Array,
    Object,
    Reference,
    Resource,
    Mixed,
}

/// One boxed value cell: a discriminant together with the matching payload.
#[derive(Debug, PartialEq)]
pub enum Zval {
    Null,
    Bool(bool),
    Long(i64),
    /// A float payload, carried as raw bits this layer never interprets.
    Double(u64),
    /// A handle into the runtime's string heap.
    Str(usize),
    Object(ZendObject),
}

/// A runtime object: a named bag of boxed values addressable by string key.
#[derive(Debug, PartialEq)]
pub struct ZendObject {
    pub props: Vec<(String, Zval)>,
}

/// The discriminant of a boxed value.
pub open spec fn data_type_spec(zv: Zval) -> DataType {
    match zv {
        Zval::Null => DataType::Null,
        Zval::Bool(_) => DataType::Bool,
        Zval::Long(_) => DataType::Long,
        Zval::Double(_) => DataType::Double,
        Zval::Str(_) => DataType::Str,
        Zval::Object(_) => DataType::Object,
    }
}

/// The first property of `props` whose key has the characters `key`, searched
/// from the front of the bag.
pub open spec fn obj_lookup(props: Seq<(String, Zval)>, key: Seq<char>) -> Option<Zval>
    decreases props.len(),
{
    if props.len() == 0 {
        None
    } else if props[0].0@ == key {
        Some(props[0].1)
    } else {
        obj_lookup(props.skip(1), key)
    }
}

impl Zval {
    /// The discriminant tag of this value.
    pub fn data_type(&self) -> (t: DataType)
        ensures
            t == data_type_spec(*self),
    {
        match self {
            Zval::Null => DataType::Null,
            Zval::Bool(_) => DataType::Bool,
            Zval::Long(_) => DataType::Long,
            Zval::Double(_) => DataType::Double,
            Zval::Str(_) => DataType::Str,
            Zval::Object(_) => DataType::Object,
        }
    }

    /// Reads the integer payload; fails unless the discriminant is `Long`.
    pub fn long(&self) -> (r: Option<i64>)
        ensures
            match r {
                Some(i) => *self == Zval::Long(i),
                None => !(*self is Long),
            },
    {
        match self {
            Zval::Long(i) => Some(*i),
            _ => None,
        }
    }

    /// Reads the boolean payload; fails unless the discriminant is `Bool`.
    pub fn boolean(&self) -> (r: Option<bool>)
        ensures
            match r {
                Some(b) => *self == Zval::Bool(b),
                None => !(*self is Bool),
            },
    {
        match self {
            Zval::Bool(b) => Some(*b),
            _ => None,
        }
    }

    /// Reads the float payload as raw bits; fails unless the discriminant is
    /// `Double`.
    pub fn double_bits(&self) -> (r: Option<u64>)
        ensures
            match r {
                Some(bits) => *self == Zval::Double(bits),
                None => !(*self is Double),
            },
    {
        match self {
            Zval::Double(bits) => Some(*bits),
            _ => None,
        }
    }

    /// Reads the string handle; fails unless the discriminant is `Str`.
    pub fn str_handle(&self) -> (r: Option<usize>)
        ensures
            match r {
                Some(h) => *self == Zval::Str(h),
                None => !(*self is Str),
            },
    {
        match self {
            Zval::Str(h) => Some(*h),
            _ => None,
        }
    }

    /// Borrows the object payload; fails unless the discriminant is `Object`.
    pub fn object(&self) -> (r: Option<&ZendObject>)
        ensures
            match r {
                Some(o) => *self is Object && *o == self->Object_0,
                None => !(*self is Object),
            },
    {
        match self {
            Zval::Object(o) => Some(o),
            _ => None,
        }
    }

    /// Writes the null discriminant into this cell.
    pub fn set_null(&mut self)
        ensures
            *final(self) == Zval::Null,
    {
        *self = Zval::Null;
    }

    /// Writes a boolean payload into this cell.
    pub fn set_bool(&mut self, b: bool)
        ensures
            *final(self) == Zval::Bool(b),
    {
        *self = Zval::Bool(b);
    }

    /// Writes an integer payload into this cell.
    pub fn set_long(&mut self, i: i64)
        ensures
            *final(self) == Zval::Long(i),
    {
        *self = Zval::Long(i);
    }

    /// Writes a float payload, given as raw bits, into this cell.
    pub fn set_double_bits(&mut self, bits: u64)
        ensures
            *final(self) == Zval::Double(bits),
    {
        *self = Zval::Double(bits);
    }

    /// Writes a string handle into this cell.
    pub fn set_str(&mut self, h: usize)
        ensures
            *final(self) == Zval::Str(h),
    {
        *self = Zval::Str(h);
    }

    /// Writes an object payload into this cell.
    pub fn set_object(&mut self, o: ZendObject)
        ensures
            *final(self) == Zval::Object(o),
    {
        *self = Zval::Object(o);
    }
}

impl ZendObject {
    /// A fresh generic object with no properties.
    pub fn new_stdclass() -> (o: ZendObject)
        ensures
            o.props@ =~= Seq::<(String, Zval)>::empty(),
    {
        ZendObject { props: Vec::new() }
    }

    /// Looks up the property named `key`, returning the first match from the
    /// front of the bag.
    pub fn get_property(&self, key: &String) -> (r: Option<&Zval>)
        ensures
            match r {
                Some(v) => obj_lookup(self.props@, key@) == Some(*v),
                None => obj_lookup(self.props@, key@) is None,
            },
    {
        proof {
            assert(self.props@.skip(0) =~= self.props@);
        }
        let mut i: usize = 0;
        while i < self.props.len()
            invariant
                i <= self.props.len(),
                obj_lookup(self.props@.skip(i as int), key@) == obj_lookup(self.props@, key@),
            decreases self.props.len() - i,
        {
            proof {
                assert(self.props@.skip(i as int)[0] == self.props@[i as int]);
                assert(self.props@.skip(i as int).skip(1) =~= self.props@.skip(i + 1));
            }
            if self.props[i].0 == *key {
                return Some(&self.props[i].1);
            }
            i = i + 1;
        }
        None
    }

    /// Sets the property named `key` to `value`.  The new binding shadows any
    /// older one: a later lookup of `key` finds `value`, and every other key
    /// still finds what it found before.
    pub fn set_property(&mut self, key: String, value: Zval)
        ensures
            final(self).props@ =~= old(self).props@.insert(0, (key, value)),
            obj_lookup(final(self).props@, key@) == Some(value),
            forall|k: Seq<char>|
                k != key@ ==> obj_lookup(final(self).props@, k) == obj_lookup(
                    old(self).props@,
                    k,
                ),
    {
        self.props.insert(0, (key, value));
        proof {
            assert(self.props@.skip(1) =~= old(self).props@);
        }
    }
}

} // verus!
