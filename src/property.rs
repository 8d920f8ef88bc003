use vstd::prelude::*;

verus! {

/// How a property descriptor populates the property: exactly one of a plain
/// value, an accessor pair, or a method. Callbacks and values are host
/// tokens.
#[derive(Clone, Copy, Debug, PartialEq, Eq, Structural)]
pub enum PropertyPayload {
    Value(usize),
    Accessor { getter: Option<usize>, setter: Option<usize> },
    Method(usize),
}

/// Writability, enumerability, configurability and the static flag of a
/// property, as the host's bit set.
#[derive(Clone, Copy, Debug, PartialEq, Eq, Structural)]
pub struct PropertyAttributes {
    pub writable: bool,
    pub enumerable: bool,
    pub configurable: bool,
    pub is_static: bool,
}

pub open spec fn bit(b: bool, weight: u32) -> u32 {
    if b {
        weight
    } else {
        0
    }
}

pub open spec fn attribute_bits(a: PropertyAttributes) -> u32 {
    (bit(a.writable, 1) + bit(a.enumerable, 2) + bit(a.configurable, 4) + bit(a.is_static, 1024)) as u32
}

impl PropertyAttributes {
    /// No flag set: read-only, hidden, fixed.
    pub fn none() -> (r: PropertyAttributes)
        ensures
            attribute_bits(r) == 0,
            !r.writable && !r.enumerable && !r.configurable && !r.is_static,
    {
        PropertyAttributes { writable: false, enumerable: false, configurable: false, is_static: false }
    }

    /// The host's bit set for these attributes.
    pub fn bits(&self) -> (r: u32)
        ensures
            r == attribute_bits(*self),
    {
        let mut r: u32 = 0;
        if self.writable {
            r = r + 1;
        }
        if self.enumerable {
            r = r + 2;
        }
        if self.configurable {
            r = r + 4;
        }
        if self.is_static {
            r = r + 1024;
        }
        r
    }
}

/// One property to attach to an object: its name, what populates it, its
/// attributes, and the native closure data tied to it (0 when there is
/// none).
#[derive(Clone, Debug)]
pub struct PropertyDescriptor {
    pub name: String,
    pub payload: PropertyPayload,
    pub attributes: PropertyAttributes,
    pub closure: usize,
}

impl PropertyDescriptor {
    /// Exactly one payload is meaningfully populated: an accessor has at
    /// least one of its two callbacks.
    pub open spec fn wf(&self) -> bool {
        match self.payload {
            PropertyPayload::Accessor { getter, setter } => getter is Some || setter is Some,
            _ => true,
        }
    }

    /// A property populated by a plain value.
    pub fn with_value(name: String, value: usize, attributes: PropertyAttributes, closure: usize) -> (r:
        PropertyDescriptor)
        ensures
            r.wf(),
            r.name@ == name@,
            r.payload == PropertyPayload::Value(value),
            r.attributes == attributes,
            r.closure == closure,
    {
        PropertyDescriptor { name, payload: PropertyPayload::Value(value), attributes, closure }
    }

    /// A property populated by a method callback.
    pub fn with_method(name: String, method: usize, attributes: PropertyAttributes, closure: usize) -> (r:
        PropertyDescriptor)
        ensures
            r.wf(),
            r.name@ == name@,
            r.payload == PropertyPayload::Method(method),
            r.attributes == attributes,
            r.closure == closure,
    {
        PropertyDescriptor { name, payload: PropertyPayload::Method(method), attributes, closure }
    }

    /// A property populated by a getter, a setter, or both.
    pub fn with_accessor(
        name: String,
        getter: Option<usize>,
        setter: Option<usize>,
        attributes: PropertyAttributes,
        closure: usize,
    ) -> (r: PropertyDescriptor)
        requires
            getter is Some || setter is Some,
        ensures
            r.wf(),
            r.name@ == name@,
            r.payload == (PropertyPayload::Accessor { getter, setter }),
            r.attributes == attributes,
            r.closure == closure,
    {
        PropertyDescriptor {
            name,
            payload: PropertyPayload::Accessor { getter, setter },
            attributes,
            closure,
        }
    }

    /// Whether the descriptor carries native closure data.
    pub open spec fn has_closure(&self) -> bool {
        self.closure != 0
    }
}

/// The closure data of the descriptors that carry one, in order.
pub open spec fn closures_of(ds: Seq<PropertyDescriptor>) -> Seq<usize>
    decreases ds.len(),
{
    if ds.len() == 0 {
        Seq::empty()
    } else {
        let rest = closures_of(ds.drop_last());
        if ds.last().has_closure() {
            rest.push(ds.last().closure)
        } else {
            rest
        }
    }
}

/// How many descriptors carry closure data.
pub open spec fn count_with_closure(ds: Seq<PropertyDescriptor>) -> nat
    decreases ds.len(),
{
    if ds.len() == 0 {
        0
    } else {
        count_with_closure(ds.drop_last()) + if ds.last().has_closure() {
            1nat
        } else {
            0nat
        }
    }
}

/// The closure data gathered from descriptors is exactly one entry per
/// descriptor that carries some, none of them null.
pub proof fn lemma_closures_of(ds: Seq<PropertyDescriptor>)
    ensures
        closures_of(ds).len() == count_with_closure(ds),
        count_with_closure(ds) <= ds.len(),
        forall|i: int| 0 <= i < closures_of(ds).len() ==> closures_of(ds)[i] != 0,
    decreases ds.len(),
{
    if ds.len() > 0 {
        lemma_closures_of(ds.drop_last());
    }
}

/// Gathers the non-null closure data of a batch of descriptors, in order.
pub fn collect_closures(ds: &Vec<PropertyDescriptor>) -> (r: Vec<usize>)
    ensures
        r@ == closures_of(ds@),
        r@.len() == count_with_closure(ds@),
{
    let mut r: Vec<usize> = Vec::new();
    let mut i: usize = 0;
    while i < ds.len()
        invariant
            i <= ds@.len(),
            r@ == closures_of(ds@.subrange(0, i as int)),
        decreases ds@.len() - i,
    {
        assert(ds@.subrange(0, i as int + 1).drop_last() =~= ds@.subrange(0, i as int));
        if ds[i].closure != 0 {
            r.push(ds[i].closure);
        }
        i = i + 1;
    }
    assert(ds@.subrange(0, ds@.len() as int) =~= ds@);
    proof {
        lemma_closures_of(ds@);
    }
    r
}

} // verus!
