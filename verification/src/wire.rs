//! The loosely-typed wire form of one stream record.
//!
//! The server sends each stream as one flat object whose values may be
//! strings, numbers or booleans interchangeably. A [`FieldMap`] carries
//! those raw fields, keyed by the wire's camelCase names; the first entry
//! with a given key wins, as in the JSON object it came from.

use vstd::prelude::*;

verus! {

/// One raw value as it appears on the wire.
///
/// A number with a fractional part has no exact place here; the boundary
/// that builds the map carries it as its decimal text, which is how the
/// text-oriented coercers expect it anyway. `Other` stands for a present
/// value of some non-scalar shape (an array or object on the wire): it is
/// distinct from absence, but no coercer can make anything of it. A field
/// whose value is null is absent, not `Other`.
#[derive(Debug, Clone)]
pub enum WireValue {
    Bool(bool),
    Int(i64),
    Str(String),
    Other,
}

/// One raw field: a wire key and its value.
#[derive(Debug, Clone)]
pub struct Field {
    pub key: String,
    pub value: WireValue,
}

/// The raw field map of one stream record.
#[derive(Debug, Clone)]
pub struct FieldMap {
    pub fields: Vec<Field>,
}

/// The value of the first field named `key`, if any.
pub open spec fn lookup(fields: Seq<Field>, key: Seq<char>) -> Option<WireValue>
    decreases fields.len(),
{
    if fields.len() == 0 {
        None
    } else if fields[0].key@ == key {
        Some(fields[0].value)
    } else {
        lookup(fields.drop_first(), key)
    }
}

/// Character-for-character string equality.
pub fn str_eq(a: &str, b: &str) -> (r: bool)
    ensures
        r == (a@ == b@),
{
    let n = a.unicode_len();
    if n != b.unicode_len() {
        return false;
    }
    let mut i: usize = 0;
    while i < n
        invariant
            0 <= i <= n,
            n == a@.len() == b@.len(),
            forall|j: int| 0 <= j < i ==> a@[j] == b@[j],
        decreases n - i,
    {
        if a.get_char(i) != b.get_char(i) {
            return false;
        }
        i = i + 1;
    }
    proof {
        assert(a@ =~= b@);
    }
    true
}

impl View for FieldMap {
    type V = Seq<Field>;

    open spec fn view(&self) -> Seq<Field> {
        self.fields@
    }
}

impl FieldMap {
    /// An empty field map.
    pub fn new() -> (r: FieldMap)
        ensures
            r@ == Seq::<Field>::empty(),
    {
        let r = FieldMap { fields: Vec::new() };
        proof {
            assert(r@ =~= Seq::<Field>::empty());
        }
        r
    }

    /// Appends one field.
    pub fn push(&mut self, key: &str, value: WireValue)
        ensures
            final(self)@.len() == old(self)@.len() + 1,
            final(self)@.subrange(0, old(self)@.len() as int) == old(self)@,
            final(self)@.last().key@ == key@,
            final(self)@.last().value == value,
    {
        self.fields.push(Field { key: String::from_str(key), value });
        proof {
            assert(final(self)@.subrange(0, old(self)@.len() as int) =~= old(self)@);
        }
    }

    /// The value of the first field named `key`, or `None` if the record
    /// does not carry that field.
    pub fn get(&self, key: &str) -> (r: Option<&WireValue>)
        ensures
            match r {
                Some(v) => lookup(self@, key@) == Some(*v),
                None => lookup(self@, key@) is None,
            },
    {
        let n = self.fields.len();
        let mut i: usize = 0;
        proof {
            assert(self@.skip(0) =~= self@);
        }
        while i < n
            invariant
                0 <= i <= n == self@.len(),
                lookup(self@, key@) == lookup(self@.skip(i as int), key@),
            decreases n - i,
        {
            proof {
                assert(self@.skip(i as int)[0] == self@[i as int]);
                assert(self@.skip(i as int).drop_first() =~= self@.skip(i + 1));
            }
            if str_eq(self.fields[i].key.as_str(), key) {
                return Some(&self.fields[i].value);
            }
            i = i + 1;
        }
        proof {
            assert(self@.skip(n as int).len() == 0);
        }
        None
    }
}

} // verus!
