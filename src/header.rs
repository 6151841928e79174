//! Header names, header fields, and an ordered list of fields with the
//! removal of every field of a given name.

use vstd::prelude::*;

verus! {

/// ASCII lower-casing of one byte: header names compare without case.
pub open spec fn ascii_lower(b: u8) -> u8 {
    if 65 <= b && b <= 90 {
        (b + 32) as u8
    } else {
        b
    }
}

/// Two header names are the same name when they agree byte for byte up to
/// ASCII case.
pub open spec fn same_name(a: Seq<u8>, b: Seq<u8>) -> bool {
    &&& a.len() == b.len()
    &&& forall|i: int| 0 <= i < a.len() ==> ascii_lower(#[trigger] a[i]) == ascii_lower(b[i])
}

/// The fields of `fields` whose name is not `name`, in their order.
pub open spec fn without_name(fields: Seq<(Seq<u8>, Seq<u8>)>, name: Seq<u8>) -> Seq<
    (Seq<u8>, Seq<u8>),
> {
    fields.filter(|f: (Seq<u8>, Seq<u8>)| !same_name(f.0, name))
}

/// Whether some field of `fields` carries the name `name`.
pub open spec fn has_name(fields: Seq<(Seq<u8>, Seq<u8>)>, name: Seq<u8>) -> bool {
    exists|i: int| 0 <= i < fields.len() && same_name(#[trigger] fields[i].0, name)
}

/// Removing a name from a list that grew by one field.
pub proof fn lemma_without_push(fields: Seq<(Seq<u8>, Seq<u8>)>, f: (Seq<u8>, Seq<u8>), name: Seq<u8>)
    ensures
        without_name(fields.push(f), name) == if same_name(f.0, name) {
            without_name(fields, name)
        } else {
            without_name(fields, name).push(f)
        },
{
    reveal(Seq::filter);
    assert(fields.push(f).drop_last() =~= fields);
}

fn lower_byte(b: u8) -> (r: u8)
    ensures
        r == ascii_lower(b),
{
    if 65 <= b && b <= 90 {
        b + 32
    } else {
        b
    }
}

/// Compares two names without regard to ASCII case.
pub fn names_equal(a: &[u8], b: &[u8]) -> (r: bool)
    ensures
        r == same_name(a@, b@),
{
    if a.len() != b.len() {
        return false;
    }
    let mut i: usize = 0;
    while i < a.len()
        invariant
            a@.len() == b@.len(),
            0 <= i <= a@.len(),
            forall|j: int| 0 <= j < i ==> ascii_lower(#[trigger] a@[j]) == ascii_lower(b@[j]),
        decreases a@.len() - i,
    {
        if lower_byte(a[i]) != lower_byte(b[i]) {
            return false;
        }
        i = i + 1;
    }
    true
}

/// The name of the header that a middleware removes. It is set once and
/// never changed; every instance derived from one configuration holds a
/// copy of it.
pub struct HeaderName {
    bytes: Vec<u8>,
}

impl View for HeaderName {
    type V = Seq<u8>;

    closed spec fn view(&self) -> Seq<u8> {
        self.bytes@
    }
}

impl HeaderName {
    pub fn new(bytes: Vec<u8>) -> (r: Self)
        ensures
            r@ == bytes@,
    {
        HeaderName { bytes }
    }

    pub fn as_bytes(&self) -> (r: &[u8])
        ensures
            r@ == self@,
    {
        self.bytes.as_slice()
    }

    /// A copy of this name, for a newly derived instance.
    pub fn duplicate(&self) -> (r: Self)
        ensures
            r@ == self@,
    {
        HeaderName { bytes: self.bytes.clone() }
    }

    /// Whether `name` is this name, up to ASCII case.
    pub fn matches(&self, name: &[u8]) -> (r: bool)
        ensures
            r == same_name(name@, self@),
    {
        names_equal(name, self.bytes.as_slice())
    }
}

/// One header field: a name and a value.
pub struct HeaderField {
    pub name: Vec<u8>,
    pub value: Vec<u8>,
}

impl View for HeaderField {
    type V = (Seq<u8>, Seq<u8>);

    open spec fn view(&self) -> (Seq<u8>, Seq<u8>) {
        (self.name@, self.value@)
    }
}

impl HeaderField {
    pub fn duplicate(&self) -> (r: Self)
        ensures
            r@ == self@,
    {
        HeaderField { name: self.name.clone(), value: self.value.clone() }
    }
}

/// The header fields of a message, in order. A name may occur any number of
/// times.
pub struct Headers {
    fields: Vec<HeaderField>,
}

impl View for Headers {
    type V = Seq<(Seq<u8>, Seq<u8>)>;

    closed spec fn view(&self) -> Seq<(Seq<u8>, Seq<u8>)> {
        self.fields@.map_values(|f: HeaderField| f@)
    }
}

impl Headers {
    pub fn new() -> (r: Self)
        ensures
            r@ == Seq::<(Seq<u8>, Seq<u8>)>::empty(),
    {
        let r = Headers { fields: Vec::new() };
        assert(r@ =~= Seq::<(Seq<u8>, Seq<u8>)>::empty());
        r
    }

    /// Appends a field after all the others.
    pub fn append(&mut self, name: Vec<u8>, value: Vec<u8>)
        ensures
            final(self)@ == old(self)@.push((name@, value@)),
    {
        self.fields.push(HeaderField { name, value });
        assert(final(self)@ =~= old(self)@.push((name@, value@)));
    }

    pub fn len(&self) -> (r: usize)
        ensures
            r == self@.len(),
    {
        self.fields.len()
    }

    /// The field at position `i`.
    pub fn field(&self, i: usize) -> (r: &HeaderField)
        requires
            i < self@.len(),
        ensures
            r@ == self@[i as int],
    {
        &self.fields[i]
    }

    /// Whether some field carries `name`, up to ASCII case.
    pub fn contains(&self, name: &HeaderName) -> (r: bool)
        ensures
            r == has_name(self@, name@),
    {
        let mut i: usize = 0;
        while i < self.fields.len()
            invariant
                0 <= i <= self@.len(),
                self@.len() == self.fields@.len(),
                forall|j: int| 0 <= j < i ==> !same_name(#[trigger] self@[j].0, name@),
            decreases self@.len() - i,
        {
            if name.matches(self.fields[i].name.as_slice()) {
                assert(same_name(self@[i as int].0, name@));
                return true;
            }
            i = i + 1;
        }
        false
    }

    /// Removes every field named `name`, up to ASCII case; the other fields
    /// keep their order. Removing a name that is absent changes nothing.
    pub fn remove(&mut self, name: &HeaderName)
        ensures
            final(self)@ == without_name(old(self)@, name@),
    {
        let ghost all = self@;
        let mut kept: Vec<HeaderField> = Vec::new();
        let mut i: usize = 0;
        while i < self.fields.len()
            invariant
                all == self@,
                0 <= i <= self@.len(),
                self@.len() == self.fields@.len(),
                kept@.map_values(|f: HeaderField| f@) == without_name(all.take(i as int), name@),
            decreases self@.len() - i,
        {
            let ghost before = kept@.map_values(|f: HeaderField| f@);
            assert(all.take(i + 1) =~= all.take(i as int).push(all[i as int]));
            proof {
                lemma_without_push(all.take(i as int), all[i as int], name@);
            }
            if !name.matches(self.fields[i].name.as_slice()) {
                kept.push(self.fields[i].duplicate());
                assert(kept@.map_values(|f: HeaderField| f@) =~= before.push(all[i as int]));
            } else {
                assert(kept@.map_values(|f: HeaderField| f@) =~= before);
            }
            i = i + 1;
        }
        assert(all.take(i as int) =~= all);
        self.fields = kept;
    }
}

} // verus!
