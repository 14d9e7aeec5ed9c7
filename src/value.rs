use vstd::prelude::*;

verus! {

#[verifier::external_type_specification]
#[verifier::external_body]
pub struct ExBson(bson::Bson);

/// A copy of a BSON value.
///
/// Relies on `<bson::Bson as Clone>::clone`, derived by the crate: the copy holds the
/// same value.
#[verifier::external_body]
fn copy_bson(b: &bson::Bson) -> (r: bson::Bson)
    ensures
        r == *b,
{
    b.clone()
}

/// A value held in a document: the kinds the command core reads, and any other BSON
/// value (an embedded document, an array, a double, a date), carried through as it is.
#[derive(Debug, PartialEq)]
pub enum Value {
    Null,
    Bool(bool),
    Int(i64),
    Str(String),
    ObjectId([u8; 12]),
    Other(bson::Bson),
}

impl Clone for Value {
    fn clone(&self) -> (r: Self)
        ensures
            r == *self,
    {
        match self {
            Value::Null => Value::Null,
            Value::Bool(b) => Value::Bool(*b),
            Value::Int(i) => Value::Int(*i),
            Value::Str(s) => Value::Str(s.clone()),
            Value::ObjectId(b) => Value::ObjectId(*b),
            Value::Other(b) => Value::Other(copy_bson(b)),
        }
    }
}

/// One key/value pair of a document.
#[derive(Debug, PartialEq)]
pub struct Field {
    pub key: String,
    pub value: Value,
}

impl Clone for Field {
    fn clone(&self) -> (r: Self)
        ensures
            r == *self,
    {
        Field { key: self.key.clone(), value: self.value.clone() }
    }
}

/// An ordered key/value document.
#[derive(Debug, PartialEq)]
pub struct Document {
    pub fields: Vec<Field>,
}

impl View for Document {
    type V = Seq<Field>;

    open spec fn view(&self) -> Seq<Field> {
        self.fields@
    }
}

impl Clone for Document {
    fn clone(&self) -> (r: Self)
        ensures
            r@ == self@,
    {
        self.copy()
    }
}

/// The views of a list of documents.
pub open spec fn docs_view(docs: Seq<Document>) -> Seq<Seq<Field>> {
    docs.map_values(|d: Document| d@)
}

/// The value of the first field named `key`, if any.
pub open spec fn lookup(fields: Seq<Field>, key: Seq<char>) -> Option<Value>
    decreases fields.len(),
{
    if fields.len() == 0 {
        None
    } else if fields[0].key@ == key {
        Some(fields[0].value)
    } else {
        lookup(fields.drop_first(), key)
    }
}

/// A fresh object id.
///
/// Relies on `bson::oid::ObjectId::new`, which draws the id from the clock, a random
/// per-process value and a counter; nothing is promised of the bytes. It panics only
/// when the system clock reads before 1970 or after 2106.
#[verifier::external_body]
pub fn new_object_id() -> (r: [u8; 12]) {
    bson::oid::ObjectId::new().bytes()
}

impl Document {
    pub fn new() -> (r: Document)
        ensures
            r@ == Seq::<Field>::empty(),
    {
        Document { fields: Vec::new() }
    }

    /// Appends a field at the end.
    pub fn push(&mut self, key: String, value: Value)
        ensures
            final(self)@ == old(self)@.push(Field { key, value }),
    {
        self.fields.push(Field { key, value });
    }

    /// The value of the first field named `key`, if any.
    pub fn get(&self, key: &String) -> (r: Option<&Value>)
        ensures
            r matches Some(v) ==> lookup(self@, key@) == Some(*v),
            r is None ==> lookup(self@, key@) is None,
    {
        let mut i: usize = 0;
        assert(self@.subrange(0, self@.len() as int) =~= self@);
        while i < self.fields.len()
            invariant
                i <= self.fields@.len(),
                lookup(self@, key@) == lookup(self@.subrange(i as int, self@.len() as int), key@),
            decreases self.fields.len() - i,
        {
            let ghost rest = self@.subrange(i as int, self@.len() as int);
            assert(rest.drop_first() =~= self@.subrange(i + 1, self@.len() as int));
            if self.fields[i].key == *key {
                return Some(&self.fields[i].value);
            }
            i = i + 1;
        }
        None
    }

    /// A copy of this document, field for field.
    pub fn copy(&self) -> (r: Document)
        ensures
            r@ == self@,
    {
        let mut out: Vec<Field> = Vec::new();
        let mut i: usize = 0;
        while i < self.fields.len()
            invariant
                i <= self.fields.len(),
                out@ == self.fields@.subrange(0, i as int),
            decreases self.fields.len() - i,
        {
            out.push(self.fields[i].clone());
            i = i + 1;
        }
        assert(out@ =~= self.fields@);
        Document { fields: out }
    }
}

/// A copy of a list of documents, document for document.
pub fn copy_docs(docs: &Vec<Document>) -> (r: Vec<Document>)
    ensures
        docs_view(r@) == docs_view(docs@),
{
    let mut out: Vec<Document> = Vec::new();
    let mut i: usize = 0;
    while i < docs.len()
        invariant
            i <= docs.len(),
            out@.len() == i,
            forall|j: int| 0 <= j < i ==> (#[trigger] out@[j])@ == docs@[j]@,
        decreases docs.len() - i,
    {
        let d = docs[i].copy();
        out.push(d);
        i = i + 1;
    }
    assert(docs_view(out@) =~= docs_view(docs@));
    out
}

} // verus!
