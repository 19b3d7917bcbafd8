//! The flat key/value document a serialized source-settings payload
//! becomes: an ordered list of named values, where a value is a scalar,
//! one nested record of scalars, or a list of such records.
//!
//! The model of a document is the sequence of its fields, each a pair of
//! key characters and value model; every serializer's contract states the
//! exact sequence it produces.
use vstd::prelude::*;

verus! {

/// The model of a scalar wire value.
#[verifier::ext_equal]
pub enum ScalarModel {
    Bool(bool),
    UInt(u64),
    Int(i64),
    Text(Seq<char>),
}

/// The model of a nested record: its named scalars, in order.
pub type RecordModel = Seq<(Seq<char>, ScalarModel)>;

/// The model of a document value.
#[verifier::ext_equal]
pub enum ValueModel {
    Scalar(ScalarModel),
    Record(RecordModel),
    Records(Seq<RecordModel>),
}

/// The model of a whole document: its named values, in order.
pub type DocumentModel = Seq<(Seq<char>, ValueModel)>;

/// A scalar wire value: a boolean, an unsigned or signed integer, or a
/// piece of text.
pub enum Scalar {
    Bool(bool),
    UInt(u64),
    Int(i64),
    Text(String),
}

impl View for Scalar {
    type V = ScalarModel;

    open spec fn view(&self) -> ScalarModel {
        match self {
            Scalar::Bool(b) => ScalarModel::Bool(*b),
            Scalar::UInt(n) => ScalarModel::UInt(*n),
            Scalar::Int(n) => ScalarModel::Int(*n),
            Scalar::Text(s) => ScalarModel::Text(s@),
        }
    }
}

/// A nested record of named scalars, serialized as an object of its own
/// inside the enclosing document.
pub struct Record {
    pub fields: Vec<(String, Scalar)>,
}

impl View for Record {
    type V = RecordModel;

    open spec fn view(&self) -> RecordModel {
        self.fields@.map_values(|p: (String, Scalar)| (p.0@, p.1@))
    }
}

impl Record {
    /// A record with no fields yet.
    pub fn new() -> (r: Record)
        ensures
            r@ == Seq::<(Seq<char>, ScalarModel)>::empty(),
    {
        let r = Record { fields: Vec::new() };
        proof {
            assert(r@ =~= Seq::<(Seq<char>, ScalarModel)>::empty());
        }
        r
    }

    /// Adds a boolean field at the end.
    pub fn push_bool(&mut self, key: &str, v: bool)
        ensures
            final(self)@ == old(self)@.push((key@, ScalarModel::Bool(v))),
    {
        self.fields.push((String::from_str(key), Scalar::Bool(v)));
        proof {
            assert(self@ =~~= old(self)@.push((key@, ScalarModel::Bool(v))));
        }
    }

    /// Adds an unsigned integer field at the end.
    pub fn push_uint(&mut self, key: &str, v: u64)
        ensures
            final(self)@ == old(self)@.push((key@, ScalarModel::UInt(v))),
    {
        self.fields.push((String::from_str(key), Scalar::UInt(v)));
        proof {
            assert(self@ =~~= old(self)@.push((key@, ScalarModel::UInt(v))));
        }
    }

    /// Adds a text field at the end.
    pub fn push_text(&mut self, key: &str, v: &str)
        ensures
            final(self)@ == old(self)@.push((key@, ScalarModel::Text(v@))),
    {
        self.fields.push((String::from_str(key), Scalar::Text(String::from_str(v))));
        proof {
            assert(self@ =~~= old(self)@.push((key@, ScalarModel::Text(v@))));
        }
    }
}

/// A document value: a scalar, a nested record, or a list of records.
pub enum Value {
    Scalar(Scalar),
    Record(Record),
    Records(Vec<Record>),
}

impl View for Value {
    type V = ValueModel;

    open spec fn view(&self) -> ValueModel {
        match self {
            Value::Scalar(s) => ValueModel::Scalar(s@),
            Value::Record(r) => ValueModel::Record(r@),
            Value::Records(rs) => ValueModel::Records(rs@.map_values(|r: Record| r@)),
        }
    }
}

/// A flat key/value settings document, ready to hand to the transport.
pub struct Document {
    pub fields: Vec<(String, Value)>,
}

impl View for Document {
    type V = DocumentModel;

    open spec fn view(&self) -> DocumentModel {
        self.fields@.map_values(|p: (String, Value)| (p.0@, p.1@))
    }
}

impl Document {
    /// A document with no fields yet.
    pub fn new() -> (r: Document)
        ensures
            r@ == Seq::<(Seq<char>, ValueModel)>::empty(),
    {
        let r = Document { fields: Vec::new() };
        proof {
            assert(r@ =~= Seq::<(Seq<char>, ValueModel)>::empty());
        }
        r
    }

    /// Adds a boolean field at the end.
    pub fn push_bool(&mut self, key: &str, v: bool)
        ensures
            final(self)@ == old(self)@.push((key@, ValueModel::Scalar(ScalarModel::Bool(v)))),
    {
        self.fields.push((String::from_str(key), Value::Scalar(Scalar::Bool(v))));
        proof {
            assert(self@ =~~= old(self)@.push(
                (key@, ValueModel::Scalar(ScalarModel::Bool(v))),
            ));
        }
    }

    /// Adds an unsigned integer field at the end.
    pub fn push_uint(&mut self, key: &str, v: u64)
        ensures
            final(self)@ == old(self)@.push((key@, ValueModel::Scalar(ScalarModel::UInt(v)))),
    {
        self.fields.push((String::from_str(key), Value::Scalar(Scalar::UInt(v))));
        proof {
            assert(self@ =~~= old(self)@.push(
                (key@, ValueModel::Scalar(ScalarModel::UInt(v))),
            ));
        }
    }

    /// Adds a signed integer field at the end.
    pub fn push_int(&mut self, key: &str, v: i64)
        ensures
            final(self)@ == old(self)@.push((key@, ValueModel::Scalar(ScalarModel::Int(v)))),
    {
        self.fields.push((String::from_str(key), Value::Scalar(Scalar::Int(v))));
        proof {
            assert(self@ =~~= old(self)@.push(
                (key@, ValueModel::Scalar(ScalarModel::Int(v))),
            ));
        }
    }

    /// Adds a text field at the end, copying the given characters.
    pub fn push_text(&mut self, key: &str, v: &str)
        ensures
            final(self)@ == old(self)@.push((key@, ValueModel::Scalar(ScalarModel::Text(v@)))),
    {
        self.fields.push((String::from_str(key), Value::Scalar(Scalar::Text(String::from_str(v)))));
        proof {
            assert(self@ =~~= old(self)@.push(
                (key@, ValueModel::Scalar(ScalarModel::Text(v@))),
            ));
        }
    }

    /// Adds a text field at the end, taking ownership of the string.
    pub fn push_string(&mut self, key: &str, v: String)
        ensures
            final(self)@ == old(self)@.push((key@, ValueModel::Scalar(ScalarModel::Text(v@)))),
    {
        self.fields.push((String::from_str(key), Value::Scalar(Scalar::Text(v))));
        proof {
            assert(self@ =~~= old(self)@.push(
                (key@, ValueModel::Scalar(ScalarModel::Text(v@))),
            ));
        }
    }

    /// Adds a nested record field at the end.
    pub fn push_record(&mut self, key: &str, v: Record)
        ensures
            final(self)@ == old(self)@.push((key@, ValueModel::Record(v@))),
    {
        self.fields.push((String::from_str(key), Value::Record(v)));
        proof {
            assert(self@ =~~= old(self)@.push((key@, ValueModel::Record(v@))));
        }
    }

    /// Adds a list-of-records field at the end.
    pub fn push_records(&mut self, key: &str, v: Vec<Record>)
        ensures
            final(self)@ == old(self)@.push(
                (key@, ValueModel::Records(v@.map_values(|r: Record| r@))),
            ),
    {
        let ghost models = v@.map_values(|r: Record| r@);
        self.fields.push((String::from_str(key), Value::Records(v)));
        proof {
            assert(self@ =~~= old(self)@.push((key@, ValueModel::Records(models))));
        }
    }
}

/// The shared serialization capability: every source-kind payload turns
/// into a flat key/value document whose exact contents its own
/// `wire_model` states.
pub trait ToDocument {
    /// Well-formedness of the payload: what its fields' own invariants
    /// demand, and nothing more. For most payloads this is trivially
    /// true.
    spec fn wf(&self) -> bool;

    /// The document this payload serializes to.
    spec fn wire_model(&self) -> DocumentModel;

    /// Serializes the payload into its wire document.
    fn to_document(&self) -> (r: Document)
        requires
            self.wf(),
        ensures
            r@ == self.wire_model(),
    ;
}

} // verus!
