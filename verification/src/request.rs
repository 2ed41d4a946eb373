//! The key/value write descriptor and its builder.
//!
//! A write request is pure data: key, value, and optional encoding, expiry
//! and metadata members. The builder methods never mutate their receiver;
//! each returns a new value with exactly one member changed.

use vstd::prelude::*;

use crate::json::lemma_obj_view_index;
use crate::json::obj_view;
use crate::json::JsonValue;
use crate::json::JsonView;

verus! {

/// One key/value write, as the bulk write endpoint takes it. `expiration`
/// (an absolute unix timestamp) and `expiration_ttl` (seconds from now) are
/// mutually exclusive by the service's rules; the client passes both through
/// unchecked, as the service is authoritative. `base64` says the value is
/// already base64-encoded text.
#[derive(Debug)]
pub struct KvRequest {
    pub key: String,
    pub value: String,
    pub base64: bool,
    pub expiration: Option<u64>,
    pub expiration_ttl: Option<u64>,
    pub metadata: Option<JsonValue>,
}

/// The model of a write request.
pub struct KvRequestView {
    pub key: Seq<char>,
    pub value: Seq<char>,
    pub base64: bool,
    pub expiration: Option<u64>,
    pub expiration_ttl: Option<u64>,
    pub metadata: Option<JsonView>,
}

impl View for KvRequest {
    type V = KvRequestView;

    open spec fn view(&self) -> KvRequestView {
        KvRequestView {
            key: self.key@,
            value: self.value@,
            base64: self.base64,
            expiration: self.expiration,
            expiration_ttl: self.expiration_ttl,
            metadata: match self.metadata {
                Some(m) => Some(m@),
                None => None,
            },
        }
    }
}

impl DeepView for KvRequest {
    type V = KvRequestView;

    open spec fn deep_view(&self) -> KvRequestView {
        self.view()
    }
}

/// An optional number on the wire: the number, or JSON null.
pub open spec fn opt_num_json(v: Option<u64>) -> JsonView {
    match v {
        Some(n) => JsonView::Num(n),
        None => JsonView::Null,
    }
}

/// An optional document on the wire: the document, or JSON null.
pub open spec fn opt_json(v: Option<JsonView>) -> JsonView {
    match v {
        Some(j) => j,
        None => JsonView::Null,
    }
}

/// The JSON object a write request is serialized to: all six members, in
/// this order, unset options as null.
pub open spec fn wire_json(r: KvRequestView) -> JsonView {
    JsonView::Obj(
        seq![
            ("key"@, JsonView::Str(r.key)),
            ("value"@, JsonView::Str(r.value)),
            ("base64"@, JsonView::Bool(r.base64)),
            ("expiration"@, opt_num_json(r.expiration)),
            ("expiration_ttl"@, opt_num_json(r.expiration_ttl)),
            ("metadata"@, opt_json(r.metadata)),
        ],
    )
}

impl KvRequest {
    /// A write of `value` under `key`, every optional member unset.
    pub fn new(key: &str, value: &str) -> (r: KvRequest)
        ensures
            r@ == (KvRequestView {
                key: key@,
                value: value@,
                base64: false,
                expiration: None,
                expiration_ttl: None,
                metadata: None,
            }),
    {
        KvRequest {
            key: key.to_owned(),
            value: value.to_owned(),
            base64: false,
            expiration: None,
            expiration_ttl: None,
            metadata: None,
        }
    }

    fn clone_metadata(&self) -> (r: Option<JsonValue>)
        ensures
            self@.metadata == match r {
                Some(m) => Some(m@),
                None => None::<JsonView>,
            },
    {
        match &self.metadata {
            Some(m) => Some(m.deep_clone()),
            None => None,
        }
    }

    /// The same write with `base64` set; the receiver is left unchanged.
    pub fn enable_base64(&self) -> (r: KvRequest)
        ensures
            r@ == (KvRequestView { base64: true, ..self@ }),
    {
        KvRequest {
            key: self.key.clone(),
            value: self.value.clone(),
            base64: true,
            expiration: self.expiration,
            expiration_ttl: self.expiration_ttl,
            metadata: self.clone_metadata(),
        }
    }

    /// The same write expiring `ttl_sec` seconds from now; the receiver is
    /// left unchanged.
    pub fn ttl_sec(&self, ttl_sec: u64) -> (r: KvRequest)
        ensures
            r@ == (KvRequestView { expiration_ttl: Some(ttl_sec), ..self@ }),
    {
        KvRequest {
            key: self.key.clone(),
            value: self.value.clone(),
            base64: self.base64,
            expiration: self.expiration,
            expiration_ttl: Some(ttl_sec),
            metadata: self.clone_metadata(),
        }
    }

    /// The same write expiring at the absolute unix timestamp
    /// `ttl_timestemp`; the receiver is left unchanged.
    pub fn ttl_timestemp(&self, ttl_timestemp: u64) -> (r: KvRequest)
        ensures
            r@ == (KvRequestView { expiration: Some(ttl_timestemp), ..self@ }),
    {
        KvRequest {
            key: self.key.clone(),
            value: self.value.clone(),
            base64: self.base64,
            expiration: Some(ttl_timestemp),
            expiration_ttl: self.expiration_ttl,
            metadata: self.clone_metadata(),
        }
    }

    /// The same write carrying `metadata`; the receiver is left unchanged.
    pub fn metadata(&self, metadata: JsonValue) -> (r: KvRequest)
        ensures
            r@ == (KvRequestView { metadata: Some(metadata@), ..self@ }),
    {
        KvRequest {
            key: self.key.clone(),
            value: self.value.clone(),
            base64: self.base64,
            expiration: self.expiration,
            expiration_ttl: self.expiration_ttl,
            metadata: Some(metadata),
        }
    }

    /// Serializes this write to the JSON object the bulk endpoint takes.
    pub fn to_json(&self) -> (j: JsonValue)
        ensures
            j@ == wire_json(self@),
    {
        let mut entries: Vec<(String, JsonValue)> = Vec::new();
        entries.push(("key".to_owned(), JsonValue::Str(self.key.clone())));
        entries.push(("value".to_owned(), JsonValue::Str(self.value.clone())));
        entries.push(("base64".to_owned(), JsonValue::Bool(self.base64)));
        entries.push(
            (
                "expiration".to_owned(),
                match self.expiration {
                    Some(n) => JsonValue::Num(n),
                    None => JsonValue::Null,
                },
            ),
        );
        entries.push(
            (
                "expiration_ttl".to_owned(),
                match self.expiration_ttl {
                    Some(n) => JsonValue::Num(n),
                    None => JsonValue::Null,
                },
            ),
        );
        entries.push(
            (
                "metadata".to_owned(),
                match &self.metadata {
                    Some(m) => m.deep_clone(),
                    None => JsonValue::Null,
                },
            ),
        );
        let j = JsonValue::Obj(entries);
        proof {
            lemma_obj_view_index(entries@);
            let es = seq![
                ("key"@, JsonView::Str(self@.key)),
                ("value"@, JsonView::Str(self@.value)),
                ("base64"@, JsonView::Bool(self@.base64)),
                ("expiration"@, opt_num_json(self@.expiration)),
                ("expiration_ttl"@, opt_num_json(self@.expiration_ttl)),
                ("metadata"@, opt_json(self@.metadata)),
            ];
            assert(obj_view(entries@) =~= es);
        }
        j
    }
}

} // verus!
