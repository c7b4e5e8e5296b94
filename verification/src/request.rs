//! The wire request: one POST body naming the model, the method and the
//! serialized parameter object. Immutable once built.

use vstd::prelude::*;

use crate::writer::{json_object, json_quoted, ObjWriter};

verus! {

/// What the transport collaborator can report instead of response bytes.
/// The core never retries; retry policy belongs to the caller.
#[derive(Debug, Clone, Copy, PartialEq, Eq, Structural)]
pub enum TransportError {
    Timeout,
    ConnectionError,
    HttpStatus(u16),
}

/// A finalized request: endpoint model, method name and the rendered
/// parameter object.
#[derive(Debug, Clone, PartialEq, Eq)]
pub struct NPRequest {
    pub api_key: String,
    pub model_name: String,
    pub called_method: String,
    pub method_properties: String,
}

/// The request body: the four envelope fields in wire order, the
/// parameters standing as already-rendered JSON.
pub open spec fn spec_request_body(
    api_key: Seq<char>,
    model_name: Seq<char>,
    called_method: Seq<char>,
    method_properties: Seq<char>,
) -> Seq<char> {
    json_object(
        seq![
            ("apiKey"@, json_quoted(api_key)),
            ("modelName"@, json_quoted(model_name)),
            ("calledMethod"@, json_quoted(called_method)),
            ("methodProperties"@, method_properties),
        ],
    )
}

impl NPRequest {
    /// Renders the whole POST body.
    pub fn body(&self) -> (r: String)
        ensures
            r@ == spec_request_body(
                self.api_key@,
                self.model_name@,
                self.called_method@,
                self.method_properties@,
            ),
    {
        let mut w = ObjWriter::new();
        w.field_quoted("apiKey", self.api_key.as_str());
        w.field_quoted("modelName", self.model_name.as_str());
        w.field_quoted("calledMethod", self.called_method.as_str());
        w.field_raw("methodProperties", self.method_properties.as_str());
        proof {
            assert(w.pieces() =~= seq![
                ("apiKey"@, json_quoted(self.api_key@)),
                ("modelName"@, json_quoted(self.model_name@)),
                ("calledMethod"@, json_quoted(self.called_method@)),
                ("methodProperties"@, self.method_properties@),
            ]);
        }
        w.finish()
    }
}

} // verus!
