//! Counterparty listing: request building.

use vstd::prelude::*;

use crate::helper_structs::{counterparty_role_wire, CounterpartyRole};
use crate::request::NPRequest;
use crate::text::{render_dec, render_u16};
use crate::writer::{json_object, json_quoted, opt_piece, ObjWriter};

verus! {

/// Accumulates the parameters of a counterparty listing; every slot is
/// optional, so any configuration is finalizable.
#[derive(Debug, Clone)]
pub struct GetCounterpartiesBuilder {
    pub find_by_string: Option<String>,
    pub page: Option<u16>,
    pub counterparty_property: Option<CounterpartyRole>,
}

/// The configuration every counterparty listing starts from: nothing set.
pub open spec fn counterparties_initial() -> GetCounterpartiesBuilder {
    GetCounterpartiesBuilder { find_by_string: None, page: None, counterparty_property: None }
}

/// The parameter object: the set fields, in wire order.
pub open spec fn spec_counterparties_props(b: GetCounterpartiesBuilder) -> Seq<char> {
    json_object(
        opt_piece(
            "FindByString"@,
            match b.find_by_string {
                Some(s) => Some(json_quoted(s@)),
                None => None,
            },
        ) + opt_piece(
            "Page"@,
            match b.page {
                Some(n) => Some(render_dec(n as nat)),
                None => None,
            },
        ) + opt_piece(
            "CounterpartyProperty"@,
            match b.counterparty_property {
                Some(p) => Some(json_quoted(counterparty_role_wire(p))),
                None => None,
            },
        ),
    )
}

impl GetCounterpartiesBuilder {
    pub open spec fn initial() -> GetCounterpartiesBuilder {
        counterparties_initial()
    }

    pub fn new() -> (r: GetCounterpartiesBuilder)
        ensures
            r == counterparties_initial(),
    {
        GetCounterpartiesBuilder { find_by_string: None, page: None, counterparty_property: None }
    }

    /// Sets the role, leaving every other slot unchanged.
    pub fn counterparty_property(self, prop: CounterpartyRole) -> (r: GetCounterpartiesBuilder)
        ensures
            r == (GetCounterpartiesBuilder { counterparty_property: Some(prop), ..self }),
    {
        GetCounterpartiesBuilder { counterparty_property: Some(prop), ..self }
    }

    /// Sets the search string, leaving every other slot unchanged.
    pub fn find_by_string(self, val: String) -> (r: GetCounterpartiesBuilder)
        ensures
            r == (GetCounterpartiesBuilder { find_by_string: Some(val), ..self }),
    {
        GetCounterpartiesBuilder { find_by_string: Some(val), ..self }
    }

    /// Sets the page, leaving every other slot unchanged.
    pub fn page(self, page: u16) -> (r: GetCounterpartiesBuilder)
        ensures
            r == (GetCounterpartiesBuilder { page: Some(page), ..self }),
    {
        GetCounterpartiesBuilder { page: Some(page), ..self }
    }

    /// Renders the parameter object.
    pub fn properties(&self) -> (r: String)
        ensures
            r@ == spec_counterparties_props(*self),
    {
        let mut w = ObjWriter::new();
        if let Some(x) = &self.find_by_string {
            w.field_quoted("FindByString", x.as_str());
        }
        if let Some(x) = &self.page {
            let t = render_u16(*x);
            w.field_raw("Page", t.as_str());
        }
        if let Some(p) = &self.counterparty_property {
            let t = p.wire_name();
            w.field_quoted("CounterpartyProperty", t.as_str());
        }
        proof {
            assert(w.pieces() =~= opt_piece(
                "FindByString"@,
                match self.find_by_string {
                    Some(s) => Some(json_quoted(s@)),
                    None => None,
                },
            ) + opt_piece(
                "Page"@,
                match self.page {
                    Some(n) => Some(render_dec(n as nat)),
                    None => None,
                },
            ) + opt_piece(
                "CounterpartyProperty"@,
                match self.counterparty_property {
                    Some(p) => Some(json_quoted(counterparty_role_wire(p))),
                    None => None,
                },
            ));
        }
        w.finish()
    }

    /// Finalizes into a wire request under the given key.
    pub fn request(&self, api_key: String) -> (r: NPRequest)
        ensures
            r.api_key@ == api_key@,
            r.model_name@ == "Counterparty"@,
            r.called_method@ == "getCounterparties"@,
            r.method_properties@ == spec_counterparties_props(*self),
    {
        NPRequest {
            api_key,
            model_name: String::from_str("Counterparty"),
            called_method: String::from_str("getCounterparties"),
            method_properties: self.properties(),
        }
    }
}

} // verus!
