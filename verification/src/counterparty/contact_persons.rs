//! Contact-person listing: request building and the contact payload.

use vstd::prelude::*;

use crate::fields::{
    f_nullable_text, f_text, f_uuid, opt_text_view, spec_f_nullable_text, spec_f_text,
    spec_f_uuid, DecodeError,
};
use crate::helper_structs::{CounterpartyID, UuidText};
use crate::json::JsonSpec;
use crate::request::NPRequest;
use crate::res_template::JsonDecode;
use crate::text::{render_dec, render_u16};
use crate::writer::{json_object, json_quoted, opt_piece, ObjWriter};

verus! {

/// Ghost value of a decoded contact person.
pub struct ContactPersonV {
    pub ref_id: Seq<char>,
    pub description: Seq<char>,
    pub first_name: Seq<char>,
    pub middle_name: Seq<char>,
    pub last_name: Seq<char>,
    pub phones: Option<Seq<char>>,
    pub email: Option<Seq<char>>,
}

/// One contact person of a counterparty.
#[derive(Debug, Clone)]
pub struct ContactPerson {
    pub ref_id: UuidText,
    pub description: String,
    pub first_name: String,
    pub middle_name: String,
    pub last_name: String,
    pub phones: Option<String>,
    pub email: Option<String>,
}

/// What decoding a contact person demands of each field.
pub open spec fn spec_decode_contact_person(j: JsonSpec) -> Option<ContactPersonV> {
    if {
        &&& spec_f_uuid(j, "Ref"@) is Some
        &&& spec_f_text(j, "Description"@) is Some
        &&& spec_f_text(j, "FirstName"@) is Some
        &&& spec_f_text(j, "MiddleName"@) is Some
        &&& spec_f_text(j, "LastName"@) is Some
        &&& spec_f_nullable_text(j, "Phones"@) is Some
        &&& spec_f_nullable_text(j, "Email"@) is Some
    } {
        Some(
            ContactPersonV {
                ref_id: spec_f_uuid(j, "Ref"@)->Some_0,
                description: spec_f_text(j, "Description"@)->Some_0,
                first_name: spec_f_text(j, "FirstName"@)->Some_0,
                middle_name: spec_f_text(j, "MiddleName"@)->Some_0,
                last_name: spec_f_text(j, "LastName"@)->Some_0,
                phones: spec_f_nullable_text(j, "Phones"@)->Some_0,
                email: spec_f_nullable_text(j, "Email"@)->Some_0,
            },
        )
    } else {
        None
    }
}

impl JsonDecode for ContactPerson {
    type SV = ContactPersonV;

    open spec fn sview(&self) -> ContactPersonV {
        ContactPersonV {
            ref_id: self.ref_id@,
            description: self.description@,
            first_name: self.first_name@,
            middle_name: self.middle_name@,
            last_name: self.last_name@,
            phones: opt_text_view(self.phones),
            email: opt_text_view(self.email),
        }
    }

    open spec fn spec_decode(j: JsonSpec) -> Option<ContactPersonV> {
        spec_decode_contact_person(j)
    }

    #[verifier::rlimit(30)]
    fn decode_json(v: &serde_json::Value) -> (r: Result<ContactPerson, DecodeError>) {
        let ref_id = f_uuid(v, "Ref")?;
        let description = f_text(v, "Description")?;
        let first_name = f_text(v, "FirstName")?;
        let middle_name = f_text(v, "MiddleName")?;
        let last_name = f_text(v, "LastName")?;
        let phones = f_nullable_text(v, "Phones")?;
        let email = f_nullable_text(v, "Email")?;
        Ok(ContactPerson { ref_id, description, first_name, middle_name, last_name, phones, email })
    }
}

/// Accumulates the parameters of a contact-person listing; the
/// counterparty is mandatory and supplied at construction.
#[derive(Debug, Clone)]
pub struct GetContactPersonsBuilder {
    pub counterparty_ref: CounterpartyID,
    pub page: Option<u16>,
}

/// The parameter object: the counterparty, then the page when set.
pub open spec fn spec_contact_persons_props(b: GetContactPersonsBuilder) -> Seq<char> {
    json_object(
        seq![("CounterpartyRef"@, json_quoted(b.counterparty_ref@))] + opt_piece(
            "Page"@,
            match b.page {
                Some(n) => Some(render_dec(n as nat)),
                None => None,
            },
        ),
    )
}

impl GetContactPersonsBuilder {
    pub fn new(counterparty_ref: CounterpartyID) -> (r: GetContactPersonsBuilder)
        ensures
            r.counterparty_ref@ == counterparty_ref@,
            r.page is None,
    {
        GetContactPersonsBuilder { counterparty_ref, page: None }
    }

    /// Sets the page, leaving the counterparty unchanged.
    pub fn page(self, page: u16) -> (r: GetContactPersonsBuilder)
        ensures
            r == (GetContactPersonsBuilder { page: Some(page), ..self }),
    {
        GetContactPersonsBuilder { page: Some(page), ..self }
    }

    /// Renders the parameter object.
    pub fn properties(&self) -> (r: String)
        ensures
            r@ == spec_contact_persons_props(*self),
    {
        let mut w = ObjWriter::new();
        w.field_quoted("CounterpartyRef", self.counterparty_ref.as_str());
        if let Some(x) = &self.page {
            let t = render_u16(*x);
            w.field_raw("Page", t.as_str());
        }
        proof {
            assert(w.pieces() =~= seq![("CounterpartyRef"@, json_quoted(self.counterparty_ref@))]
                + opt_piece(
                "Page"@,
                match self.page {
                    Some(n) => Some(render_dec(n as nat)),
                    None => None,
                },
            ));
        }
        w.finish()
    }

    /// Finalizes into a wire request under the given key.
    pub fn request(&self, api_key: String) -> (r: NPRequest)
        ensures
            r.api_key@ == api_key@,
            r.model_name@ == "Counterparty"@,
            r.called_method@ == "getCounterpartyContactPersons"@,
            r.method_properties@ == spec_contact_persons_props(*self),
    {
        NPRequest {
            api_key,
            model_name: String::from_str("Counterparty"),
            called_method: String::from_str("getCounterpartyContactPersons"),
            method_properties: self.properties(),
        }
    }
}

} // verus!
