//! The counterparty endpoint family: creation, listing, addresses and
//! contact persons.

pub mod addresses;
pub mod contact_persons;
pub mod counterparties;
pub mod create;

use vstd::prelude::*;

use crate::fields::{
    f_cp_type, f_nullable_text, f_text, f_uuid, fetch, obj_field, opt_text_view, spec_f_cp_type,
    spec_f_nullable_text, spec_f_text, spec_f_uuid, DecodeError,
};
use crate::helper_structs::{CounterpartyID, CounterpartyType, UuidText};
use crate::json::{is_null, JsonSpec};
use crate::res_template::{
    decode_envelope_value, spec_decode_envelope, EnvelopeV, JsonDecode, ResponseTemplate,
};

use self::addresses::GetAddressesBuilder;
use self::contact_persons::{ContactPerson, ContactPersonV, GetContactPersonsBuilder};
use self::counterparties::GetCounterpartiesBuilder;
use self::create::{CreateCounterpartyBuilder, NoName, NoPhone, NoRole, NoType};

verus! {

/// Ghost value of a decoded counterparty record.
pub struct CounterpartyV {
    pub ref_id: Seq<char>,
    pub description: Seq<char>,
    pub first_name: Seq<char>,
    pub middle_name: Seq<char>,
    pub last_name: Seq<char>,
    pub counterparty: Option<Seq<char>>,
    pub ownership_form: Option<Seq<char>>,
    pub ownership_form_ref: Option<Seq<char>>,
    pub ownership_form_description: Option<Seq<char>>,
    pub edrpou: Option<Seq<char>>,
    pub counterparty_type: CounterpartyType,
    pub contact_person: Option<EnvelopeV<ContactPersonV>>,
    pub city: Option<Seq<char>>,
}

/// One counterparty record; its contact persons arrive, when present, as
/// a whole nested envelope.
#[derive(Debug)]
pub struct Counterparty {
    pub ref_id: UuidText,
    pub description: String,
    pub first_name: String,
    pub middle_name: String,
    pub last_name: String,
    pub counterparty: Option<String>,
    pub ownership_form: Option<String>,
    pub ownership_form_ref: Option<String>,
    pub ownership_form_description: Option<String>,
    pub edrpou: Option<String>,
    pub counterparty_type: CounterpartyType,
    pub contact_person: Option<ResponseTemplate<ContactPerson>>,
    pub city: Option<String>,
}

/// The nested contact-person envelope: null stands for absence, anything
/// else must decode as a whole envelope.
pub open spec fn spec_f_contact_envelope(j: JsonSpec, name: Seq<char>) -> Option<
    Option<EnvelopeV<ContactPersonV>>,
> {
    match obj_field(j, name) {
        Some(JsonSpec::NullJ) => Some(None),
        Some(u) => match spec_decode_envelope::<ContactPerson>(u) {
            Some(env) => Some(Some(env)),
            None => None,
        },
        None => None,
    }
}

/// What decoding a counterparty record demands of each field.
pub open spec fn spec_decode_counterparty(j: JsonSpec) -> Option<CounterpartyV> {
    if {
        &&& spec_f_uuid(j, "Ref"@) is Some
        &&& spec_f_text(j, "Description"@) is Some
        &&& spec_f_text(j, "FirstName"@) is Some
        &&& spec_f_text(j, "MiddleName"@) is Some
        &&& spec_f_text(j, "LastName"@) is Some
        &&& spec_f_nullable_text(j, "Counterparty"@) is Some
        &&& spec_f_nullable_text(j, "OwnershipForm"@) is Some
        &&& spec_f_nullable_text(j, "OwnershipFormRef"@) is Some
        &&& spec_f_nullable_text(j, "OwnershipFormDescription"@) is Some
        &&& spec_f_nullable_text(j, "EDRPOU"@) is Some
        &&& spec_f_cp_type(j, "CounterpartyType"@) is Some
        &&& spec_f_contact_envelope(j, "ContactPerson"@) is Some
        &&& spec_f_nullable_text(j, "City"@) is Some
    } {
        Some(
            CounterpartyV {
                ref_id: spec_f_uuid(j, "Ref"@)->Some_0,
                description: spec_f_text(j, "Description"@)->Some_0,
                first_name: spec_f_text(j, "FirstName"@)->Some_0,
                middle_name: spec_f_text(j, "MiddleName"@)->Some_0,
                last_name: spec_f_text(j, "LastName"@)->Some_0,
                counterparty: spec_f_nullable_text(j, "Counterparty"@)->Some_0,
                ownership_form: spec_f_nullable_text(j, "OwnershipForm"@)->Some_0,
                ownership_form_ref: spec_f_nullable_text(j, "OwnershipFormRef"@)->Some_0,
                ownership_form_description: spec_f_nullable_text(
                    j,
                    "OwnershipFormDescription"@,
                )->Some_0,
                edrpou: spec_f_nullable_text(j, "EDRPOU"@)->Some_0,
                counterparty_type: spec_f_cp_type(j, "CounterpartyType"@)->Some_0,
                contact_person: spec_f_contact_envelope(j, "ContactPerson"@)->Some_0,
                city: spec_f_nullable_text(j, "City"@)->Some_0,
            },
        )
    } else {
        None
    }
}

/// Reads the nested contact-person envelope field.
fn f_contact_envelope(v: &serde_json::Value, name: &str) -> (r: Result<
    Option<ResponseTemplate<ContactPerson>>,
    DecodeError,
>)
    ensures
        r matches Ok(o) ==> (match o {
            Some(env) => spec_f_contact_envelope(crate::json::jv(*v), name@) == Some(Some(env@)),
            None => spec_f_contact_envelope(crate::json::jv(*v), name@) == Some(
                None::<EnvelopeV<ContactPersonV>>,
            ),
        }),
        r is Err <==> spec_f_contact_envelope(crate::json::jv(*v), name@) is None,
{
    let u = fetch(v, name)?;
    if is_null(u) {
        return Ok(None);
    }
    match decode_envelope_value::<ContactPerson>(u) {
        Ok(env) => Ok(Some(env)),
        Err(_) => Err(
            DecodeError::BadShape {
                field: name.to_owned(),
                expected: "a contact-person envelope or null".to_owned(),
            },
        ),
    }
}

impl JsonDecode for Counterparty {
    type SV = CounterpartyV;

    open spec fn sview(&self) -> CounterpartyV {
        CounterpartyV {
            ref_id: self.ref_id@,
            description: self.description@,
            first_name: self.first_name@,
            middle_name: self.middle_name@,
            last_name: self.last_name@,
            counterparty: opt_text_view(self.counterparty),
            ownership_form: opt_text_view(self.ownership_form),
            ownership_form_ref: opt_text_view(self.ownership_form_ref),
            ownership_form_description: opt_text_view(self.ownership_form_description),
            edrpou: opt_text_view(self.edrpou),
            counterparty_type: self.counterparty_type,
            contact_person: match &self.contact_person {
                Some(env) => Some(env@),
                None => None,
            },
            city: opt_text_view(self.city),
        }
    }

    open spec fn spec_decode(j: JsonSpec) -> Option<CounterpartyV> {
        spec_decode_counterparty(j)
    }

    #[verifier::rlimit(60)]
    fn decode_json(v: &serde_json::Value) -> (r: Result<Counterparty, DecodeError>) {
        let ref_id = f_uuid(v, "Ref")?;
        let description = f_text(v, "Description")?;
        let first_name = f_text(v, "FirstName")?;
        let middle_name = f_text(v, "MiddleName")?;
        let last_name = f_text(v, "LastName")?;
        let counterparty = f_nullable_text(v, "Counterparty")?;
        let ownership_form = f_nullable_text(v, "OwnershipForm")?;
        let ownership_form_ref = f_nullable_text(v, "OwnershipFormRef")?;
        let ownership_form_description = f_nullable_text(v, "OwnershipFormDescription")?;
        let edrpou = f_nullable_text(v, "EDRPOU")?;
        let counterparty_type = f_cp_type(v, "CounterpartyType")?;
        let contact_person = f_contact_envelope(v, "ContactPerson")?;
        let city = f_nullable_text(v, "City")?;
        Ok(
            Counterparty {
                ref_id,
                description,
                first_name,
                middle_name,
                last_name,
                counterparty,
                ownership_form,
                ownership_form_ref,
                ownership_form_description,
                edrpou,
                counterparty_type,
                contact_person,
                city,
            },
        )
    }
}

/// Entry point for the counterparty endpoint family.
pub struct CounterpartyHandler {
}

impl CounterpartyHandler {
    pub fn new() -> CounterpartyHandler {
        CounterpartyHandler {  }
    }

    /// Starts an address listing for one counterparty.
    pub fn get_addresses(&self, cp_ref: CounterpartyID) -> (r: GetAddressesBuilder)
        ensures
            r.counterparty_ref@ == cp_ref@,
            r.counterparty_property is None,
    {
        GetAddressesBuilder::new(cp_ref)
    }

    /// Starts a counterparty listing.
    pub fn get_counterparties(&self) -> (r: GetCounterpartiesBuilder)
        ensures
            r == GetCounterpartiesBuilder::initial(),
    {
        GetCounterpartiesBuilder::new()
    }

    /// Starts a contact-person listing for one counterparty.
    pub fn get_contact_persons(&self, cp_ref: CounterpartyID) -> (r: GetContactPersonsBuilder)
        ensures
            r.counterparty_ref@ == cp_ref@,
            r.page is None,
    {
        GetContactPersonsBuilder::new(cp_ref)
    }

    /// Starts a counterparty creation with every mandatory slot unfilled.
    pub fn create_counterparty(&self) -> (r: CreateCounterpartyBuilder<
        NoName,
        NoPhone,
        NoRole,
        NoType,
    >)
        ensures
            r.email_slot() is None,
    {
        CreateCounterpartyBuilder::new()
    }
}

} // verus!
