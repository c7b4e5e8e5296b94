//! Shipping-document creation with a typestate builder.
//!
//! Three mandatory slots — the general shipment description, the sender
//! block and the recipient block — each a type-level marker, so the
//! request can be finalized only once all three are supplied, in any
//! order, with no runtime completeness check.

use vstd::prelude::*;

use crate::datetime::{render_date_only, spec_render_date_only, CanonicalDate};
use crate::fields::{
    f_date_only, f_text, f_u16, f_uuid, spec_f_date_only, spec_f_text, spec_f_u16, spec_f_uuid,
    DecodeError,
};
use crate::helper_structs::UuidText;
use crate::json::JsonSpec;
use crate::res_template::JsonDecode;
use crate::helper_structs::{
    cargo_type_wire, counterparty_role_wire, payment_method_wire, service_type_wire, AddressID,
    CargoType, CityID, ContactPersonID, CounterpartyID, CounterpartyRole, PaymentMethod,
    ServiceType,
};
use crate::request::NPRequest;
use crate::scalar::NumText;
use crate::typestate::{apply_fills, distinct_slots, lemma_fill_order_irrelevant};
use crate::text::{render_dec, render_u16};
use crate::writer::{json_object, json_quoted, ObjWriter};

verus! {

/// Ghost value of the filled general slot.
pub struct IDGeneralV {
    pub payer_type: CounterpartyRole,
    pub payment_method: PaymentMethod,
    pub date_time: CanonicalDate,
    pub cargo_type: CargoType,
    pub weight: Seq<char>,
    pub service_type: ServiceType,
    pub seats_amount: u16,
    pub description: Seq<char>,
    pub cost: u16,
}

/// The filled general slot: what the shipment is and how it is paid.
#[derive(Debug, Clone)]
pub struct IDGeneral {
    payer_type: CounterpartyRole,
    payment_method: PaymentMethod,
    date_time: CanonicalDate,
    cargo_type: CargoType,
    weight: NumText,
    service_type: ServiceType,
    seats_amount: u16,
    description: String,
    cost: u16,
}

impl View for IDGeneral {
    type V = IDGeneralV;

    closed spec fn view(&self) -> IDGeneralV {
        IDGeneralV {
            payer_type: self.payer_type,
            payment_method: self.payment_method,
            date_time: self.date_time,
            cargo_type: self.cargo_type,
            weight: self.weight@,
            service_type: self.service_type,
            seats_amount: self.seats_amount,
            description: self.description@,
            cost: self.cost,
        }
    }
}

/// Ghost value of the filled sender slot.
pub struct SenderInfoV {
    pub city_sender: Seq<char>,
    pub sender: Seq<char>,
    pub sender_address: Seq<char>,
    pub contact_sender: Seq<char>,
    pub senders_phone: Seq<char>,
}

/// The filled sender slot.
#[derive(Debug, Clone)]
pub struct SenderInfo {
    city_sender: CityID,
    sender: CounterpartyID,
    sender_address: AddressID,
    contact_sender: ContactPersonID,
    senders_phone: String,
}

impl View for SenderInfo {
    type V = SenderInfoV;

    closed spec fn view(&self) -> SenderInfoV {
        SenderInfoV {
            city_sender: self.city_sender@,
            sender: self.sender@,
            sender_address: self.sender_address@,
            contact_sender: self.contact_sender@,
            senders_phone: self.senders_phone@,
        }
    }
}

/// Ghost value of the filled recipient slot.
pub struct RecepientInfoV {
    pub city_recipient: Seq<char>,
    pub recipient: Seq<char>,
    pub recipient_address: Seq<char>,
    pub recipients_phone: Seq<char>,
    pub contact_recipient: Seq<char>,
}

/// The filled recipient slot.
#[derive(Debug, Clone)]
pub struct RecepientInfo {
    city_recipient: CityID,
    recipient: CounterpartyID,
    recipient_address: AddressID,
    recipients_phone: String,
    contact_recipient: ContactPersonID,
}

impl View for RecepientInfo {
    type V = RecepientInfoV;

    closed spec fn view(&self) -> RecepientInfoV {
        RecepientInfoV {
            city_recipient: self.city_recipient@,
            recipient: self.recipient@,
            recipient_address: self.recipient_address@,
            recipients_phone: self.recipients_phone@,
            contact_recipient: self.contact_recipient@,
        }
    }
}

/// The empty general slot.
#[derive(Debug, Clone, Copy, PartialEq, Eq, Structural)]
pub struct NoGeneralInfo {
}

/// The empty sender slot.
#[derive(Debug, Clone, Copy, PartialEq, Eq, Structural)]
pub struct NoSenderInfo {
}

/// The empty recipient slot.
#[derive(Debug, Clone, Copy, PartialEq, Eq, Structural)]
pub struct NoRecipientInfo {
}

/// The parameter-accumulation state machine for document creation: each
/// type parameter records whether its mandatory slot is still empty or
/// already filled.
#[derive(Debug, Clone)]
pub struct CreateIDocumentBuilder<IDGeneral, SenderInfo, RecepientInfo> {
    general_info: IDGeneral,
    recipient_info: RecepientInfo,
    sender_info: SenderInfo,
}

impl<G, S, R> CreateIDocumentBuilder<G, S, R> {
    pub closed spec fn general_slot(&self) -> G {
        self.general_info
    }

    pub closed spec fn sender_slot(&self) -> S {
        self.sender_info
    }

    pub closed spec fn recipient_slot(&self) -> R {
        self.recipient_info
    }
}

impl CreateIDocumentBuilder<NoGeneralInfo, NoSenderInfo, NoRecipientInfo> {
    /// The initial configuration: every mandatory slot empty.
    pub fn new() -> (r: CreateIDocumentBuilder<NoGeneralInfo, NoSenderInfo, NoRecipientInfo>)
    {
        CreateIDocumentBuilder {
            general_info: NoGeneralInfo {  },
            sender_info: NoSenderInfo {  },
            recipient_info: NoRecipientInfo {  },
        }
    }
}

impl<S, R> CreateIDocumentBuilder<NoGeneralInfo, S, R> {
    /// Fills the general slot, available only while it is empty; the
    /// other slots are unchanged.
    pub fn general_info(
        self,
        payer_type: CounterpartyRole,
        payment_method: PaymentMethod,
        date_time: CanonicalDate,
        cargo_type: CargoType,
        weight: NumText,
        service_type: ServiceType,
        seats_amount: u16,
        description: String,
        cost: u16,
    ) -> (r: CreateIDocumentBuilder<IDGeneral, S, R>)
        requires
            date_time.wf(),
        ensures
            r.general_slot()@ == (IDGeneralV {
                payer_type,
                payment_method,
                date_time,
                cargo_type,
                weight: weight@,
                service_type,
                seats_amount,
                description: description@,
                cost,
            }),
            r.general_slot().date_ok(),
            r.sender_slot() == self.sender_slot(),
            r.recipient_slot() == self.recipient_slot(),
    {
        CreateIDocumentBuilder {
            general_info: IDGeneral {
                payer_type,
                payment_method,
                date_time,
                cargo_type,
                weight,
                seats_amount,
                service_type,
                description,
                cost,
            },
            sender_info: self.sender_info,
            recipient_info: self.recipient_info,
        }
    }
}

impl IDGeneral {
    /// The shipment date is calendar-valid.
    pub open spec fn date_ok(&self) -> bool {
        self@.date_time.wf()
    }
}

impl<G, R> CreateIDocumentBuilder<G, NoSenderInfo, R> {
    /// Fills the sender slot, available only while it is empty; the other
    /// slots are unchanged.
    pub fn sender_info(
        self,
        city_sender: CityID,
        sender: CounterpartyID,
        sender_address: AddressID,
        contact_sender: ContactPersonID,
        senders_phone: String,
    ) -> (r: CreateIDocumentBuilder<G, SenderInfo, R>)
        ensures
            r.sender_slot()@ == (SenderInfoV {
                city_sender: city_sender@,
                sender: sender@,
                sender_address: sender_address@,
                contact_sender: contact_sender@,
                senders_phone: senders_phone@,
            }),
            r.general_slot() == self.general_slot(),
            r.recipient_slot() == self.recipient_slot(),
    {
        CreateIDocumentBuilder {
            general_info: self.general_info,
            sender_info: SenderInfo {
                city_sender,
                sender,
                sender_address,
                senders_phone,
                contact_sender,
            },
            recipient_info: self.recipient_info,
        }
    }
}

impl<G, S> CreateIDocumentBuilder<G, S, NoRecipientInfo> {
    /// Fills the recipient slot, available only while it is empty; the
    /// other slots are unchanged.
    pub fn recipient_info(
        self,
        city_recipient: CityID,
        recipient: CounterpartyID,
        recipient_address: AddressID,
        contact_recipient: ContactPersonID,
        recipients_phone: String,
    ) -> (r: CreateIDocumentBuilder<G, S, RecepientInfo>)
        ensures
            r.recipient_slot()@ == (RecepientInfoV {
                city_recipient: city_recipient@,
                recipient: recipient@,
                recipient_address: recipient_address@,
                recipients_phone: recipients_phone@,
                contact_recipient: contact_recipient@,
            }),
            r.general_slot() == self.general_slot(),
            r.sender_slot() == self.sender_slot(),
    {
        CreateIDocumentBuilder {
            general_info: self.general_info,
            sender_info: self.sender_info,
            recipient_info: RecepientInfo {
                city_recipient,
                recipient,
                recipient_address,
                recipients_phone,
                contact_recipient,
            },
        }
    }
}

/// The parameter object of a complete creation: a function of the slot
/// values alone, so any order of the setter calls yields the same
/// request. Numeric fields go out as decimal strings and the date in the
/// day-month-year dot pattern, as the wire demands.
pub open spec fn spec_idocument_props(g: IDGeneralV, s: SenderInfoV, r: RecepientInfoV) -> Seq<
    char,
> {
    json_object(
        seq![
            ("PayerType"@, json_quoted(counterparty_role_wire(g.payer_type))),
            ("PaymentMethod"@, json_quoted(payment_method_wire(g.payment_method))),
            ("DateTime"@, json_quoted(spec_render_date_only(g.date_time))),
            ("CargoType"@, json_quoted(cargo_type_wire(g.cargo_type))),
            ("Weight"@, json_quoted(g.weight)),
            ("ServiceType"@, json_quoted(service_type_wire(g.service_type))),
            ("SeatsAmount"@, json_quoted(render_dec(g.seats_amount as nat))),
            ("Description"@, json_quoted(g.description)),
            ("Cost"@, json_quoted(render_dec(g.cost as nat))),
            ("CityRecipient"@, json_quoted(r.city_recipient)),
            ("Recipient"@, json_quoted(r.recipient)),
            ("RecipientAddress"@, json_quoted(r.recipient_address)),
            ("RecipientsPhone"@, json_quoted(r.recipients_phone)),
            ("ContactRecipient"@, json_quoted(r.contact_recipient)),
            ("CitySender"@, json_quoted(s.city_sender)),
            ("Sender"@, json_quoted(s.sender)),
            ("SenderAddress"@, json_quoted(s.sender_address)),
            ("ContactSender"@, json_quoted(s.contact_sender)),
            ("SendersPhone"@, json_quoted(s.senders_phone)),
        ],
    )
}

impl CreateIDocumentBuilder<IDGeneral, SenderInfo, RecepientInfo> {
    /// Renders the parameter object; this configuration is the only one
    /// the operation exists on.
    #[verifier::rlimit(60)]
    pub fn properties(&self) -> (r: String)
        requires
            self.general_slot().date_ok(),
        ensures
            r@ == spec_idocument_props(
                self.general_slot()@,
                self.sender_slot()@,
                self.recipient_slot()@,
            ),
    {
        let mut w = ObjWriter::new();
        let payer = self.general_info.payer_type.wire_name();
        w.field_quoted("PayerType", payer.as_str());
        let method = self.general_info.payment_method.wire_name();
        w.field_quoted("PaymentMethod", method.as_str());
        let date = render_date_only(&self.general_info.date_time);
        w.field_quoted("DateTime", date.as_str());
        let cargo = self.general_info.cargo_type.wire_name();
        w.field_quoted("CargoType", cargo.as_str());
        w.field_quoted("Weight", self.general_info.weight.as_str());
        let service = self.general_info.service_type.wire_name();
        w.field_quoted("ServiceType", service.as_str());
        let seats = render_u16(self.general_info.seats_amount);
        w.field_quoted("SeatsAmount", seats.as_str());
        w.field_quoted("Description", self.general_info.description.as_str());
        let cost = render_u16(self.general_info.cost);
        w.field_quoted("Cost", cost.as_str());
        w.field_quoted("CityRecipient", self.recipient_info.city_recipient.as_str());
        w.field_quoted("Recipient", self.recipient_info.recipient.as_str());
        w.field_quoted("RecipientAddress", self.recipient_info.recipient_address.as_str());
        w.field_quoted("RecipientsPhone", self.recipient_info.recipients_phone.as_str());
        w.field_quoted("ContactRecipient", self.recipient_info.contact_recipient.as_str());
        w.field_quoted("CitySender", self.sender_info.city_sender.as_str());
        w.field_quoted("Sender", self.sender_info.sender.as_str());
        w.field_quoted("SenderAddress", self.sender_info.sender_address.as_str());
        w.field_quoted("ContactSender", self.sender_info.contact_sender.as_str());
        w.field_quoted("SendersPhone", self.sender_info.senders_phone.as_str());
        proof {
            assert(w.pieces() =~= seq![
                ("PayerType"@, json_quoted(counterparty_role_wire(self.general_info@.payer_type))),
                (
                    "PaymentMethod"@,
                    json_quoted(payment_method_wire(self.general_info@.payment_method)),
                ),
                ("DateTime"@, json_quoted(spec_render_date_only(self.general_info@.date_time))),
                ("CargoType"@, json_quoted(cargo_type_wire(self.general_info@.cargo_type))),
                ("Weight"@, json_quoted(self.general_info@.weight)),
                ("ServiceType"@, json_quoted(service_type_wire(self.general_info@.service_type))),
                (
                    "SeatsAmount"@,
                    json_quoted(render_dec(self.general_info@.seats_amount as nat)),
                ),
                ("Description"@, json_quoted(self.general_info@.description)),
                ("Cost"@, json_quoted(render_dec(self.general_info@.cost as nat))),
                ("CityRecipient"@, json_quoted(self.recipient_info@.city_recipient)),
                ("Recipient"@, json_quoted(self.recipient_info@.recipient)),
                ("RecipientAddress"@, json_quoted(self.recipient_info@.recipient_address)),
                ("RecipientsPhone"@, json_quoted(self.recipient_info@.recipients_phone)),
                ("ContactRecipient"@, json_quoted(self.recipient_info@.contact_recipient)),
                ("CitySender"@, json_quoted(self.sender_info@.city_sender)),
                ("Sender"@, json_quoted(self.sender_info@.sender)),
                ("SenderAddress"@, json_quoted(self.sender_info@.sender_address)),
                ("ContactSender"@, json_quoted(self.sender_info@.contact_sender)),
                ("SendersPhone"@, json_quoted(self.sender_info@.senders_phone)),
            ]);
        }
        w.finish()
    }

    /// Finalizes into a wire request under the given key.
    pub fn request(&self, api_key: String) -> (r: NPRequest)
        requires
            self.general_slot().date_ok(),
        ensures
            r.api_key@ == api_key@,
            r.model_name@ == "InternetDocument"@,
            r.called_method@ == "save"@,
            r.method_properties@ == spec_idocument_props(
                self.general_slot()@,
                self.sender_slot()@,
                self.recipient_slot()@,
            ),
    {
        NPRequest {
            api_key,
            model_name: String::from_str("InternetDocument"),
            called_method: String::from_str("save"),
            method_properties: self.properties(),
        }
    }
}

/// Ghost value of a created-document record.
pub struct IDocumentV {
    pub ref_id: Seq<char>,
    pub cost_on_site: u16,
    pub estimated_delivery_date: CanonicalDate,
    pub int_doc_number: Seq<char>,
    pub type_document: Seq<char>,
}

/// What the creation endpoint returns for one new document.
#[derive(Debug, Clone)]
pub struct IDocument {
    pub ref_id: UuidText,
    pub cost_on_site: u16,
    pub estimated_delivery_date: CanonicalDate,
    pub int_doc_number: String,
    pub type_document: String,
}

/// What decoding a created-document record demands of each field.
pub open spec fn spec_decode_idocument(j: JsonSpec) -> Option<IDocumentV> {
    if {
        &&& spec_f_uuid(j, "Ref"@) is Some
        &&& spec_f_u16(j, "CostOnSite"@) is Some
        &&& spec_f_date_only(j, "EstimatedDeliveryDate"@) is Some
        &&& spec_f_text(j, "IntDocNumber"@) is Some
        &&& spec_f_text(j, "TypeDocument"@) is Some
    } {
        Some(
            IDocumentV {
                ref_id: spec_f_uuid(j, "Ref"@)->Some_0,
                cost_on_site: spec_f_u16(j, "CostOnSite"@)->Some_0,
                estimated_delivery_date: spec_f_date_only(j, "EstimatedDeliveryDate"@)->Some_0,
                int_doc_number: spec_f_text(j, "IntDocNumber"@)->Some_0,
                type_document: spec_f_text(j, "TypeDocument"@)->Some_0,
            },
        )
    } else {
        None
    }
}

impl JsonDecode for IDocument {
    type SV = IDocumentV;

    open spec fn sview(&self) -> IDocumentV {
        IDocumentV {
            ref_id: self.ref_id@,
            cost_on_site: self.cost_on_site,
            estimated_delivery_date: self.estimated_delivery_date,
            int_doc_number: self.int_doc_number@,
            type_document: self.type_document@,
        }
    }

    open spec fn spec_decode(j: JsonSpec) -> Option<IDocumentV> {
        spec_decode_idocument(j)
    }

    #[verifier::rlimit(30)]
    fn decode_json(v: &serde_json::Value) -> (r: Result<IDocument, DecodeError>) {
        let ref_id = f_uuid(v, "Ref")?;
        let cost_on_site = f_u16(v, "CostOnSite")?;
        let estimated_delivery_date = f_date_only(v, "EstimatedDeliveryDate")?;
        let int_doc_number = f_text(v, "IntDocNumber")?;
        let type_document = f_text(v, "TypeDocument")?;
        Ok(IDocument { ref_id, cost_on_site, estimated_delivery_date, int_doc_number, type_document })
    }
}

/// Entry point for document creation.
pub struct IDocumentHandler {
}

impl IDocumentHandler {
    pub fn new() -> IDocumentHandler {
        IDocumentHandler {  }
    }

    /// Starts a document creation with every mandatory slot unfilled.
    pub fn create_document(&self) -> (r: CreateIDocumentBuilder<
        NoGeneralInfo,
        NoSenderInfo,
        NoRecipientInfo,
    >) {
        CreateIDocumentBuilder::new()
    }
}


/// One filled mandatory slot of a document creation.
pub enum DocumentFill {
    GeneralFill(IDGeneralV),
    SenderFill(SenderInfoV),
    RecipientFill(RecepientInfoV),
}

/// The three fills of a complete document creation, one per mandatory
/// slot: what `general_info`, `sender_info` and `recipient_info`
/// contribute.
pub open spec fn document_fills(g: IDGeneralV, s: SenderInfoV, r: RecepientInfoV) -> Seq<
    (int, DocumentFill),
> {
    seq![
        (0int, DocumentFill::GeneralFill(g)),
        (1int, DocumentFill::SenderFill(s)),
        (2int, DocumentFill::RecipientFill(r)),
    ]
}

/// Any permutation of this builder's three distinct setter calls reaches
/// the one complete configuration determined by the slot values alone.
/// The setters' contracts pin each call to its fill and leave the other
/// slots unchanged, and the complete builder renders
/// `spec_idocument_props`, a function of exactly these values — so every
/// order of the setters yields the identical request.
pub proof fn lemma_document_setters_commute(
    g: IDGeneralV,
    s: SenderInfoV,
    r: RecepientInfoV,
    order: Seq<(int, DocumentFill)>,
)
    requires
        order.to_multiset() == document_fills(g, s, r).to_multiset(),
    ensures
        apply_fills(Map::<int, DocumentFill>::empty(), order) == Map::<
            int,
            DocumentFill,
        >::empty().insert(0, DocumentFill::GeneralFill(g)).insert(
            1,
            DocumentFill::SenderFill(s),
        ).insert(2, DocumentFill::RecipientFill(r)),
{
    let base = document_fills(g, s, r);
    assert(distinct_slots(base)) by {
        assert(base[0].0 == 0 && base[1].0 == 1 && base[2].0 == 2);
    }
    lemma_fill_order_irrelevant(base, order);
    let m0 = Map::<int, DocumentFill>::empty();
    let s1 = seq![(0int, DocumentFill::GeneralFill(g))];
    let s2 = s1.push((1int, DocumentFill::SenderFill(s)));
    assert(base =~= s2.push((2int, DocumentFill::RecipientFill(r))));
    assert(s1.drop_last() =~= Seq::<(int, DocumentFill)>::empty());
    assert(apply_fills(m0, Seq::<(int, DocumentFill)>::empty()) == m0);
    assert(apply_fills(m0, s1) == m0.insert(0, DocumentFill::GeneralFill(g)));
    assert(s2.drop_last() == s1);
    assert(apply_fills(m0, s2) == apply_fills(m0, s1).insert(1, DocumentFill::SenderFill(s)));
    assert(base.drop_last() == s2);
    assert(apply_fills(m0, base) == apply_fills(m0, s2).insert(
        2,
        DocumentFill::RecipientFill(r),
    ));
}

} // verus!
