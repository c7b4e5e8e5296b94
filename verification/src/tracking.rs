//! Document tracking lookups.

use vstd::prelude::*;

use crate::datetime::CanonicalDateTime;
use crate::en::ENumber;
use crate::fields::{
    f_bool, f_cp_role, f_cp_type, f_date_np, f_nullable_num, f_nullable_text, f_nullable_u16,
    f_num_raw, f_num_str, f_opt_date, f_opt_num, f_opt_text, f_opt_text_vec, f_opt_u16,
    f_payment_method, f_service_type, f_text, f_u16, f_u16_str, f_u8, f_uuid, opt_num_view,
    opt_text_view, opt_texts_view, spec_f_bool, spec_f_cp_role, spec_f_cp_type, spec_f_date_np,
    spec_f_nullable_num, spec_f_nullable_text, spec_f_nullable_u16, spec_f_num_raw,
    spec_f_num_str, spec_f_opt_date, spec_f_opt_num, spec_f_opt_text, spec_f_opt_text_vec,
    spec_f_opt_u16, spec_f_payment_method, spec_f_service_type, spec_f_text, spec_f_u16,
    spec_f_u16_str, spec_f_u8, spec_f_uuid, DecodeError,
};
use crate::helper_structs::{
    CounterpartyRole, CounterpartyType, PaymentMethod, ServiceType, UuidText,
};
use crate::json::{jv, JsonSpec};
use crate::request::NPRequest;
use crate::res_template::JsonDecode;
use crate::scalar::NumText;
use crate::writer::{json_array, json_object, json_quoted, ArrWriter, ObjWriter};

verus! {

/// Ghost value of one tracked document entry.
pub struct DocV {
    pub number: Seq<char>,
    pub phone: Seq<char>,
}

/// One entry of a tracking lookup: a validated document number and the
/// phone bound to the shipment, which may be empty.
#[derive(Debug, Clone)]
pub struct Document {
    document_number: ENumber,
    phone: String,
}

impl View for Document {
    type V = DocV;

    closed spec fn view(&self) -> DocV {
        DocV { number: self.document_number@, phone: self.phone@ }
    }
}

/// The wire rendering of one document entry.
pub open spec fn spec_document_json(d: DocV) -> Seq<char> {
    json_object(
        seq![("DocumentNumber"@, json_quoted(d.number)), ("Phone"@, json_quoted(d.phone))],
    )
}

impl Document {
    pub fn new(en: ENumber, phone: String) -> (r: Document)
        ensures
            r@ == (DocV { number: en@, phone: phone@ }),
    {
        Document { document_number: en, phone }
    }

    /// Renders this entry as its wire object.
    pub fn to_json(&self) -> (r: String)
        ensures
            r@ == spec_document_json(self@),
    {
        let mut w = ObjWriter::new();
        w.field_quoted("DocumentNumber", self.document_number.as_str());
        w.field_quoted("Phone", self.phone.as_str());
        proof {
            assert(w.pieces() =~= seq![
                ("DocumentNumber"@, json_quoted(self.document_number@)),
                ("Phone"@, json_quoted(self.phone@)),
            ]);
        }
        w.finish()
    }
}

/// The parameter object of a tracking lookup: the documents, in order.
pub open spec fn spec_track_props(docs: Seq<DocV>) -> Seq<char> {
    json_object(
        seq![("Documents"@, json_array(docs.map(|i: int, d: DocV| spec_document_json(d))))],
    )
}

/// Accumulates the documents of one tracking lookup. Every slot of this
/// request is supplied at construction, so any built value is complete.
#[derive(Debug, Clone)]
pub struct TrackParcelBuilder {
    pub documents: Vec<Document>,
}

impl TrackParcelBuilder {
    /// Starts a lookup for one document.
    pub fn new(en: ENumber, phone_number: String) -> (r: TrackParcelBuilder)
        ensures
            r.documents@.map(|i: int, d: Document| d@) =~= seq![
                DocV { number: en@, phone: phone_number@ },
            ],
    {
        let documents = vec![Document::new(en, phone_number)];
        TrackParcelBuilder { documents }
    }

    /// Adds one more document to the same lookup.
    pub fn add_document(self, en: ENumber, phone_number: String) -> (r: TrackParcelBuilder)
        ensures
            r.documents@.map(|i: int, d: Document| d@) =~= self.documents@.map(
                |i: int, d: Document| d@,
            ).push(DocV { number: en@, phone: phone_number@ }),
    {
        let mut documents = self.documents;
        documents.push(Document::new(en, phone_number));
        proof {
            assert(documents@.map(|i: int, d: Document| d@) =~= documents@.drop_last().map(
                |i: int, d: Document| d@,
            ).push(documents@.last()@));
        }
        TrackParcelBuilder { documents }
    }

    /// Renders the parameter object.
    pub fn properties(&self) -> (r: String)
        ensures
            r@ == spec_track_props(self.documents@.map(|i: int, d: Document| d@)),
    {
        let ghost docs = self.documents@.map(|i: int, d: Document| d@);
        let mut arr = ArrWriter::new();
        let n = self.documents.len();
        let mut i: usize = 0;
        while i < n
            invariant
                0 <= i <= n,
                n == self.documents@.len(),
                docs == self.documents@.map(|k: int, d: Document| d@),
                arr.wf(),
                arr.items() == docs.take(i as int).map(|k: int, d: DocV| spec_document_json(d)),
            decreases n - i,
        {
            let item = self.documents[i].to_json();
            arr.item_raw(item.as_str());
            i += 1;
            proof {
                assert(arr.items() =~= docs.take(i as int).map(
                    |k: int, d: DocV| spec_document_json(d),
                ));
            }
        }
        proof {
            assert(docs.take(n as int) == docs);
        }
        let items = arr.finish();
        let mut w = ObjWriter::new();
        w.field_raw("Documents", items.as_str());
        proof {
            assert(w.pieces() =~= seq![
                ("Documents"@, json_array(docs.map(|k: int, d: DocV| spec_document_json(d)))),
            ]);
        }
        w.finish()
    }

    /// Finalizes into a wire request under the given key.
    pub fn request(&self, api_key: String) -> (r: NPRequest)
        ensures
            r.api_key@ == api_key@,
            r.model_name@ == "TrackingDocument"@,
            r.called_method@ == "getStatusDocuments"@,
            r.method_properties@ == spec_track_props(
                self.documents@.map(|i: int, d: Document| d@),
            ),
    {
        NPRequest {
            api_key,
            model_name: String::from_str("TrackingDocument"),
            called_method: String::from_str("getStatusDocuments"),
            method_properties: self.properties(),
        }
    }
}

/// Entry point for the tracking endpoint family.
pub struct TrackingHandler {
}

impl TrackingHandler {
    pub fn new() -> TrackingHandler {
        TrackingHandler {  }
    }

    /// Starts a tracking lookup for one document.
    pub fn track_parcel(&self, en: ENumber, phone: String) -> (r: TrackParcelBuilder)
        ensures
            r.documents@.map(|i: int, d: Document| d@) =~= seq![DocV { number: en@, phone: phone@ }],
    {
        TrackParcelBuilder::new(en, phone)
    }
}

/// Ghost value of the redelivery block of a tracking record.
pub struct RedeliveryInfoV {
    pub redelivery: u8,
    pub redelivery_sum: Option<Seq<char>>,
    pub redelivery_num: Seq<char>,
    pub redelivery_payer: Option<Seq<char>>,
}

/// The redelivery block of a tracking record; its fields stand flattened on the tracking record.
#[derive(Debug, Clone)]
pub struct RedeliveryInfo {
    pub redelivery: u8,
    pub redelivery_sum: Option<NumText>,
    pub redelivery_num: String,
    pub redelivery_payer: Option<String>,
}

/// What decoding the redelivery block of a tracking record demands of each field.
pub open spec fn spec_decode_redeliveryinfo(j: JsonSpec) -> Option<RedeliveryInfoV> {
    if {
        &&& spec_f_u8(j, "Redelivery"@) is Some
        &&& spec_f_opt_num(j, "RedeliverySum"@) is Some
        &&& spec_f_text(j, "RedeliveryNum"@) is Some
        &&& spec_f_opt_text(j, "RedeliveryPayer"@) is Some
    } {
        Some(
            RedeliveryInfoV {
                redelivery: spec_f_u8(j, "Redelivery"@)->Some_0,
                redelivery_sum: spec_f_opt_num(j, "RedeliverySum"@)->Some_0,
                redelivery_num: spec_f_text(j, "RedeliveryNum"@)->Some_0,
                redelivery_payer: spec_f_opt_text(j, "RedeliveryPayer"@)->Some_0,
            },
        )
    } else {
        None
    }
}

impl JsonDecode for RedeliveryInfo {
    type SV = RedeliveryInfoV;

    open spec fn sview(&self) -> RedeliveryInfoV {
        RedeliveryInfoV {
            redelivery: self.redelivery,
            redelivery_sum: opt_num_view(self.redelivery_sum),
            redelivery_num: self.redelivery_num@,
            redelivery_payer: opt_text_view(self.redelivery_payer),
        }
    }

    open spec fn spec_decode(j: JsonSpec) -> Option<RedeliveryInfoV> {
        spec_decode_redeliveryinfo(j)
    }

    #[verifier::rlimit(40)]
    fn decode_json(v: &serde_json::Value) -> (r: Result<RedeliveryInfo, DecodeError>) {
        let redelivery = f_u8(v, "Redelivery")?;
        let redelivery_sum = f_opt_num(v, "RedeliverySum")?;
        let redelivery_num = f_text(v, "RedeliveryNum")?;
        let redelivery_payer = f_opt_text(v, "RedeliveryPayer")?;
        Ok(
            RedeliveryInfo {
                redelivery,
                redelivery_sum,
                redelivery_num,
                redelivery_payer,
            },
        )
    }
}

/// Ghost value of the recipient block of a tracking record.
pub struct RecipientInfoV {
    pub recipient_full_name: Seq<char>,
    pub recipient_date_time: Option<CanonicalDateTime>,
    pub phone_recipient: Seq<char>,
    pub recipient_full_name_e_w: Option<Seq<char>>,
    pub city_recipient: Seq<char>,
    pub warehouse_recipient: Seq<char>,
    pub warehouse_recipient_internet_address_ref: Seq<char>,
    pub recipient_address: Seq<char>,
    pub counterparty_recipient_description: Option<Seq<char>>,
    pub ref_settlement_recipient: Seq<char>,
    pub ref_city_recipient: Seq<char>,
    pub recipient_warehouse_type_ref: Seq<char>,
    pub warehouse_recipient_ref: Seq<char>,
    pub loyalty_card_recipient: Option<Seq<char>>,
    pub warehouse_recipient_number: Option<u16>,
    pub category_of_warehouse: Seq<char>,
    pub warehouse_recipient_address: Seq<char>,
}

/// The recipient block of a tracking record; its fields stand flattened on the tracking record.
#[derive(Debug, Clone)]
pub struct RecipientInfo {
    pub recipient_full_name: String,
    pub recipient_date_time: Option<CanonicalDateTime>,
    pub phone_recipient: String,
    pub recipient_full_name_e_w: Option<String>,
    pub city_recipient: String,
    pub warehouse_recipient: String,
    pub warehouse_recipient_internet_address_ref: UuidText,
    pub recipient_address: String,
    pub counterparty_recipient_description: Option<String>,
    pub ref_settlement_recipient: UuidText,
    pub ref_city_recipient: UuidText,
    pub recipient_warehouse_type_ref: UuidText,
    pub warehouse_recipient_ref: UuidText,
    pub loyalty_card_recipient: Option<String>,
    pub warehouse_recipient_number: Option<u16>,
    pub category_of_warehouse: String,
    pub warehouse_recipient_address: String,
}

/// What decoding the recipient block of a tracking record demands of each field.
pub open spec fn spec_decode_recipientinfo(j: JsonSpec) -> Option<RecipientInfoV> {
    if {
        &&& spec_f_text(j, "RecipientFullName"@) is Some
        &&& spec_f_opt_date(j, "RecipientDateTime"@) is Some
        &&& spec_f_text(j, "PhoneRecipient"@) is Some
        &&& spec_f_opt_text(j, "RecipientFullNameEW"@) is Some
        &&& spec_f_text(j, "CityRecipient"@) is Some
        &&& spec_f_text(j, "WarehouseRecipient"@) is Some
        &&& spec_f_uuid(j, "WarehouseRecipientInternetAddressRef"@) is Some
        &&& spec_f_text(j, "RecipientAddress"@) is Some
        &&& spec_f_opt_text(j, "CounterpartyRecipientDescription"@) is Some
        &&& spec_f_uuid(j, "RefSettlementRecipient"@) is Some
        &&& spec_f_uuid(j, "RefCityRecipient"@) is Some
        &&& spec_f_uuid(j, "RecipientWarehouseTypeRef"@) is Some
        &&& spec_f_uuid(j, "WarehouseRecipientRef"@) is Some
        &&& spec_f_opt_text(j, "LoyaltyCardRecipient"@) is Some
        &&& spec_f_nullable_u16(j, "WarehouseRecipientNumber"@) is Some
        &&& spec_f_text(j, "CategoryOfWarehouse"@) is Some
        &&& spec_f_text(j, "WarehouseRecipientAddress"@) is Some
    } {
        Some(
            RecipientInfoV {
                recipient_full_name: spec_f_text(j, "RecipientFullName"@)->Some_0,
                recipient_date_time: spec_f_opt_date(j, "RecipientDateTime"@)->Some_0,
                phone_recipient: spec_f_text(j, "PhoneRecipient"@)->Some_0,
                recipient_full_name_e_w: spec_f_opt_text(j, "RecipientFullNameEW"@)->Some_0,
                city_recipient: spec_f_text(j, "CityRecipient"@)->Some_0,
                warehouse_recipient: spec_f_text(j, "WarehouseRecipient"@)->Some_0,
                warehouse_recipient_internet_address_ref: spec_f_uuid(j, "WarehouseRecipientInternetAddressRef"@)->Some_0,
                recipient_address: spec_f_text(j, "RecipientAddress"@)->Some_0,
                counterparty_recipient_description: spec_f_opt_text(j, "CounterpartyRecipientDescription"@)->Some_0,
                ref_settlement_recipient: spec_f_uuid(j, "RefSettlementRecipient"@)->Some_0,
                ref_city_recipient: spec_f_uuid(j, "RefCityRecipient"@)->Some_0,
                recipient_warehouse_type_ref: spec_f_uuid(j, "RecipientWarehouseTypeRef"@)->Some_0,
                warehouse_recipient_ref: spec_f_uuid(j, "WarehouseRecipientRef"@)->Some_0,
                loyalty_card_recipient: spec_f_opt_text(j, "LoyaltyCardRecipient"@)->Some_0,
                warehouse_recipient_number: spec_f_nullable_u16(j, "WarehouseRecipientNumber"@)->Some_0,
                category_of_warehouse: spec_f_text(j, "CategoryOfWarehouse"@)->Some_0,
                warehouse_recipient_address: spec_f_text(j, "WarehouseRecipientAddress"@)->Some_0,
            },
        )
    } else {
        None
    }
}

impl JsonDecode for RecipientInfo {
    type SV = RecipientInfoV;

    open spec fn sview(&self) -> RecipientInfoV {
        RecipientInfoV {
            recipient_full_name: self.recipient_full_name@,
            recipient_date_time: self.recipient_date_time,
            phone_recipient: self.phone_recipient@,
            recipient_full_name_e_w: opt_text_view(self.recipient_full_name_e_w),
            city_recipient: self.city_recipient@,
            warehouse_recipient: self.warehouse_recipient@,
            warehouse_recipient_internet_address_ref: self.warehouse_recipient_internet_address_ref@,
            recipient_address: self.recipient_address@,
            counterparty_recipient_description: opt_text_view(self.counterparty_recipient_description),
            ref_settlement_recipient: self.ref_settlement_recipient@,
            ref_city_recipient: self.ref_city_recipient@,
            recipient_warehouse_type_ref: self.recipient_warehouse_type_ref@,
            warehouse_recipient_ref: self.warehouse_recipient_ref@,
            loyalty_card_recipient: opt_text_view(self.loyalty_card_recipient),
            warehouse_recipient_number: self.warehouse_recipient_number,
            category_of_warehouse: self.category_of_warehouse@,
            warehouse_recipient_address: self.warehouse_recipient_address@,
        }
    }

    open spec fn spec_decode(j: JsonSpec) -> Option<RecipientInfoV> {
        spec_decode_recipientinfo(j)
    }

    #[verifier::rlimit(100)]
    fn decode_json(v: &serde_json::Value) -> (r: Result<RecipientInfo, DecodeError>) {
        let recipient_full_name = f_text(v, "RecipientFullName")?;
        let recipient_date_time = f_opt_date(v, "RecipientDateTime")?;
        let phone_recipient = f_text(v, "PhoneRecipient")?;
        let recipient_full_name_e_w = f_opt_text(v, "RecipientFullNameEW")?;
        let city_recipient = f_text(v, "CityRecipient")?;
        let warehouse_recipient = f_text(v, "WarehouseRecipient")?;
        let warehouse_recipient_internet_address_ref = f_uuid(v, "WarehouseRecipientInternetAddressRef")?;
        let recipient_address = f_text(v, "RecipientAddress")?;
        let counterparty_recipient_description = f_opt_text(v, "CounterpartyRecipientDescription")?;
        let ref_settlement_recipient = f_uuid(v, "RefSettlementRecipient")?;
        let ref_city_recipient = f_uuid(v, "RefCityRecipient")?;
        let recipient_warehouse_type_ref = f_uuid(v, "RecipientWarehouseTypeRef")?;
        let warehouse_recipient_ref = f_uuid(v, "WarehouseRecipientRef")?;
        let loyalty_card_recipient = f_opt_text(v, "LoyaltyCardRecipient")?;
        let warehouse_recipient_number = f_nullable_u16(v, "WarehouseRecipientNumber")?;
        let category_of_warehouse = f_text(v, "CategoryOfWarehouse")?;
        let warehouse_recipient_address = f_text(v, "WarehouseRecipientAddress")?;
        Ok(
            RecipientInfo {
                recipient_full_name,
                recipient_date_time,
                phone_recipient,
                recipient_full_name_e_w,
                city_recipient,
                warehouse_recipient,
                warehouse_recipient_internet_address_ref,
                recipient_address,
                counterparty_recipient_description,
                ref_settlement_recipient,
                ref_city_recipient,
                recipient_warehouse_type_ref,
                warehouse_recipient_ref,
                loyalty_card_recipient,
                warehouse_recipient_number,
                category_of_warehouse,
                warehouse_recipient_address,
            },
        )
    }
}

/// Ghost value of the payment block of a tracking record.
pub struct PaymentInfoV {
    pub payer_type: CounterpartyRole,
    pub payment_status: Option<Seq<char>>,
    pub afterpayment_on_goods_cost: Option<Seq<char>>,
    pub payment_status_date: Option<CanonicalDateTime>,
    pub amount_to_pay: Option<Seq<char>>,
    pub amount_paid: Option<Seq<char>>,
    pub secure_payment: bool,
    pub payment_method: PaymentMethod,
    pub announced_price: Option<Seq<char>>,
    pub possibility_change_cash_2_card: bool,
}

/// The payment block of a tracking record; its fields stand flattened on the tracking record.
#[derive(Debug, Clone)]
pub struct PaymentInfo {
    pub payer_type: CounterpartyRole,
    pub payment_status: Option<String>,
    pub afterpayment_on_goods_cost: Option<NumText>,
    pub payment_status_date: Option<CanonicalDateTime>,
    pub amount_to_pay: Option<NumText>,
    pub amount_paid: Option<NumText>,
    pub secure_payment: bool,
    pub payment_method: PaymentMethod,
    pub announced_price: Option<NumText>,
    pub possibility_change_cash_2_card: bool,
}

/// What decoding the payment block of a tracking record demands of each field.
pub open spec fn spec_decode_paymentinfo(j: JsonSpec) -> Option<PaymentInfoV> {
    if {
        &&& spec_f_cp_role(j, "PayerType"@) is Some
        &&& spec_f_opt_text(j, "PaymentStatus"@) is Some
        &&& spec_f_opt_num(j, "AfterpaymentOnGoodsCost"@) is Some
        &&& spec_f_opt_date(j, "PaymentStatusDate"@) is Some
        &&& spec_f_opt_num(j, "AmountToPay"@) is Some
        &&& spec_f_opt_num(j, "AmountPaid"@) is Some
        &&& spec_f_bool(j, "SecurePayment"@) is Some
        &&& spec_f_payment_method(j, "PaymentMethod"@) is Some
        &&& spec_f_opt_num(j, "AnnouncedPrice"@) is Some
        &&& spec_f_bool(j, "PossibilityChangeCash2Card"@) is Some
    } {
        Some(
            PaymentInfoV {
                payer_type: spec_f_cp_role(j, "PayerType"@)->Some_0,
                payment_status: spec_f_opt_text(j, "PaymentStatus"@)->Some_0,
                afterpayment_on_goods_cost: spec_f_opt_num(j, "AfterpaymentOnGoodsCost"@)->Some_0,
                payment_status_date: spec_f_opt_date(j, "PaymentStatusDate"@)->Some_0,
                amount_to_pay: spec_f_opt_num(j, "AmountToPay"@)->Some_0,
                amount_paid: spec_f_opt_num(j, "AmountPaid"@)->Some_0,
                secure_payment: spec_f_bool(j, "SecurePayment"@)->Some_0,
                payment_method: spec_f_payment_method(j, "PaymentMethod"@)->Some_0,
                announced_price: spec_f_opt_num(j, "AnnouncedPrice"@)->Some_0,
                possibility_change_cash_2_card: spec_f_bool(j, "PossibilityChangeCash2Card"@)->Some_0,
            },
        )
    } else {
        None
    }
}

impl JsonDecode for PaymentInfo {
    type SV = PaymentInfoV;

    open spec fn sview(&self) -> PaymentInfoV {
        PaymentInfoV {
            payer_type: self.payer_type,
            payment_status: opt_text_view(self.payment_status),
            afterpayment_on_goods_cost: opt_num_view(self.afterpayment_on_goods_cost),
            payment_status_date: self.payment_status_date,
            amount_to_pay: opt_num_view(self.amount_to_pay),
            amount_paid: opt_num_view(self.amount_paid),
            secure_payment: self.secure_payment,
            payment_method: self.payment_method,
            announced_price: opt_num_view(self.announced_price),
            possibility_change_cash_2_card: self.possibility_change_cash_2_card,
        }
    }

    open spec fn spec_decode(j: JsonSpec) -> Option<PaymentInfoV> {
        spec_decode_paymentinfo(j)
    }

    #[verifier::rlimit(60)]
    fn decode_json(v: &serde_json::Value) -> (r: Result<PaymentInfo, DecodeError>) {
        let payer_type = f_cp_role(v, "PayerType")?;
        let payment_status = f_opt_text(v, "PaymentStatus")?;
        let afterpayment_on_goods_cost = f_opt_num(v, "AfterpaymentOnGoodsCost")?;
        let payment_status_date = f_opt_date(v, "PaymentStatusDate")?;
        let amount_to_pay = f_opt_num(v, "AmountToPay")?;
        let amount_paid = f_opt_num(v, "AmountPaid")?;
        let secure_payment = f_bool(v, "SecurePayment")?;
        let payment_method = f_payment_method(v, "PaymentMethod")?;
        let announced_price = f_opt_num(v, "AnnouncedPrice")?;
        let possibility_change_cash_2_card = f_bool(v, "PossibilityChangeCash2Card")?;
        Ok(
            PaymentInfo {
                payer_type,
                payment_status,
                afterpayment_on_goods_cost,
                payment_status_date,
                amount_to_pay,
                amount_paid,
                secure_payment,
                payment_method,
                announced_price,
                possibility_change_cash_2_card,
            },
        )
    }
}

/// One slice of a tracking record, decoded as a unit.
struct TrackSliceA {
    possibility_create_return: bool,
    possibility_create_refusal: bool,
    possibility_change_e_w: bool,
    possibility_create_redirecting: bool,
    number: String,
    owner_document_type: Option<String>,
    last_created_on_the_basis_document_type: Option<String>,
    last_created_on_the_basis_payer_type: Option<String>,
    last_created_on_the_basis_date_time: Option<String>,
    last_transaction_status_g_m: Option<String>,
    last_transaction_date_time_g_m: Option<String>,
    last_amount_transfer_g_m: Option<String>,
    date_created: CanonicalDateTime,
    document_weight: NumText,
    factual_weight: NumText,
    volume_weight: NumText,
    check_weight: NumText,
    check_weight_method: Option<String>,
    document_cost: NumText,
}

/// Every field of this slice decodes.
pub open spec fn spec_track_a_ok(j: JsonSpec) -> bool {
    &&& spec_f_bool(j, "PossibilityCreateReturn"@) is Some
    &&& spec_f_bool(j, "PossibilityCreateRefusal"@) is Some
    &&& spec_f_bool(j, "PossibilityChangeEW"@) is Some
    &&& spec_f_bool(j, "PossibilityCreateRedirecting"@) is Some
    &&& spec_f_text(j, "Number"@) is Some
    &&& spec_f_opt_text(j, "OwnerDocumentType"@) is Some
    &&& spec_f_opt_text(j, "LastCreatedOnTheBasisDocumentType"@) is Some
    &&& spec_f_opt_text(j, "LastCreatedOnTheBasisPayerType"@) is Some
    &&& spec_f_opt_text(j, "LastCreatedOnTheBasisDateTime"@) is Some
    &&& spec_f_opt_text(j, "LastTransactionStatusGM"@) is Some
    &&& spec_f_opt_text(j, "LastTransactionDateTimeGM"@) is Some
    &&& spec_f_opt_text(j, "LastAmountTransferGM"@) is Some
    &&& spec_f_date_np(j, "DateCreated"@) is Some
    &&& spec_f_num_raw(j, "DocumentWeight"@) is Some
    &&& spec_f_num_str(j, "FactualWeight"@) is Some
    &&& spec_f_num_str(j, "VolumeWeight"@) is Some
    &&& spec_f_num_raw(j, "CheckWeight"@) is Some
    &&& spec_f_opt_text(j, "CheckWeightMethod"@) is Some
    &&& spec_f_num_str(j, "DocumentCost"@) is Some
}

#[verifier::rlimit(100)]
fn decode_track_a(v: &serde_json::Value) -> (r: Result<TrackSliceA, DecodeError>)
    ensures
        r matches Ok(p) ==> spec_track_a_ok(jv(*v)) && {
            &&& p.possibility_create_return == spec_f_bool(jv(*v), "PossibilityCreateReturn"@)->Some_0
            &&& p.possibility_create_refusal == spec_f_bool(jv(*v), "PossibilityCreateRefusal"@)->Some_0
            &&& p.possibility_change_e_w == spec_f_bool(jv(*v), "PossibilityChangeEW"@)->Some_0
            &&& p.possibility_create_redirecting == spec_f_bool(jv(*v), "PossibilityCreateRedirecting"@)->Some_0
            &&& p.number@ == spec_f_text(jv(*v), "Number"@)->Some_0
            &&& opt_text_view(p.owner_document_type) == spec_f_opt_text(jv(*v), "OwnerDocumentType"@)->Some_0
            &&& opt_text_view(p.last_created_on_the_basis_document_type) == spec_f_opt_text(jv(*v), "LastCreatedOnTheBasisDocumentType"@)->Some_0
            &&& opt_text_view(p.last_created_on_the_basis_payer_type) == spec_f_opt_text(jv(*v), "LastCreatedOnTheBasisPayerType"@)->Some_0
            &&& opt_text_view(p.last_created_on_the_basis_date_time) == spec_f_opt_text(jv(*v), "LastCreatedOnTheBasisDateTime"@)->Some_0
            &&& opt_text_view(p.last_transaction_status_g_m) == spec_f_opt_text(jv(*v), "LastTransactionStatusGM"@)->Some_0
            &&& opt_text_view(p.last_transaction_date_time_g_m) == spec_f_opt_text(jv(*v), "LastTransactionDateTimeGM"@)->Some_0
            &&& opt_text_view(p.last_amount_transfer_g_m) == spec_f_opt_text(jv(*v), "LastAmountTransferGM"@)->Some_0
            &&& p.date_created == spec_f_date_np(jv(*v), "DateCreated"@)->Some_0
            &&& p.document_weight@ == spec_f_num_raw(jv(*v), "DocumentWeight"@)->Some_0
            &&& p.factual_weight@ == spec_f_num_str(jv(*v), "FactualWeight"@)->Some_0
            &&& p.volume_weight@ == spec_f_num_str(jv(*v), "VolumeWeight"@)->Some_0
            &&& p.check_weight@ == spec_f_num_raw(jv(*v), "CheckWeight"@)->Some_0
            &&& opt_text_view(p.check_weight_method) == spec_f_opt_text(jv(*v), "CheckWeightMethod"@)->Some_0
            &&& p.document_cost@ == spec_f_num_str(jv(*v), "DocumentCost"@)->Some_0
        },
        r is Err <==> !spec_track_a_ok(jv(*v)),
{
    let possibility_create_return = f_bool(v, "PossibilityCreateReturn")?;
    let possibility_create_refusal = f_bool(v, "PossibilityCreateRefusal")?;
    let possibility_change_e_w = f_bool(v, "PossibilityChangeEW")?;
    let possibility_create_redirecting = f_bool(v, "PossibilityCreateRedirecting")?;
    let number = f_text(v, "Number")?;
    let owner_document_type = f_opt_text(v, "OwnerDocumentType")?;
    let last_created_on_the_basis_document_type = f_opt_text(v, "LastCreatedOnTheBasisDocumentType")?;
    let last_created_on_the_basis_payer_type = f_opt_text(v, "LastCreatedOnTheBasisPayerType")?;
    let last_created_on_the_basis_date_time = f_opt_text(v, "LastCreatedOnTheBasisDateTime")?;
    let last_transaction_status_g_m = f_opt_text(v, "LastTransactionStatusGM")?;
    let last_transaction_date_time_g_m = f_opt_text(v, "LastTransactionDateTimeGM")?;
    let last_amount_transfer_g_m = f_opt_text(v, "LastAmountTransferGM")?;
    let date_created = f_date_np(v, "DateCreated")?;
    let document_weight = f_num_raw(v, "DocumentWeight")?;
    let factual_weight = f_num_str(v, "FactualWeight")?;
    let volume_weight = f_num_str(v, "VolumeWeight")?;
    let check_weight = f_num_raw(v, "CheckWeight")?;
    let check_weight_method = f_opt_text(v, "CheckWeightMethod")?;
    let document_cost = f_num_str(v, "DocumentCost")?;
    Ok(
    TrackSliceA {
        possibility_create_return,
        possibility_create_refusal,
        possibility_change_e_w,
        possibility_create_redirecting,
        number,
        owner_document_type,
        last_created_on_the_basis_document_type,
        last_created_on_the_basis_payer_type,
        last_created_on_the_basis_date_time,
        last_transaction_status_g_m,
        last_transaction_date_time_g_m,
        last_amount_transfer_g_m,
        date_created,
        document_weight,
        factual_weight,
        volume_weight,
        check_weight,
        check_weight_method,
        document_cost,
    },
    )
}

/// One slice of a tracking record, decoded as a unit.
struct TrackSliceB {
    calculated_weight: Option<String>,
    sum_before_check_weight: Option<NumText>,
    scheduled_delivery_date: Option<CanonicalDateTime>,
    cargo_description_string: String,
    cargo_type: String,
    counterparty_type: CounterpartyType,
    service_type: ServiceType,
    undelivery_reasons_subtype_description: Option<String>,
    last_created_on_the_basis_number: Option<String>,
    marketplace_partner_token: Option<String>,
    client_barcode: Option<String>,
    date_scan: Option<CanonicalDateTime>,
    status: Option<String>,
    status_code: Option<String>,
    ref_e_w: UuidText,
    backward_delivery_sub_types_actions: Option<String>,
    backward_delivery_sub_types_services: Option<String>,
    date_payed_keeping: Option<CanonicalDateTime>,
    international_delivery_type: Option<String>,
}

/// Every field of this slice decodes.
pub open spec fn spec_track_b_ok(j: JsonSpec) -> bool {
    &&& spec_f_opt_text(j, "CalculatedWeight"@) is Some
    &&& spec_f_nullable_num(j, "SumBeforeCheckWeight"@) is Some
    &&& spec_f_opt_date(j, "ScheduledDeliveryDate"@) is Some
    &&& spec_f_text(j, "CargoDescriptionString"@) is Some
    &&& spec_f_text(j, "CargoType"@) is Some
    &&& spec_f_cp_type(j, "CounterpartyType"@) is Some
    &&& spec_f_service_type(j, "ServiceType"@) is Some
    &&& spec_f_opt_text(j, "UndeliveryReasonsSubtypeDescription"@) is Some
    &&& spec_f_opt_text(j, "LastCreatedOnTheBasisNumber"@) is Some
    &&& spec_f_opt_text(j, "MarketplacePartnerToken"@) is Some
    &&& spec_f_opt_text(j, "ClientBarcode"@) is Some
    &&& spec_f_opt_date(j, "DateScan"@) is Some
    &&& spec_f_nullable_text(j, "Status"@) is Some
    &&& spec_f_nullable_text(j, "StatusCode"@) is Some
    &&& spec_f_uuid(j, "RefEW"@) is Some
    &&& spec_f_nullable_text(j, "BackwardDeliverySubTypesActions"@) is Some
    &&& spec_f_nullable_text(j, "BackwardDeliverySubTypesServices"@) is Some
    &&& spec_f_opt_date(j, "DatePayedKeeping"@) is Some
    &&& spec_f_opt_text(j, "InternationalDeliveryType"@) is Some
}

#[verifier::rlimit(100)]
fn decode_track_b(v: &serde_json::Value) -> (r: Result<TrackSliceB, DecodeError>)
    ensures
        r matches Ok(p) ==> spec_track_b_ok(jv(*v)) && {
            &&& opt_text_view(p.calculated_weight) == spec_f_opt_text(jv(*v), "CalculatedWeight"@)->Some_0
            &&& opt_num_view(p.sum_before_check_weight) == spec_f_nullable_num(jv(*v), "SumBeforeCheckWeight"@)->Some_0
            &&& p.scheduled_delivery_date == spec_f_opt_date(jv(*v), "ScheduledDeliveryDate"@)->Some_0
            &&& p.cargo_description_string@ == spec_f_text(jv(*v), "CargoDescriptionString"@)->Some_0
            &&& p.cargo_type@ == spec_f_text(jv(*v), "CargoType"@)->Some_0
            &&& p.counterparty_type == spec_f_cp_type(jv(*v), "CounterpartyType"@)->Some_0
            &&& p.service_type == spec_f_service_type(jv(*v), "ServiceType"@)->Some_0
            &&& opt_text_view(p.undelivery_reasons_subtype_description) == spec_f_opt_text(jv(*v), "UndeliveryReasonsSubtypeDescription"@)->Some_0
            &&& opt_text_view(p.last_created_on_the_basis_number) == spec_f_opt_text(jv(*v), "LastCreatedOnTheBasisNumber"@)->Some_0
            &&& opt_text_view(p.marketplace_partner_token) == spec_f_opt_text(jv(*v), "MarketplacePartnerToken"@)->Some_0
            &&& opt_text_view(p.client_barcode) == spec_f_opt_text(jv(*v), "ClientBarcode"@)->Some_0
            &&& p.date_scan == spec_f_opt_date(jv(*v), "DateScan"@)->Some_0
            &&& opt_text_view(p.status) == spec_f_nullable_text(jv(*v), "Status"@)->Some_0
            &&& opt_text_view(p.status_code) == spec_f_nullable_text(jv(*v), "StatusCode"@)->Some_0
            &&& p.ref_e_w@ == spec_f_uuid(jv(*v), "RefEW"@)->Some_0
            &&& opt_text_view(p.backward_delivery_sub_types_actions) == spec_f_nullable_text(jv(*v), "BackwardDeliverySubTypesActions"@)->Some_0
            &&& opt_text_view(p.backward_delivery_sub_types_services) == spec_f_nullable_text(jv(*v), "BackwardDeliverySubTypesServices"@)->Some_0
            &&& p.date_payed_keeping == spec_f_opt_date(jv(*v), "DatePayedKeeping"@)->Some_0
            &&& opt_text_view(p.international_delivery_type) == spec_f_opt_text(jv(*v), "InternationalDeliveryType"@)->Some_0
        },
        r is Err <==> !spec_track_b_ok(jv(*v)),
{
    let calculated_weight = f_opt_text(v, "CalculatedWeight")?;
    let sum_before_check_weight = f_nullable_num(v, "SumBeforeCheckWeight")?;
    let scheduled_delivery_date = f_opt_date(v, "ScheduledDeliveryDate")?;
    let cargo_description_string = f_text(v, "CargoDescriptionString")?;
    let cargo_type = f_text(v, "CargoType")?;
    let counterparty_type = f_cp_type(v, "CounterpartyType")?;
    let service_type = f_service_type(v, "ServiceType")?;
    let undelivery_reasons_subtype_description = f_opt_text(v, "UndeliveryReasonsSubtypeDescription")?;
    let last_created_on_the_basis_number = f_opt_text(v, "LastCreatedOnTheBasisNumber")?;
    let marketplace_partner_token = f_opt_text(v, "MarketplacePartnerToken")?;
    let client_barcode = f_opt_text(v, "ClientBarcode")?;
    let date_scan = f_opt_date(v, "DateScan")?;
    let status = f_nullable_text(v, "Status")?;
    let status_code = f_nullable_text(v, "StatusCode")?;
    let ref_e_w = f_uuid(v, "RefEW")?;
    let backward_delivery_sub_types_actions = f_nullable_text(v, "BackwardDeliverySubTypesActions")?;
    let backward_delivery_sub_types_services = f_nullable_text(v, "BackwardDeliverySubTypesServices")?;
    let date_payed_keeping = f_opt_date(v, "DatePayedKeeping")?;
    let international_delivery_type = f_opt_text(v, "InternationalDeliveryType")?;
    Ok(
    TrackSliceB {
        calculated_weight,
        sum_before_check_weight,
        scheduled_delivery_date,
        cargo_description_string,
        cargo_type,
        counterparty_type,
        service_type,
        undelivery_reasons_subtype_description,
        last_created_on_the_basis_number,
        marketplace_partner_token,
        client_barcode,
        date_scan,
        status,
        status_code,
        ref_e_w,
        backward_delivery_sub_types_actions,
        backward_delivery_sub_types_services,
        date_payed_keeping,
        international_delivery_type,
    },
    )
}

/// One slice of a tracking record, decoded as a unit.
struct TrackSliceC {
    seats_amount: u16,
    card_masked_number: Option<String>,
    express_waybill_payment_status: String,
    express_waybill_amount_to_pay: Option<NumText>,
    tracking_update_date: Option<CanonicalDateTime>,
    date_return_cargo: Option<String>,
    date_moving: Option<CanonicalDateTime>,
    date_first_day_storage: Option<CanonicalDateTime>,
    additional_information_e_w: Option<String>,
    actual_delivery_date: Option<CanonicalDateTime>,
    postomat_v3_cell_reservation_number: bool,
    owner_document_number: Option<String>,
    last_amount_received_commission_g_m: Option<NumText>,
    delivery_timeframe: Option<String>,
    created_on_the_basis: Option<String>,
    undelivery_reasons_date: Option<CanonicalDateTime>,
    avia_delivery: u16,
    barcode_red_box: Option<String>,
    cargo_return_refusal: bool,
    days_storage_cargo: Option<u16>,
    packaging: Option<Vec<String>>,
    partial_return_goods: Option<Vec<String>>,
    storage_amount: Option<u16>,
    storage_price: Option<NumText>,
    free_shipping: Option<String>,
}

/// Every field of this slice decodes.
pub open spec fn spec_track_c_ok(j: JsonSpec) -> bool {
    &&& spec_f_u16_str(j, "SeatsAmount"@) is Some
    &&& spec_f_opt_text(j, "CardMaskedNumber"@) is Some
    &&& spec_f_text(j, "ExpressWaybillPaymentStatus"@) is Some
    &&& spec_f_opt_num(j, "ExpressWaybillAmountToPay"@) is Some
    &&& spec_f_opt_date(j, "TrackingUpdateDate"@) is Some
    &&& spec_f_nullable_text(j, "DateReturnCargo"@) is Some
    &&& spec_f_opt_date(j, "DateMoving"@) is Some
    &&& spec_f_opt_date(j, "DateFirstDayStorage"@) is Some
    &&& spec_f_opt_text(j, "AdditionalInformationEW"@) is Some
    &&& spec_f_opt_date(j, "ActualDeliveryDate"@) is Some
    &&& spec_f_bool(j, "PostomatV3CellReservationNumber"@) is Some
    &&& spec_f_opt_text(j, "OwnerDocumentNumber"@) is Some
    &&& spec_f_nullable_num(j, "LastAmountReceivedCommissionGM"@) is Some
    &&& spec_f_opt_text(j, "DeliveryTimeframe"@) is Some
    &&& spec_f_opt_text(j, "CreatedOnTheBasis"@) is Some
    &&& spec_f_opt_date(j, "UndeliveryReasonsDate"@) is Some
    &&& spec_f_u16(j, "AviaDelivery"@) is Some
    &&& spec_f_opt_text(j, "BarcodeRedBox"@) is Some
    &&& spec_f_bool(j, "CargoReturnRefusal"@) is Some
    &&& spec_f_opt_u16(j, "DaysStorageCargo"@) is Some
    &&& spec_f_opt_text_vec(j, "Packaging"@) is Some
    &&& spec_f_opt_text_vec(j, "PartialReturnGoods"@) is Some
    &&& spec_f_opt_u16(j, "StorageAmount"@) is Some
    &&& spec_f_opt_num(j, "StoragePrice"@) is Some
    &&& spec_f_opt_text(j, "FreeShipping"@) is Some
}

#[verifier::rlimit(100)]
fn decode_track_c(v: &serde_json::Value) -> (r: Result<TrackSliceC, DecodeError>)
    ensures
        r matches Ok(p) ==> spec_track_c_ok(jv(*v)) && {
            &&& p.seats_amount == spec_f_u16_str(jv(*v), "SeatsAmount"@)->Some_0
            &&& opt_text_view(p.card_masked_number) == spec_f_opt_text(jv(*v), "CardMaskedNumber"@)->Some_0
            &&& p.express_waybill_payment_status@ == spec_f_text(jv(*v), "ExpressWaybillPaymentStatus"@)->Some_0
            &&& opt_num_view(p.express_waybill_amount_to_pay) == spec_f_opt_num(jv(*v), "ExpressWaybillAmountToPay"@)->Some_0
            &&& p.tracking_update_date == spec_f_opt_date(jv(*v), "TrackingUpdateDate"@)->Some_0
            &&& opt_text_view(p.date_return_cargo) == spec_f_nullable_text(jv(*v), "DateReturnCargo"@)->Some_0
            &&& p.date_moving == spec_f_opt_date(jv(*v), "DateMoving"@)->Some_0
            &&& p.date_first_day_storage == spec_f_opt_date(jv(*v), "DateFirstDayStorage"@)->Some_0
            &&& opt_text_view(p.additional_information_e_w) == spec_f_opt_text(jv(*v), "AdditionalInformationEW"@)->Some_0
            &&& p.actual_delivery_date == spec_f_opt_date(jv(*v), "ActualDeliveryDate"@)->Some_0
            &&& p.postomat_v3_cell_reservation_number == spec_f_bool(jv(*v), "PostomatV3CellReservationNumber"@)->Some_0
            &&& opt_text_view(p.owner_document_number) == spec_f_opt_text(jv(*v), "OwnerDocumentNumber"@)->Some_0
            &&& opt_num_view(p.last_amount_received_commission_g_m) == spec_f_nullable_num(jv(*v), "LastAmountReceivedCommissionGM"@)->Some_0
            &&& opt_text_view(p.delivery_timeframe) == spec_f_opt_text(jv(*v), "DeliveryTimeframe"@)->Some_0
            &&& opt_text_view(p.created_on_the_basis) == spec_f_opt_text(jv(*v), "CreatedOnTheBasis"@)->Some_0
            &&& p.undelivery_reasons_date == spec_f_opt_date(jv(*v), "UndeliveryReasonsDate"@)->Some_0
            &&& p.avia_delivery == spec_f_u16(jv(*v), "AviaDelivery"@)->Some_0
            &&& opt_text_view(p.barcode_red_box) == spec_f_opt_text(jv(*v), "BarcodeRedBox"@)->Some_0
            &&& p.cargo_return_refusal == spec_f_bool(jv(*v), "CargoReturnRefusal"@)->Some_0
            &&& p.days_storage_cargo == spec_f_opt_u16(jv(*v), "DaysStorageCargo"@)->Some_0
            &&& opt_texts_view(p.packaging) == spec_f_opt_text_vec(jv(*v), "Packaging"@)->Some_0
            &&& opt_texts_view(p.partial_return_goods) == spec_f_opt_text_vec(jv(*v), "PartialReturnGoods"@)->Some_0
            &&& p.storage_amount == spec_f_opt_u16(jv(*v), "StorageAmount"@)->Some_0
            &&& opt_num_view(p.storage_price) == spec_f_opt_num(jv(*v), "StoragePrice"@)->Some_0
            &&& opt_text_view(p.free_shipping) == spec_f_opt_text(jv(*v), "FreeShipping"@)->Some_0
        },
        r is Err <==> !spec_track_c_ok(jv(*v)),
{
    let seats_amount = f_u16_str(v, "SeatsAmount")?;
    let card_masked_number = f_opt_text(v, "CardMaskedNumber")?;
    let express_waybill_payment_status = f_text(v, "ExpressWaybillPaymentStatus")?;
    let express_waybill_amount_to_pay = f_opt_num(v, "ExpressWaybillAmountToPay")?;
    let tracking_update_date = f_opt_date(v, "TrackingUpdateDate")?;
    let date_return_cargo = f_nullable_text(v, "DateReturnCargo")?;
    let date_moving = f_opt_date(v, "DateMoving")?;
    let date_first_day_storage = f_opt_date(v, "DateFirstDayStorage")?;
    let additional_information_e_w = f_opt_text(v, "AdditionalInformationEW")?;
    let actual_delivery_date = f_opt_date(v, "ActualDeliveryDate")?;
    let postomat_v3_cell_reservation_number = f_bool(v, "PostomatV3CellReservationNumber")?;
    let owner_document_number = f_opt_text(v, "OwnerDocumentNumber")?;
    let last_amount_received_commission_g_m = f_nullable_num(v, "LastAmountReceivedCommissionGM")?;
    let delivery_timeframe = f_opt_text(v, "DeliveryTimeframe")?;
    let created_on_the_basis = f_opt_text(v, "CreatedOnTheBasis")?;
    let undelivery_reasons_date = f_opt_date(v, "UndeliveryReasonsDate")?;
    let avia_delivery = f_u16(v, "AviaDelivery")?;
    let barcode_red_box = f_opt_text(v, "BarcodeRedBox")?;
    let cargo_return_refusal = f_bool(v, "CargoReturnRefusal")?;
    let days_storage_cargo = f_opt_u16(v, "DaysStorageCargo")?;
    let packaging = f_opt_text_vec(v, "Packaging")?;
    let partial_return_goods = f_opt_text_vec(v, "PartialReturnGoods")?;
    let storage_amount = f_opt_u16(v, "StorageAmount")?;
    let storage_price = f_opt_num(v, "StoragePrice")?;
    let free_shipping = f_opt_text(v, "FreeShipping")?;
    Ok(
    TrackSliceC {
        seats_amount,
        card_masked_number,
        express_waybill_payment_status,
        express_waybill_amount_to_pay,
        tracking_update_date,
        date_return_cargo,
        date_moving,
        date_first_day_storage,
        additional_information_e_w,
        actual_delivery_date,
        postomat_v3_cell_reservation_number,
        owner_document_number,
        last_amount_received_commission_g_m,
        delivery_timeframe,
        created_on_the_basis,
        undelivery_reasons_date,
        avia_delivery,
        barcode_red_box,
        cargo_return_refusal,
        days_storage_cargo,
        packaging,
        partial_return_goods,
        storage_amount,
        storage_price,
        free_shipping,
    },
    )
}

/// Ghost value of a decoded tracking record.
pub struct TrackingDocV {
    pub possibility_create_return: bool,
    pub possibility_create_refusal: bool,
    pub possibility_change_e_w: bool,
    pub possibility_create_redirecting: bool,
    pub number: Seq<char>,
    pub redelivery_info: RedeliveryInfoV,
    pub recipient_info: RecipientInfoV,
    pub payment_info: PaymentInfoV,
    pub owner_document_type: Option<Seq<char>>,
    pub last_created_on_the_basis_document_type: Option<Seq<char>>,
    pub last_created_on_the_basis_payer_type: Option<Seq<char>>,
    pub last_created_on_the_basis_date_time: Option<Seq<char>>,
    pub last_transaction_status_g_m: Option<Seq<char>>,
    pub last_transaction_date_time_g_m: Option<Seq<char>>,
    pub last_amount_transfer_g_m: Option<Seq<char>>,
    pub date_created: CanonicalDateTime,
    pub document_weight: Seq<char>,
    pub factual_weight: Seq<char>,
    pub volume_weight: Seq<char>,
    pub check_weight: Seq<char>,
    pub check_weight_method: Option<Seq<char>>,
    pub document_cost: Seq<char>,
    pub calculated_weight: Option<Seq<char>>,
    pub sum_before_check_weight: Option<Seq<char>>,
    pub scheduled_delivery_date: Option<CanonicalDateTime>,
    pub cargo_description_string: Seq<char>,
    pub cargo_type: Seq<char>,
    pub counterparty_type: CounterpartyType,
    pub service_type: ServiceType,
    pub undelivery_reasons_subtype_description: Option<Seq<char>>,
    pub last_created_on_the_basis_number: Option<Seq<char>>,
    pub marketplace_partner_token: Option<Seq<char>>,
    pub client_barcode: Option<Seq<char>>,
    pub date_scan: Option<CanonicalDateTime>,
    pub status: Option<Seq<char>>,
    pub status_code: Option<Seq<char>>,
    pub ref_e_w: Seq<char>,
    pub backward_delivery_sub_types_actions: Option<Seq<char>>,
    pub backward_delivery_sub_types_services: Option<Seq<char>>,
    pub date_payed_keeping: Option<CanonicalDateTime>,
    pub international_delivery_type: Option<Seq<char>>,
    pub seats_amount: u16,
    pub card_masked_number: Option<Seq<char>>,
    pub express_waybill_payment_status: Seq<char>,
    pub express_waybill_amount_to_pay: Option<Seq<char>>,
    pub tracking_update_date: Option<CanonicalDateTime>,
    pub date_return_cargo: Option<Seq<char>>,
    pub date_moving: Option<CanonicalDateTime>,
    pub date_first_day_storage: Option<CanonicalDateTime>,
    pub additional_information_e_w: Option<Seq<char>>,
    pub actual_delivery_date: Option<CanonicalDateTime>,
    pub postomat_v3_cell_reservation_number: bool,
    pub owner_document_number: Option<Seq<char>>,
    pub last_amount_received_commission_g_m: Option<Seq<char>>,
    pub delivery_timeframe: Option<Seq<char>>,
    pub created_on_the_basis: Option<Seq<char>>,
    pub undelivery_reasons_date: Option<CanonicalDateTime>,
    pub avia_delivery: u16,
    pub barcode_red_box: Option<Seq<char>>,
    pub cargo_return_refusal: bool,
    pub days_storage_cargo: Option<u16>,
    pub packaging: Option<Seq<Seq<char>>>,
    pub partial_return_goods: Option<Seq<Seq<char>>>,
    pub storage_amount: Option<u16>,
    pub storage_price: Option<Seq<char>>,
    pub free_shipping: Option<Seq<char>>,
}

/// One tracked shipment, every wire quirk normalized: numeric fields as
/// decimal strings or raw numbers kept as text, optional texts under the
/// empty-string rule, timestamps under the ordered date patterns, and the
/// redelivery, recipient and payment blocks flattened into the record.
#[derive(Debug, Clone)]
pub struct TrackingDoc {
    pub possibility_create_return: bool,
    pub possibility_create_refusal: bool,
    pub possibility_change_e_w: bool,
    pub possibility_create_redirecting: bool,
    pub number: String,
    pub redelivery_info: RedeliveryInfo,
    pub recipient_info: RecipientInfo,
    pub payment_info: PaymentInfo,
    pub owner_document_type: Option<String>,
    pub last_created_on_the_basis_document_type: Option<String>,
    pub last_created_on_the_basis_payer_type: Option<String>,
    pub last_created_on_the_basis_date_time: Option<String>,
    pub last_transaction_status_g_m: Option<String>,
    pub last_transaction_date_time_g_m: Option<String>,
    pub last_amount_transfer_g_m: Option<String>,
    pub date_created: CanonicalDateTime,
    pub document_weight: NumText,
    pub factual_weight: NumText,
    pub volume_weight: NumText,
    pub check_weight: NumText,
    pub check_weight_method: Option<String>,
    pub document_cost: NumText,
    pub calculated_weight: Option<String>,
    pub sum_before_check_weight: Option<NumText>,
    pub scheduled_delivery_date: Option<CanonicalDateTime>,
    pub cargo_description_string: String,
    pub cargo_type: String,
    pub counterparty_type: CounterpartyType,
    pub service_type: ServiceType,
    pub undelivery_reasons_subtype_description: Option<String>,
    pub last_created_on_the_basis_number: Option<String>,
    pub marketplace_partner_token: Option<String>,
    pub client_barcode: Option<String>,
    pub date_scan: Option<CanonicalDateTime>,
    pub status: Option<String>,
    pub status_code: Option<String>,
    pub ref_e_w: UuidText,
    pub backward_delivery_sub_types_actions: Option<String>,
    pub backward_delivery_sub_types_services: Option<String>,
    pub date_payed_keeping: Option<CanonicalDateTime>,
    pub international_delivery_type: Option<String>,
    pub seats_amount: u16,
    pub card_masked_number: Option<String>,
    pub express_waybill_payment_status: String,
    pub express_waybill_amount_to_pay: Option<NumText>,
    pub tracking_update_date: Option<CanonicalDateTime>,
    pub date_return_cargo: Option<String>,
    pub date_moving: Option<CanonicalDateTime>,
    pub date_first_day_storage: Option<CanonicalDateTime>,
    pub additional_information_e_w: Option<String>,
    pub actual_delivery_date: Option<CanonicalDateTime>,
    pub postomat_v3_cell_reservation_number: bool,
    pub owner_document_number: Option<String>,
    pub last_amount_received_commission_g_m: Option<NumText>,
    pub delivery_timeframe: Option<String>,
    pub created_on_the_basis: Option<String>,
    pub undelivery_reasons_date: Option<CanonicalDateTime>,
    pub avia_delivery: u16,
    pub barcode_red_box: Option<String>,
    pub cargo_return_refusal: bool,
    pub days_storage_cargo: Option<u16>,
    pub packaging: Option<Vec<String>>,
    pub partial_return_goods: Option<Vec<String>>,
    pub storage_amount: Option<u16>,
    pub storage_price: Option<NumText>,
    pub free_shipping: Option<String>,
}

/// What decoding a tracking record demands: every flattened block and
/// every slice of its own fields.
pub open spec fn spec_decode_tracking_doc(j: JsonSpec) -> Option<TrackingDocV> {
    if {
        &&& spec_track_a_ok(j)
        &&& spec_track_b_ok(j)
        &&& spec_track_c_ok(j)
        &&& spec_decode_redeliveryinfo(j) is Some
        &&& spec_decode_recipientinfo(j) is Some
        &&& spec_decode_paymentinfo(j) is Some
    } {
        Some(
            TrackingDocV {
                possibility_create_return: spec_f_bool(j, "PossibilityCreateReturn"@)->Some_0,
                possibility_create_refusal: spec_f_bool(j, "PossibilityCreateRefusal"@)->Some_0,
                possibility_change_e_w: spec_f_bool(j, "PossibilityChangeEW"@)->Some_0,
                possibility_create_redirecting: spec_f_bool(j, "PossibilityCreateRedirecting"@)->Some_0,
                number: spec_f_text(j, "Number"@)->Some_0,
                redelivery_info: spec_decode_redeliveryinfo(j)->Some_0,
                recipient_info: spec_decode_recipientinfo(j)->Some_0,
                payment_info: spec_decode_paymentinfo(j)->Some_0,
                owner_document_type: spec_f_opt_text(j, "OwnerDocumentType"@)->Some_0,
                last_created_on_the_basis_document_type: spec_f_opt_text(j, "LastCreatedOnTheBasisDocumentType"@)->Some_0,
                last_created_on_the_basis_payer_type: spec_f_opt_text(j, "LastCreatedOnTheBasisPayerType"@)->Some_0,
                last_created_on_the_basis_date_time: spec_f_opt_text(j, "LastCreatedOnTheBasisDateTime"@)->Some_0,
                last_transaction_status_g_m: spec_f_opt_text(j, "LastTransactionStatusGM"@)->Some_0,
                last_transaction_date_time_g_m: spec_f_opt_text(j, "LastTransactionDateTimeGM"@)->Some_0,
                last_amount_transfer_g_m: spec_f_opt_text(j, "LastAmountTransferGM"@)->Some_0,
                date_created: spec_f_date_np(j, "DateCreated"@)->Some_0,
                document_weight: spec_f_num_raw(j, "DocumentWeight"@)->Some_0,
                factual_weight: spec_f_num_str(j, "FactualWeight"@)->Some_0,
                volume_weight: spec_f_num_str(j, "VolumeWeight"@)->Some_0,
                check_weight: spec_f_num_raw(j, "CheckWeight"@)->Some_0,
                check_weight_method: spec_f_opt_text(j, "CheckWeightMethod"@)->Some_0,
                document_cost: spec_f_num_str(j, "DocumentCost"@)->Some_0,
                calculated_weight: spec_f_opt_text(j, "CalculatedWeight"@)->Some_0,
                sum_before_check_weight: spec_f_nullable_num(j, "SumBeforeCheckWeight"@)->Some_0,
                scheduled_delivery_date: spec_f_opt_date(j, "ScheduledDeliveryDate"@)->Some_0,
                cargo_description_string: spec_f_text(j, "CargoDescriptionString"@)->Some_0,
                cargo_type: spec_f_text(j, "CargoType"@)->Some_0,
                counterparty_type: spec_f_cp_type(j, "CounterpartyType"@)->Some_0,
                service_type: spec_f_service_type(j, "ServiceType"@)->Some_0,
                undelivery_reasons_subtype_description: spec_f_opt_text(j, "UndeliveryReasonsSubtypeDescription"@)->Some_0,
                last_created_on_the_basis_number: spec_f_opt_text(j, "LastCreatedOnTheBasisNumber"@)->Some_0,
                marketplace_partner_token: spec_f_opt_text(j, "MarketplacePartnerToken"@)->Some_0,
                client_barcode: spec_f_opt_text(j, "ClientBarcode"@)->Some_0,
                date_scan: spec_f_opt_date(j, "DateScan"@)->Some_0,
                status: spec_f_nullable_text(j, "Status"@)->Some_0,
                status_code: spec_f_nullable_text(j, "StatusCode"@)->Some_0,
                ref_e_w: spec_f_uuid(j, "RefEW"@)->Some_0,
                backward_delivery_sub_types_actions: spec_f_nullable_text(j, "BackwardDeliverySubTypesActions"@)->Some_0,
                backward_delivery_sub_types_services: spec_f_nullable_text(j, "BackwardDeliverySubTypesServices"@)->Some_0,
                date_payed_keeping: spec_f_opt_date(j, "DatePayedKeeping"@)->Some_0,
                international_delivery_type: spec_f_opt_text(j, "InternationalDeliveryType"@)->Some_0,
                seats_amount: spec_f_u16_str(j, "SeatsAmount"@)->Some_0,
                card_masked_number: spec_f_opt_text(j, "CardMaskedNumber"@)->Some_0,
                express_waybill_payment_status: spec_f_text(j, "ExpressWaybillPaymentStatus"@)->Some_0,
                express_waybill_amount_to_pay: spec_f_opt_num(j, "ExpressWaybillAmountToPay"@)->Some_0,
                tracking_update_date: spec_f_opt_date(j, "TrackingUpdateDate"@)->Some_0,
                date_return_cargo: spec_f_nullable_text(j, "DateReturnCargo"@)->Some_0,
                date_moving: spec_f_opt_date(j, "DateMoving"@)->Some_0,
                date_first_day_storage: spec_f_opt_date(j, "DateFirstDayStorage"@)->Some_0,
                additional_information_e_w: spec_f_opt_text(j, "AdditionalInformationEW"@)->Some_0,
                actual_delivery_date: spec_f_opt_date(j, "ActualDeliveryDate"@)->Some_0,
                postomat_v3_cell_reservation_number: spec_f_bool(j, "PostomatV3CellReservationNumber"@)->Some_0,
                owner_document_number: spec_f_opt_text(j, "OwnerDocumentNumber"@)->Some_0,
                last_amount_received_commission_g_m: spec_f_nullable_num(j, "LastAmountReceivedCommissionGM"@)->Some_0,
                delivery_timeframe: spec_f_opt_text(j, "DeliveryTimeframe"@)->Some_0,
                created_on_the_basis: spec_f_opt_text(j, "CreatedOnTheBasis"@)->Some_0,
                undelivery_reasons_date: spec_f_opt_date(j, "UndeliveryReasonsDate"@)->Some_0,
                avia_delivery: spec_f_u16(j, "AviaDelivery"@)->Some_0,
                barcode_red_box: spec_f_opt_text(j, "BarcodeRedBox"@)->Some_0,
                cargo_return_refusal: spec_f_bool(j, "CargoReturnRefusal"@)->Some_0,
                days_storage_cargo: spec_f_opt_u16(j, "DaysStorageCargo"@)->Some_0,
                packaging: spec_f_opt_text_vec(j, "Packaging"@)->Some_0,
                partial_return_goods: spec_f_opt_text_vec(j, "PartialReturnGoods"@)->Some_0,
                storage_amount: spec_f_opt_u16(j, "StorageAmount"@)->Some_0,
                storage_price: spec_f_opt_num(j, "StoragePrice"@)->Some_0,
                free_shipping: spec_f_opt_text(j, "FreeShipping"@)->Some_0,
            },
        )
    } else {
        None
    }
}

impl JsonDecode for TrackingDoc {
    type SV = TrackingDocV;

    open spec fn sview(&self) -> TrackingDocV {
        TrackingDocV {
            possibility_create_return: self.possibility_create_return,
            possibility_create_refusal: self.possibility_create_refusal,
            possibility_change_e_w: self.possibility_change_e_w,
            possibility_create_redirecting: self.possibility_create_redirecting,
            number: self.number@,
            redelivery_info: self.redelivery_info.sview(),
            recipient_info: self.recipient_info.sview(),
            payment_info: self.payment_info.sview(),
            owner_document_type: opt_text_view(self.owner_document_type),
            last_created_on_the_basis_document_type: opt_text_view(self.last_created_on_the_basis_document_type),
            last_created_on_the_basis_payer_type: opt_text_view(self.last_created_on_the_basis_payer_type),
            last_created_on_the_basis_date_time: opt_text_view(self.last_created_on_the_basis_date_time),
            last_transaction_status_g_m: opt_text_view(self.last_transaction_status_g_m),
            last_transaction_date_time_g_m: opt_text_view(self.last_transaction_date_time_g_m),
            last_amount_transfer_g_m: opt_text_view(self.last_amount_transfer_g_m),
            date_created: self.date_created,
            document_weight: self.document_weight@,
            factual_weight: self.factual_weight@,
            volume_weight: self.volume_weight@,
            check_weight: self.check_weight@,
            check_weight_method: opt_text_view(self.check_weight_method),
            document_cost: self.document_cost@,
            calculated_weight: opt_text_view(self.calculated_weight),
            sum_before_check_weight: opt_num_view(self.sum_before_check_weight),
            scheduled_delivery_date: self.scheduled_delivery_date,
            cargo_description_string: self.cargo_description_string@,
            cargo_type: self.cargo_type@,
            counterparty_type: self.counterparty_type,
            service_type: self.service_type,
            undelivery_reasons_subtype_description: opt_text_view(self.undelivery_reasons_subtype_description),
            last_created_on_the_basis_number: opt_text_view(self.last_created_on_the_basis_number),
            marketplace_partner_token: opt_text_view(self.marketplace_partner_token),
            client_barcode: opt_text_view(self.client_barcode),
            date_scan: self.date_scan,
            status: opt_text_view(self.status),
            status_code: opt_text_view(self.status_code),
            ref_e_w: self.ref_e_w@,
            backward_delivery_sub_types_actions: opt_text_view(self.backward_delivery_sub_types_actions),
            backward_delivery_sub_types_services: opt_text_view(self.backward_delivery_sub_types_services),
            date_payed_keeping: self.date_payed_keeping,
            international_delivery_type: opt_text_view(self.international_delivery_type),
            seats_amount: self.seats_amount,
            card_masked_number: opt_text_view(self.card_masked_number),
            express_waybill_payment_status: self.express_waybill_payment_status@,
            express_waybill_amount_to_pay: opt_num_view(self.express_waybill_amount_to_pay),
            tracking_update_date: self.tracking_update_date,
            date_return_cargo: opt_text_view(self.date_return_cargo),
            date_moving: self.date_moving,
            date_first_day_storage: self.date_first_day_storage,
            additional_information_e_w: opt_text_view(self.additional_information_e_w),
            actual_delivery_date: self.actual_delivery_date,
            postomat_v3_cell_reservation_number: self.postomat_v3_cell_reservation_number,
            owner_document_number: opt_text_view(self.owner_document_number),
            last_amount_received_commission_g_m: opt_num_view(self.last_amount_received_commission_g_m),
            delivery_timeframe: opt_text_view(self.delivery_timeframe),
            created_on_the_basis: opt_text_view(self.created_on_the_basis),
            undelivery_reasons_date: self.undelivery_reasons_date,
            avia_delivery: self.avia_delivery,
            barcode_red_box: opt_text_view(self.barcode_red_box),
            cargo_return_refusal: self.cargo_return_refusal,
            days_storage_cargo: self.days_storage_cargo,
            packaging: opt_texts_view(self.packaging),
            partial_return_goods: opt_texts_view(self.partial_return_goods),
            storage_amount: self.storage_amount,
            storage_price: opt_num_view(self.storage_price),
            free_shipping: opt_text_view(self.free_shipping),
        }
    }

    open spec fn spec_decode(j: JsonSpec) -> Option<TrackingDocV> {
        spec_decode_tracking_doc(j)
    }

    #[verifier::rlimit(100)]
    fn decode_json(v: &serde_json::Value) -> (r: Result<TrackingDoc, DecodeError>) {
        let a = decode_track_a(v)?;
        let b = decode_track_b(v)?;
        let c = decode_track_c(v)?;
        let redelivery_info = RedeliveryInfo::decode_json(v)?;
        let recipient_info = RecipientInfo::decode_json(v)?;
        let payment_info = PaymentInfo::decode_json(v)?;
        Ok(
            TrackingDoc {
                possibility_create_return: a.possibility_create_return,
                possibility_create_refusal: a.possibility_create_refusal,
                possibility_change_e_w: a.possibility_change_e_w,
                possibility_create_redirecting: a.possibility_create_redirecting,
                number: a.number,
                owner_document_type: a.owner_document_type,
                last_created_on_the_basis_document_type: a.last_created_on_the_basis_document_type,
                last_created_on_the_basis_payer_type: a.last_created_on_the_basis_payer_type,
                last_created_on_the_basis_date_time: a.last_created_on_the_basis_date_time,
                last_transaction_status_g_m: a.last_transaction_status_g_m,
                last_transaction_date_time_g_m: a.last_transaction_date_time_g_m,
                last_amount_transfer_g_m: a.last_amount_transfer_g_m,
                date_created: a.date_created,
                document_weight: a.document_weight,
                factual_weight: a.factual_weight,
                volume_weight: a.volume_weight,
                check_weight: a.check_weight,
                check_weight_method: a.check_weight_method,
                document_cost: a.document_cost,
                redelivery_info,
                recipient_info,
                payment_info,
                calculated_weight: b.calculated_weight,
                sum_before_check_weight: b.sum_before_check_weight,
                scheduled_delivery_date: b.scheduled_delivery_date,
                cargo_description_string: b.cargo_description_string,
                cargo_type: b.cargo_type,
                counterparty_type: b.counterparty_type,
                service_type: b.service_type,
                undelivery_reasons_subtype_description: b.undelivery_reasons_subtype_description,
                last_created_on_the_basis_number: b.last_created_on_the_basis_number,
                marketplace_partner_token: b.marketplace_partner_token,
                client_barcode: b.client_barcode,
                date_scan: b.date_scan,
                status: b.status,
                status_code: b.status_code,
                ref_e_w: b.ref_e_w,
                backward_delivery_sub_types_actions: b.backward_delivery_sub_types_actions,
                backward_delivery_sub_types_services: b.backward_delivery_sub_types_services,
                date_payed_keeping: b.date_payed_keeping,
                international_delivery_type: b.international_delivery_type,
                seats_amount: c.seats_amount,
                card_masked_number: c.card_masked_number,
                express_waybill_payment_status: c.express_waybill_payment_status,
                express_waybill_amount_to_pay: c.express_waybill_amount_to_pay,
                tracking_update_date: c.tracking_update_date,
                date_return_cargo: c.date_return_cargo,
                date_moving: c.date_moving,
                date_first_day_storage: c.date_first_day_storage,
                additional_information_e_w: c.additional_information_e_w,
                actual_delivery_date: c.actual_delivery_date,
                postomat_v3_cell_reservation_number: c.postomat_v3_cell_reservation_number,
                owner_document_number: c.owner_document_number,
                last_amount_received_commission_g_m: c.last_amount_received_commission_g_m,
                delivery_timeframe: c.delivery_timeframe,
                created_on_the_basis: c.created_on_the_basis,
                undelivery_reasons_date: c.undelivery_reasons_date,
                avia_delivery: c.avia_delivery,
                barcode_red_box: c.barcode_red_box,
                cargo_return_refusal: c.cargo_return_refusal,
                days_storage_cargo: c.days_storage_cargo,
                packaging: c.packaging,
                partial_return_goods: c.partial_return_goods,
                storage_amount: c.storage_amount,
                storage_price: c.storage_price,
                free_shipping: c.free_shipping,
            },
        )
    }
}

} // verus!
