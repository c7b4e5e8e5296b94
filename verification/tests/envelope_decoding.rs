//! Envelope decoding on concrete documents: envelope fields decode
//! independently of the payload, one refused element refuses the whole
//! decode, and an application-level rejection is valid data.

use nova_poshta::address::warehouses::Warehouse;
use nova_poshta::counterparty::contact_persons::ContactPerson;
use nova_poshta::counterparty::addresses::CounterpartyAddress;
use nova_poshta::address::settlements::Streets;
use nova_poshta::res_template::{decode_envelope_str, EnvelopeDecodeError};
use nova_poshta::tracking::TrackingDoc;

const WAREHOUSES_RESPONSE: &str = r#"{"success":true,"data":[{"SiteKey":"105","Description":"Відділення №1","DescriptionRu":"Отделение №1","ShortAddress":"Львів, вул. Городоцька, 359","ShortAddressRu":"Львов, ул. Городоцкая, 359","Phone":"380322900000","TypeOfWarehouse":"841339c7-591a-42e2-8233-7a0a00f0ed6f","Ref":"1ec09d88-e1c2-11e3-8c4a-0050568002cf","Number":"1","CityRef":"db5c88f5-391c-11dd-90d9-001a92567626","CityDescription":"Львів","CityDescriptionRu":"Львов","SettlementRef":"e221d627-391c-11dd-90d9-001a92567626","SettlementDescription":"Львів","SettlementAreaDescription":"Львівська","SettlementRegionsDescription":"Львівський","SettlementTypeDescription":"місто","SettlementTypeDescriptionRu":"город","Latitude":"49.822935","Longitude":"23.936954","PostFinance":"1","BicycleParking":"1","PaymentAccess":"1","POSTerminal":"1","InternationalShipping":"0","SelfServiceWorkplacesCount":"0","TotalMaxWeightAllowed":"1000","PlaceMaxWeightAllowed":"250","SendingLimitationsOnDimensions":{"Width":170,"Height":220,"Length":600},"ReceivingLimitationsOnDimensions":{"Width":170,"Height":220,"Length":600},"Reception":{"Monday":"08:00-21:00","Tuesday":"08:00-21:00","Wednesday":"08:00-21:00","Thursday":"08:00-21:00","Friday":"08:00-21:00","Saturday":"09:00-18:00","Sunday":"09:00-18:00"},"Delivery":{"Monday":"08:00-21:00","Tuesday":"08:00-21:00","Wednesday":"08:00-21:00","Thursday":"08:00-21:00","Friday":"08:00-21:00","Saturday":"09:00-18:00","Sunday":"09:00-18:00"},"Schedule":{"Monday":"08:00-21:00","Tuesday":"08:00-21:00","Wednesday":"08:00-21:00","Thursday":"08:00-21:00","Friday":"08:00-21:00","Saturday":"09:00-18:00","Sunday":"09:00-18:00"},"DistrictCode":"в1","WarehouseStatus":"Working","WarehouseStatusDate":"2023-10-11 12:30:45","CategoryOfWarehouse":"Branch","Direct":"","RegionCity":"ЛЬВІВ ПРОМ","WarehouseForAgent":"0","GeneratorEnabled":"1","MaxDeclaredCost":"0","WorkInMobileAwis":"0","DenyToSelect":"0","CanGetMoneyTransfer":"1","HasMirror":"1","HasFittingRoom":"1","OnlyReceivingParcel":"0","PostMachineType":"","PostalCodeUA":"79000","WarehouseIndex":"11/1","BeaconCode":""}],"errors":[],"warnings":[],"info":[],"messageCodes":[],"errorCodes":[],"warningCodes":[],"infoCodes":[]}"#;
const CONTACTS_RESPONSE: &str = r#"{"success":true,"data":[{"Ref":"00b25b80-5bf4-11ee-a60f-48df37b921db","Description":"Антонич Богдан Ігор","FirstName":"Богдан","MiddleName":"Ігор","LastName":"Антонич","Phones":"380997979780","Email":null}],"errors":[],"warnings":[],"info":[],"messageCodes":[],"errorCodes":[],"warningCodes":[],"infoCodes":[]}"#;
const CP_ADDRESSES_RESPONSE: &str = r#"{"success":true,"data":[{"Ref":"8ecbf66c-5bf3-11ee-a60f-48df37b921db","Description":"вул. Городоцька, 359","CityRef":"db5c88f5-391c-11dd-90d9-001a92567626","CityDescription":"Львів","StreetRef":"0f2209a9-91f5-11e3-b441-0050568002cf","StreetDescription":"Городоцька","BuildingRef":"00000000-0000-0000-0000-000000000000","BuildingDescription":"359","Note":"","AddressName":"359"}],"errors":[],"warnings":[],"info":[],"messageCodes":[],"errorCodes":[],"warningCodes":[],"infoCodes":[]}"#;
const STREETS_RESPONSE: &str = r#"{"success":true,"data":[{"TotalCount":1,"Addresses":[{"SettlementRef":"e221d627-391c-11dd-90d9-001a92567626","SettlementStreetRef":"0f2209a9-91f5-11e3-b441-0050568002cf","SettlementStreetDescription":"Городоцька","Present":"вул. Городоцька","StreetsType":"4aba19b7-bb24-11e3-b441-0050568002cf","StreetsTypeDescription":"вул.","Location":{"lat":"49.822935","lon":"23.936954"},"SettlementStreetDescriptionRu":"Городоцкая"}]}],"errors":[],"warnings":[],"info":[],"messageCodes":[],"errorCodes":[],"warningCodes":[],"infoCodes":[]}"#;

#[test]
fn bicycle_parking_flag_decodes_under_the_boolean_rule() {
    let res = decode_envelope_str::<Warehouse>(WAREHOUSES_RESPONSE).unwrap();
    assert!(res.data[0].bicycle_parking);
    assert!(!res.data[0].international_shipping);
    let with_zero = WAREHOUSES_RESPONSE.replace(r#""BicycleParking":"1""#, r#""BicycleParking":"0""#);
    let res = decode_envelope_str::<Warehouse>(&with_zero).unwrap();
    assert!(!res.data[0].bicycle_parking);
    let with_other =
        WAREHOUSES_RESPONSE.replace(r#""BicycleParking":"1""#, r#""BicycleParking":"2""#);
    let res = decode_envelope_str::<Warehouse>(&with_other);
    assert!(matches!(res, Err(EnvelopeDecodeError::Element { index: 0, .. })));
    let with_bool =
        WAREHOUSES_RESPONSE.replace(r#""BicycleParking":"1""#, r#""BicycleParking":true"#);
    assert!(decode_envelope_str::<Warehouse>(&with_bool).is_err());
}

#[test]
fn warehouse_record_decodes_whole() {
    let res = decode_envelope_str::<Warehouse>(WAREHOUSES_RESPONSE).unwrap();
    let w = &res.data[0];
    assert_eq!(w.site_key, 105);
    assert_eq!(w.number, 1);
    assert_eq!(w.ref_id.as_str(), "1ec09d88-e1c2-11e3-8c4a-0050568002cf");
    assert_eq!(w.total_max_weight_allowed, 1000);
    assert_eq!(w.sending_limitations_on_dimensions.length, 600);
    assert_eq!(w.reception.saturday, "09:00-18:00");
    assert_eq!(w.coordinates.latitude.as_str(), "49.822935");
    assert_eq!(w.direct, None);
    let date = w.warehouse_status_date.unwrap();
    assert_eq!((date.year, date.month, date.day), (2023, 10, 11));
    assert_eq!(w.max_declared_cost.as_str(), "0");
}

#[test]
fn missing_envelope_field_fails() {
    let body = r#"{"success":true,"data":[],"errors":[],"warnings":[],"info":[],"messageCodes":[],"errorCodes":[],"warningCodes":[]}"#;
    let res = decode_envelope_str::<Warehouse>(body);
    assert!(matches!(res, Err(EnvelopeDecodeError::Envelope { .. })));
}

#[test]
fn unparseable_body_fails_with_syntax() {
    let res = decode_envelope_str::<Warehouse>("not json at all");
    assert!(matches!(res, Err(EnvelopeDecodeError::Syntax)));
}

#[test]
fn one_bad_element_fails_the_whole_decode() {
    let one = WAREHOUSES_RESPONSE.to_owned();
    let record_start = one.find(r#"{"SiteKey""#).unwrap();
    let record_end = one.rfind(r#"}],"errors""#).unwrap() + 1;
    let record = &one[record_start..record_end];
    let two_records = format!(
        r#"{{"success":true,"data":[{},{}],"errors":[],"warnings":[],"info":[],"messageCodes":[],"errorCodes":[],"warningCodes":[],"infoCodes":[]}}"#,
        record,
        record.replace(r#""SiteKey":"105""#, r#""SiteKey":"x""#)
    );
    let res = decode_envelope_str::<Warehouse>(&two_records);
    assert!(matches!(res, Err(EnvelopeDecodeError::Element { index: 1, .. })));
}

#[test]
fn rejected_envelope_with_data_is_tolerated() {
    // success=false commonly implies empty data, but a violation still
    // decodes: the flag is data, not an error.
    let body = WAREHOUSES_RESPONSE.replace(r#""success":true"#, r#""success":false"#);
    let res = decode_envelope_str::<Warehouse>(&body).unwrap();
    assert!(!res.success);
    assert_eq!(res.data.len(), 1);
}

#[test]
fn tracking_document_decodes_whole() {
    const TRACKING_RESPONSE: &str = r#"{"success":true,"data":[{"PossibilityCreateReturn":false,"PossibilityCreateRefusal":false,"PossibilityChangeEW":false,"PossibilityCreateRedirecting":false,"Number":"20450777813966","Redelivery":0,"RedeliverySum":"","RedeliveryNum":"","RedeliveryPayer":"","RecipientFullName":"Тест Тест","RecipientDateTime":"11.10.2023 14:31:10","PhoneRecipient":"380123456787","RecipientFullNameEW":"","CityRecipient":"Львів","WarehouseRecipient":"Відділення №1","WarehouseRecipientInternetAddressRef":"411f66fd-62f0-e811-8b70-005056881c6b","RecipientAddress":"вул. Городоцька, 359","CounterpartyRecipientDescription":"","RefSettlementRecipient":"e221d627-391c-11dd-90d9-001a92567626","RefCityRecipient":"db5c88f5-391c-11dd-90d9-001a92567626","RecipientWarehouseTypeRef":"841339c7-591a-42e2-8233-7a0a00f0ed6f","WarehouseRecipientRef":"1ec09d88-e1c2-11e3-8c4a-0050568002cf","LoyaltyCardRecipient":"","WarehouseRecipientNumber":1,"CategoryOfWarehouse":"Branch","WarehouseRecipientAddress":"Львів, вул. Городоцька, 359","PayerType":"Sender","PaymentStatus":"","AfterpaymentOnGoodsCost":"","PaymentStatusDate":"","AmountToPay":"0","AmountPaid":"0","SecurePayment":false,"PaymentMethod":"Cash","AnnouncedPrice":"200","PossibilityChangeCash2Card":false,"OwnerDocumentType":"","LastCreatedOnTheBasisDocumentType":"","LastCreatedOnTheBasisPayerType":"","LastCreatedOnTheBasisDateTime":"","LastTransactionStatusGM":"","LastTransactionDateTimeGM":"","LastAmountTransferGM":"","DateCreated":"10-10-2023 16:50:33","DocumentWeight":0.5,"FactualWeight":"0.5","VolumeWeight":"0.5","CheckWeight":0,"CheckWeightMethod":"","DocumentCost":"120","CalculatedWeight":"","SumBeforeCheckWeight":null,"ScheduledDeliveryDate":"2023-10-11 00:00:00","CargoDescriptionString":"посилка","CargoType":"Parcel","CounterpartyType":"PrivatePerson","ServiceType":"WarehouseDoors","UndeliveryReasonsSubtypeDescription":"","LastCreatedOnTheBasisNumber":"","MarketplacePartnerToken":"","ClientBarcode":"","DateScan":"14:31 11.10.2023","Status":"Відправлення отримано","StatusCode":"9","RefEW":"6850895b-6537-11ee-9b8d-b8830365bd14","BackwardDeliverySubTypesActions":null,"BackwardDeliverySubTypesServices":null,"DatePayedKeeping":"2023-10-15 00:00:00","InternationalDeliveryType":"","SeatsAmount":"2","CardMaskedNumber":"","ExpressWaybillPaymentStatus":"Payed","ExpressWaybillAmountToPay":"0","TrackingUpdateDate":"2023-10-11 14:35:00","DateReturnCargo":null,"DateMoving":"11.10.2023 06:12:00","DateFirstDayStorage":"2023-10-16","AdditionalInformationEW":"","ActualDeliveryDate":"2023-10-11 14:31:10","PostomatV3CellReservationNumber":false,"OwnerDocumentNumber":"","LastAmountReceivedCommissionGM":null,"DeliveryTimeframe":"","CreatedOnTheBasis":"","UndeliveryReasonsDate":"","AviaDelivery":0,"BarcodeRedBox":"","CargoReturnRefusal":false,"DaysStorageCargo":"","Packaging":null,"PartialReturnGoods":null,"StorageAmount":"","StoragePrice":"","FreeShipping":""}],"errors":[],"warnings":[],"info":[],"messageCodes":[],"errorCodes":[],"warningCodes":[],"infoCodes":[]}"#;
    let res = decode_envelope_str::<TrackingDoc>(TRACKING_RESPONSE).unwrap();
    let d = &res.data[0];
    assert_eq!(d.number, "20450777813966");
    assert_eq!(d.redelivery_info.redelivery, 0);
    assert_eq!(d.redelivery_info.redelivery_sum, None);
    assert_eq!(d.recipient_info.phone_recipient, "380123456787");
    assert_eq!(d.status, Some("Відправлення отримано".to_owned()));
    assert_eq!(d.document_weight.as_str(), "0.5");
    assert_eq!(d.check_weight.as_str(), "0");
    assert_eq!(d.sum_before_check_weight, None);
    assert_eq!(d.avia_delivery, 0);
    // An empty string in an optional date field is absence.
    assert_eq!(d.undelivery_reasons_date, None);
    assert_eq!(d.payment_info.payment_status_date, None);
    assert_eq!(d.days_storage_cargo, None);
    assert_eq!(d.packaging, None);
    let created = d.date_created;
    assert_eq!((created.year, created.month, created.day), (2023, 10, 10));
    let scan = d.date_scan.unwrap();
    assert_eq!((scan.hour, scan.minute, scan.second), (14, 31, 0));
    let storage = d.date_first_day_storage.unwrap();
    assert_eq!((storage.year, storage.month, storage.day, storage.hour), (2023, 10, 16, 0));
}

#[test]
fn contact_persons_decode() {
    let res = decode_envelope_str::<ContactPerson>(CONTACTS_RESPONSE).unwrap();
    assert_eq!(res.data[0].phones, Some("380997979780".to_owned()));
    assert_eq!(res.data[0].email, None);
}

#[test]
fn counterparty_addresses_decode() {
    let res = decode_envelope_str::<CounterpartyAddress>(CP_ADDRESSES_RESPONSE).unwrap();
    assert_eq!(res.data[0].building_description, "359");
    assert_eq!(res.data[0].note, "");
}

#[test]
fn streets_decode_with_aliased_coordinates() {
    let res = decode_envelope_str::<Streets>(STREETS_RESPONSE).unwrap();
    let page = &res.data[0];
    assert_eq!(page.total_count, 1);
    assert_eq!(page.addresses[0].location.latitude.as_str(), "49.822935");
    assert_eq!(page.addresses[0].present, "вул. Городоцька");
}
