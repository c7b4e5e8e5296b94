//! Request building against the wire's exact expectations: each builder
//! renders the method parameters the endpoint demands, and the typestate
//! builders reach the same request in any setter order.

use nova_poshta::address::cities::GetCitiesBuilder;
use nova_poshta::address::settlements::{SearchSettlementsBuilder, SearchStreetsBuilder};
use nova_poshta::address::warehouses::GetWarehousesBuilder;
use nova_poshta::address::AddressHandler;
use nova_poshta::counterparty::create::CreateCounterpartyBuilder;
use nova_poshta::counterparty::CounterpartyHandler;
use nova_poshta::datetime::make_date;
use nova_poshta::en::ENumber;
use nova_poshta::helper_structs::{
    AddressID, CargoType, CityID, ContactPersonID, CounterpartyID, CounterpartyRole,
    CounterpartyType, PaymentMethod, ServiceType, UuidText,
};
use nova_poshta::internet_document::IDocumentHandler;
use nova_poshta::res_template::decode_envelope_str;
use nova_poshta::scalar::NumText;
use nova_poshta::tracking::{TrackingDoc, TrackingHandler};

const CITIES_RESPONSE: &str = r#"{"success":true,"data":[{"Description":"Львів","DescriptionRu":"Львов","Ref":"db5c88f5-391c-11dd-90d9-001a92567626","Delivery1":"1","Delivery2":"1","Delivery3":"1","Delivery4":"1","Delivery5":"1","Delivery6":"1","Delivery7":"","Area":"dcaadf02-4b33-11e4-ab6d-005056801329","SettlementType":"563ced10-f210-11e3-8c4a-0050568002cf","IsBranch":"1","PreventEntryNewStreetsUser":"0","CityID":"5","SettlementTypeDescription":"місто","SettlementTypeDescriptionRu":"город","SpecialCashCheck":1,"AreaDescription":"Львівська","AreaDescriptionRu":"Львовская"}],"errors":[],"warnings":[],"info":[],"messageCodes":[],"errorCodes":[],"warningCodes":[],"infoCodes":[]}"#;
const SETTLEMENTS_RESPONSE: &str = r#"{"success":true,"data":[{"TotalCount":1,"Addresses":[{"Present":"м. Львів, Львівська обл.","Warehouses":340,"MainDescription":"Львів","Area":"Львівська","Region":"","SettlementTypeCode":"м.","Ref":"e221d627-391c-11dd-90d9-001a92567626","DeliveryCity":"db5c88f5-391c-11dd-90d9-001a92567626","AddressDeliveryAllowed":true,"StreetsAvailability":true,"ParentRegionTypes":"область","ParentRegionCode":"обл.","RegionTypes":"","RegionTypesCode":""}]}],"errors":[],"warnings":[],"info":[],"messageCodes":[],"errorCodes":[],"warningCodes":[],"infoCodes":[]}"#;
const WAREHOUSES_RESPONSE: &str = r#"{"success":true,"data":[{"SiteKey":"105","Description":"Відділення №1","DescriptionRu":"Отделение №1","ShortAddress":"Львів, вул. Городоцька, 359","ShortAddressRu":"Львов, ул. Городоцкая, 359","Phone":"380322900000","TypeOfWarehouse":"841339c7-591a-42e2-8233-7a0a00f0ed6f","Ref":"1ec09d88-e1c2-11e3-8c4a-0050568002cf","Number":"1","CityRef":"db5c88f5-391c-11dd-90d9-001a92567626","CityDescription":"Львів","CityDescriptionRu":"Львов","SettlementRef":"e221d627-391c-11dd-90d9-001a92567626","SettlementDescription":"Львів","SettlementAreaDescription":"Львівська","SettlementRegionsDescription":"Львівський","SettlementTypeDescription":"місто","SettlementTypeDescriptionRu":"город","Latitude":"49.822935","Longitude":"23.936954","PostFinance":"1","BicycleParking":"1","PaymentAccess":"1","POSTerminal":"1","InternationalShipping":"0","SelfServiceWorkplacesCount":"0","TotalMaxWeightAllowed":"1000","PlaceMaxWeightAllowed":"250","SendingLimitationsOnDimensions":{"Width":170,"Height":220,"Length":600},"ReceivingLimitationsOnDimensions":{"Width":170,"Height":220,"Length":600},"Reception":{"Monday":"08:00-21:00","Tuesday":"08:00-21:00","Wednesday":"08:00-21:00","Thursday":"08:00-21:00","Friday":"08:00-21:00","Saturday":"09:00-18:00","Sunday":"09:00-18:00"},"Delivery":{"Monday":"08:00-21:00","Tuesday":"08:00-21:00","Wednesday":"08:00-21:00","Thursday":"08:00-21:00","Friday":"08:00-21:00","Saturday":"09:00-18:00","Sunday":"09:00-18:00"},"Schedule":{"Monday":"08:00-21:00","Tuesday":"08:00-21:00","Wednesday":"08:00-21:00","Thursday":"08:00-21:00","Friday":"08:00-21:00","Saturday":"09:00-18:00","Sunday":"09:00-18:00"},"DistrictCode":"в1","WarehouseStatus":"Working","WarehouseStatusDate":"2023-10-11 12:30:45","CategoryOfWarehouse":"Branch","Direct":"","RegionCity":"ЛЬВІВ ПРОМ","WarehouseForAgent":"0","GeneratorEnabled":"1","MaxDeclaredCost":"0","WorkInMobileAwis":"0","DenyToSelect":"0","CanGetMoneyTransfer":"1","HasMirror":"1","HasFittingRoom":"1","OnlyReceivingParcel":"0","PostMachineType":"","PostalCodeUA":"79000","WarehouseIndex":"11/1","BeaconCode":""}],"errors":[],"warnings":[],"info":[],"messageCodes":[],"errorCodes":[],"warningCodes":[],"infoCodes":[]}"#;
const TRACKING_RESPONSE: &str = r#"{"success":true,"data":[{"PossibilityCreateReturn":false,"PossibilityCreateRefusal":false,"PossibilityChangeEW":false,"PossibilityCreateRedirecting":false,"Number":"20450777813966","Redelivery":0,"RedeliverySum":"","RedeliveryNum":"","RedeliveryPayer":"","RecipientFullName":"Тест Тест","RecipientDateTime":"11.10.2023 14:31:10","PhoneRecipient":"380123456787","RecipientFullNameEW":"","CityRecipient":"Львів","WarehouseRecipient":"Відділення №1","WarehouseRecipientInternetAddressRef":"411f66fd-62f0-e811-8b70-005056881c6b","RecipientAddress":"вул. Городоцька, 359","CounterpartyRecipientDescription":"","RefSettlementRecipient":"e221d627-391c-11dd-90d9-001a92567626","RefCityRecipient":"db5c88f5-391c-11dd-90d9-001a92567626","RecipientWarehouseTypeRef":"841339c7-591a-42e2-8233-7a0a00f0ed6f","WarehouseRecipientRef":"1ec09d88-e1c2-11e3-8c4a-0050568002cf","LoyaltyCardRecipient":"","WarehouseRecipientNumber":1,"CategoryOfWarehouse":"Branch","WarehouseRecipientAddress":"Львів, вул. Городоцька, 359","PayerType":"Sender","PaymentStatus":"","AfterpaymentOnGoodsCost":"","PaymentStatusDate":"","AmountToPay":"0","AmountPaid":"0","SecurePayment":false,"PaymentMethod":"Cash","AnnouncedPrice":"200","PossibilityChangeCash2Card":false,"OwnerDocumentType":"","LastCreatedOnTheBasisDocumentType":"","LastCreatedOnTheBasisPayerType":"","LastCreatedOnTheBasisDateTime":"","LastTransactionStatusGM":"","LastTransactionDateTimeGM":"","LastAmountTransferGM":"","DateCreated":"10-10-2023 16:50:33","DocumentWeight":0.5,"FactualWeight":"0.5","VolumeWeight":"0.5","CheckWeight":0,"CheckWeightMethod":"","DocumentCost":"120","CalculatedWeight":"","SumBeforeCheckWeight":null,"ScheduledDeliveryDate":"2023-10-11 00:00:00","CargoDescriptionString":"посилка","CargoType":"Parcel","CounterpartyType":"PrivatePerson","ServiceType":"WarehouseDoors","UndeliveryReasonsSubtypeDescription":"","LastCreatedOnTheBasisNumber":"","MarketplacePartnerToken":"","ClientBarcode":"","DateScan":"14:31 11.10.2023","Status":"Відправлення отримано","StatusCode":"9","RefEW":"6850895b-6537-11ee-9b8d-b8830365bd14","BackwardDeliverySubTypesActions":null,"BackwardDeliverySubTypesServices":null,"DatePayedKeeping":"2023-10-15 00:00:00","InternationalDeliveryType":"","SeatsAmount":"2","CardMaskedNumber":"","ExpressWaybillPaymentStatus":"Payed","ExpressWaybillAmountToPay":"0","TrackingUpdateDate":"2023-10-11 14:35:00","DateReturnCargo":null,"DateMoving":"11.10.2023 06:12:00","DateFirstDayStorage":"2023-10-16","AdditionalInformationEW":"","ActualDeliveryDate":"2023-10-11 14:31:10","PostomatV3CellReservationNumber":false,"OwnerDocumentNumber":"","LastAmountReceivedCommissionGM":null,"DeliveryTimeframe":"","CreatedOnTheBasis":"","UndeliveryReasonsDate":"","AviaDelivery":0,"BarcodeRedBox":"","CargoReturnRefusal":false,"DaysStorageCargo":"","Packaging":null,"PartialReturnGoods":null,"StorageAmount":"","StoragePrice":"","FreeShipping":""}],"errors":[],"warnings":[],"info":[],"messageCodes":[],"errorCodes":[],"warningCodes":[],"infoCodes":[]}"#;
const TRACKING_RESPONSE_NO_PHONE: &str = r#"{"success":true,"data":[{"PossibilityCreateReturn":false,"PossibilityCreateRefusal":false,"PossibilityChangeEW":false,"PossibilityCreateRedirecting":false,"Number":"20450777813966","Redelivery":0,"RedeliverySum":"","RedeliveryNum":"","RedeliveryPayer":"","RecipientFullName":"Тест Тест","RecipientDateTime":"11.10.2023 14:31:10","PhoneRecipient":"380123456787","RecipientFullNameEW":"","CityRecipient":"Львів","WarehouseRecipient":"Відділення №1","WarehouseRecipientInternetAddressRef":"411f66fd-62f0-e811-8b70-005056881c6b","RecipientAddress":"вул. Городоцька, 359","CounterpartyRecipientDescription":"","RefSettlementRecipient":"e221d627-391c-11dd-90d9-001a92567626","RefCityRecipient":"db5c88f5-391c-11dd-90d9-001a92567626","RecipientWarehouseTypeRef":"841339c7-591a-42e2-8233-7a0a00f0ed6f","WarehouseRecipientRef":"1ec09d88-e1c2-11e3-8c4a-0050568002cf","LoyaltyCardRecipient":"","WarehouseRecipientNumber":1,"CategoryOfWarehouse":"Branch","WarehouseRecipientAddress":"Львів, вул. Городоцька, 359","PayerType":"Sender","PaymentStatus":"","AfterpaymentOnGoodsCost":"","PaymentStatusDate":"","AmountToPay":"0","AmountPaid":"0","SecurePayment":false,"PaymentMethod":"Cash","AnnouncedPrice":"200","PossibilityChangeCash2Card":false,"OwnerDocumentType":"","LastCreatedOnTheBasisDocumentType":"","LastCreatedOnTheBasisPayerType":"","LastCreatedOnTheBasisDateTime":"","LastTransactionStatusGM":"","LastTransactionDateTimeGM":"","LastAmountTransferGM":"","DateCreated":"10-10-2023 16:50:33","DocumentWeight":0.5,"FactualWeight":"0.5","VolumeWeight":"0.5","CheckWeight":0,"CheckWeightMethod":"","DocumentCost":"120","CalculatedWeight":"","SumBeforeCheckWeight":null,"ScheduledDeliveryDate":"2023-10-11 00:00:00","CargoDescriptionString":"посилка","CargoType":"Parcel","CounterpartyType":"PrivatePerson","ServiceType":"WarehouseDoors","UndeliveryReasonsSubtypeDescription":"","LastCreatedOnTheBasisNumber":"","MarketplacePartnerToken":"","ClientBarcode":"","DateScan":"14:31 11.10.2023","Status":"Відправлення отримано","StatusCode":"9","RefEW":"6850895b-6537-11ee-9b8d-b8830365bd14","BackwardDeliverySubTypesActions":null,"BackwardDeliverySubTypesServices":null,"DatePayedKeeping":"2023-10-15 00:00:00","InternationalDeliveryType":"","SeatsAmount":"2","CardMaskedNumber":"","ExpressWaybillPaymentStatus":"Payed","ExpressWaybillAmountToPay":"0","TrackingUpdateDate":"2023-10-11 14:35:00","DateReturnCargo":null,"DateMoving":"11.10.2023 06:12:00","DateFirstDayStorage":"2023-10-16","AdditionalInformationEW":"","ActualDeliveryDate":"2023-10-11 14:31:10","PostomatV3CellReservationNumber":false,"OwnerDocumentNumber":"","LastAmountReceivedCommissionGM":null,"DeliveryTimeframe":"","CreatedOnTheBasis":"","UndeliveryReasonsDate":"","AviaDelivery":0,"BarcodeRedBox":"","CargoReturnRefusal":false,"DaysStorageCargo":"","Packaging":null,"PartialReturnGoods":null,"StorageAmount":"","StoragePrice":"","FreeShipping":""}],"errors":[],"warnings":["Phone number is missing"],"info":[],"messageCodes":[],"errorCodes":[],"warningCodes":[],"infoCodes":[]}"#;
const CREATE_COUNTERPARTY_RESPONSE: &str = r#"{"success":true,"data":[{"Ref":"8ecbf66b-5bf3-11ee-a60f-48df37b921db","Description":"Антонич Богдан Ігор","FirstName":"Богдан","MiddleName":"Ігор","LastName":"Антонич","Counterparty":null,"OwnershipForm":null,"OwnershipFormRef":null,"OwnershipFormDescription":null,"EDRPOU":null,"CounterpartyType":"PrivatePerson","ContactPerson":null,"City":null}],"errors":[],"warnings":[],"info":[],"messageCodes":[],"errorCodes":[],"warningCodes":[],"infoCodes":[]}"#;
const CREATE_IDOC_RESPONSE: &str = r#"{"success":true,"data":[{"Ref":"86226759-6639-11ee-9b8d-b8830365bd14","CostOnSite":70,"EstimatedDeliveryDate":"11.10.2023","IntDocNumber":"20450777813966","TypeDocument":"InternetDocument"}],"errors":[],"warnings":[],"info":[],"messageCodes":[],"errorCodes":[],"warningCodes":[],"infoCodes":[]}"#;

#[test]
fn tracking_request_ok() {
    let en = ENumber::new("20450777813966".to_owned()).unwrap();
    let builder = TrackingHandler::new().track_parcel(en, "380123456787".to_owned());
    assert_eq!(
        builder.properties(),
        r#"{"Documents":[{"DocumentNumber":"20450777813966","Phone":"380123456787"}]}"#
    );
    let req = builder.request(String::new());
    assert_eq!(req.model_name, "TrackingDocument");
    assert_eq!(req.called_method, "getStatusDocuments");
    assert_eq!(
        req.body(),
        r#"{"apiKey":"","modelName":"TrackingDocument","calledMethod":"getStatusDocuments","methodProperties":{"Documents":[{"DocumentNumber":"20450777813966","Phone":"380123456787"}]}}"#
    );
    let res = decode_envelope_str::<TrackingDoc>(TRACKING_RESPONSE).unwrap();
    assert!(res.success);
    assert_eq!(res.data.len(), 1);
    assert_eq!(res.data[0].number, "20450777813966");
    assert_eq!(res.data[0].payment_info.payer_type, CounterpartyRole::Sender);
    assert_eq!(res.data[0].seats_amount, 2);
    assert_eq!(res.data[0].recipient_info.warehouse_recipient_number, Some(1));
    assert_eq!(res.data[0].factual_weight.as_str(), "0.5");
}

#[test]
fn tracking_request_without_phone() {
    let en = ENumber::new("20450777813966".to_owned()).unwrap();
    let builder = TrackingHandler::new().track_parcel(en, "".to_owned());
    assert_eq!(
        builder.properties(),
        r#"{"Documents":[{"DocumentNumber":"20450777813966","Phone":""}]}"#
    );
    let res = decode_envelope_str::<TrackingDoc>(TRACKING_RESPONSE_NO_PHONE).unwrap();
    assert!(res.success);
    assert!(!res.warnings.is_empty());
}

#[test]
fn tracking_request_invalid_en() {
    let res = decode_envelope_str::<TrackingDoc>(
        r#"
        {
            "success": false,
            "data": [],
            "errors": [
                "Document number is not correct"
            ],
            "warnings": [
                "Invalid DocumentNumber: 00450774207578"
            ],
            "info": [],
            "messageCodes": [],
            "errorCodes": [],
            "warningCodes": [],
            "infoCodes": []
        }
        "#,
    )
    .unwrap();
    assert!(!res.success);
    assert!(!res.warnings.is_empty());
    assert!(!res.errors.is_empty());
}

#[test]
fn tracking_add_document_appends() {
    let en1 = ENumber::new("20450777813966".to_owned()).unwrap();
    let en2 = ENumber::new("20450777813967".to_owned()).unwrap();
    let builder = TrackingHandler::new()
        .track_parcel(en1, "380123456787".to_owned())
        .add_document(en2, "".to_owned());
    assert_eq!(
        builder.properties(),
        r#"{"Documents":[{"DocumentNumber":"20450777813966","Phone":"380123456787"},{"DocumentNumber":"20450777813967","Phone":""}]}"#
    );
}

#[test]
fn get_cities_request_ok() {
    let builder = AddressHandler::new().get_cities().page(1).limit(10).find_by_string(
        "львів".to_owned(),
    );
    assert_eq!(builder.properties(), r#"{"FindByString":"львів","Page":1,"Limit":10}"#);
    let req = builder.request(String::new());
    assert_eq!(req.model_name, "Address");
    assert_eq!(req.called_method, "getCities");
    let res =
        decode_envelope_str::<nova_poshta::address::cities::City>(CITIES_RESPONSE).unwrap();
    assert!(res.success);
    assert_eq!(res.data.len(), 1);
    assert_eq!(res.data[0].city_id, 5);
    assert!(res.data[0].is_branch);
    assert!(res.data[0].special_cash_check);
    assert_eq!(res.data[0].delivery1, Some("1".to_owned()));
    assert_eq!(res.data[0].delivery7, None);
}

#[test]
fn get_cities_request_invalid_string() {
    let res = r#"
        {
            "success": false,
            "data": [],
            "errors": [
                "FindByString is not specified"
            ],
            "warnings": [],
            "info": [],
            "messageCodes": [],
            "errorCodes": [
                "20000500612"
            ],
            "warningCodes": [],
            "infoCodes": []
        }
    "#;
    let builder = AddressHandler::new().get_cities().page(1).limit(10).find_by_string(
        "invalid value".to_owned(),
    );
    assert_eq!(builder.properties(), r#"{"FindByString":"invalid value","Page":1,"Limit":10}"#);
    let res = decode_envelope_str::<nova_poshta::address::cities::City>(res).unwrap();
    assert!(!res.success);
    assert_eq!(res.data.len(), 0);
    assert_eq!(res.error_codes.len(), 1);
}

#[test]
fn search_settlements_request_ok() {
    let builder = AddressHandler::new().search_settlements("львів".to_owned()).page(1).limit(10);
    assert_eq!(builder.properties(), r#"{"CityName":"львів","Page":1,"Limit":10}"#);
    let req = builder.request(String::new());
    assert_eq!(req.model_name, "Address");
    assert_eq!(req.called_method, "searchSettlements");
    let res = decode_envelope_str::<nova_poshta::address::settlements::Settlements>(
        SETTLEMENTS_RESPONSE,
    )
    .unwrap();
    assert!(res.success);
    assert_eq!(res.data[0].total_count, 1);
    assert_eq!(res.data[0].addresses[0].full_name, "м. Львів, Львівська обл.");
    assert_eq!(res.data[0].addresses[0].warehouses_number, 340);
}

#[test]
fn search_streets_request_ok() {
    let settlement_ref = UuidText::parse("e221d627-391c-11dd-90d9-001a92567626").unwrap();
    let builder =
        AddressHandler::new().search_streets("Городоцька".to_owned(), settlement_ref).limit(10);
    assert_eq!(
        builder.properties(),
        r#"{"StreetName":"Городоцька","SettlementRef":"e221d627-391c-11dd-90d9-001a92567626","Limit":10}"#
    );
    let req = builder.request(String::new());
    assert_eq!(req.called_method, "searchSettlementStreets");
}

#[test]
fn warehouses_request_ok() {
    let builder =
        AddressHandler::new().get_warehouses().city_name("львів".to_owned()).limit(10).page(1);
    assert_eq!(builder.properties(), r#"{"CityName":"львів","Page":1,"Limit":10}"#);
    let req = builder.request(String::new());
    assert_eq!(req.model_name, "Address");
    assert_eq!(req.called_method, "getWarehouses");
    let res = decode_envelope_str::<nova_poshta::address::warehouses::Warehouse>(
        WAREHOUSES_RESPONSE,
    )
    .unwrap();
    assert!(res.success);
    assert_eq!(res.data.len(), 1);
    assert_eq!(res.data[0].site_key, 105);
    assert!(res.data[0].bicycle_parking);
}

#[test]
fn create_counterparty_request_ok() {
    let builder = CounterpartyHandler::new()
        .create_counterparty()
        .name("Богдан".to_owned(), "Ігор".to_owned(), "Антонич".to_owned())
        .phone("380997979780".to_owned())
        .email("test@test.com".to_owned())
        .cp_type(CounterpartyType::PrivatePerson)
        .role(CounterpartyRole::Recipient);
    assert_eq!(
        builder.properties(),
        r#"{"FirstName":"Богдан","MiddleName":"Ігор","LastName":"Антонич","Phone":"380997979780","CounterpartyProperty":"Recipient","CounterpartyType":"PrivatePerson","Email":"test@test.com"}"#
    );
    let req = builder.request(String::new());
    assert_eq!(req.model_name, "Counterparty");
    assert_eq!(req.called_method, "save");
    let res = decode_envelope_str::<nova_poshta::counterparty::Counterparty>(
        CREATE_COUNTERPARTY_RESPONSE,
    )
    .unwrap();
    assert!(res.success);
    assert_eq!(res.data[0].first_name, "Богдан");
    assert_eq!(res.data[0].counterparty_type, CounterpartyType::PrivatePerson);
    assert!(res.data[0].contact_person.is_none());
}

#[test]
fn counterparty_builder_order_independent() {
    let one = CounterpartyHandler::new()
        .create_counterparty()
        .name("Богдан".to_owned(), "Ігор".to_owned(), "Антонич".to_owned())
        .phone("380997979780".to_owned())
        .cp_type(CounterpartyType::PrivatePerson)
        .role(CounterpartyRole::Recipient);
    let other = CreateCounterpartyBuilder::new()
        .role(CounterpartyRole::Recipient)
        .cp_type(CounterpartyType::PrivatePerson)
        .phone("380997979780".to_owned())
        .name("Богдан".to_owned(), "Ігор".to_owned(), "Антонич".to_owned());
    assert_eq!(one.properties(), other.properties());
    let third = CreateCounterpartyBuilder::new()
        .phone("380997979780".to_owned())
        .role(CounterpartyRole::Recipient)
        .name("Богдан".to_owned(), "Ігор".to_owned(), "Антонич".to_owned())
        .cp_type(CounterpartyType::PrivatePerson);
    assert_eq!(one.properties(), third.properties());
}

#[test]
fn create_internet_document_ok() {
    let builder = IDocumentHandler::new()
        .create_document()
        .general_info(
            CounterpartyRole::Sender,
            PaymentMethod::Cash,
            make_date(2023, 10, 11).unwrap(),
            CargoType::Parcel,
            NumText::new("0.5".to_owned()).unwrap(),
            ServiceType::WarehouseDoors,
            2,
            "посилка".to_owned(),
            120,
        )
        .sender_info(
            CityID::parse("db5c88d4-391c-11dd-90d9-001a92567626").unwrap(),
            CounterpartyID::parse("57f2c3c2-596f-11ee-a60f-48df37b921db").unwrap(),
            AddressID::parse("1ec09d2d-e1c2-11e3-8c4a-0050568002cf").unwrap(),
            ContactPersonID::parse("57f35831-596f-11ee-a60f-48df37b921db").unwrap(),
            "+380660000001".to_owned(),
        )
        .recipient_info(
            CityID::parse("db5c88d4-391c-11dd-90d9-001a92567626").unwrap(),
            CounterpartyID::parse("580c30f7-596f-11ee-a60f-48df37b921db").unwrap(),
            AddressID::parse("39633d8b-645f-11ee-a60f-48df37b921db").unwrap(),
            ContactPersonID::parse("c1ffd9b4-643e-11ee-a60f-48df37b921db").unwrap(),
            "+380660000000".to_owned(),
        );
    assert_eq!(
        builder.properties(),
        r#"{"PayerType":"Sender","PaymentMethod":"Cash","DateTime":"11.10.2023","CargoType":"Parcel","Weight":"0.5","ServiceType":"WarehouseDoors","SeatsAmount":"2","Description":"посилка","Cost":"120","CityRecipient":"db5c88d4-391c-11dd-90d9-001a92567626","Recipient":"580c30f7-596f-11ee-a60f-48df37b921db","RecipientAddress":"39633d8b-645f-11ee-a60f-48df37b921db","RecipientsPhone":"+380660000000","ContactRecipient":"c1ffd9b4-643e-11ee-a60f-48df37b921db","CitySender":"db5c88d4-391c-11dd-90d9-001a92567626","Sender":"57f2c3c2-596f-11ee-a60f-48df37b921db","SenderAddress":"1ec09d2d-e1c2-11e3-8c4a-0050568002cf","ContactSender":"57f35831-596f-11ee-a60f-48df37b921db","SendersPhone":"+380660000001"}"#
    );
    let req = builder.request(String::new());
    assert_eq!(req.model_name, "InternetDocument");
    assert_eq!(req.called_method, "save");
    let res = decode_envelope_str::<nova_poshta::internet_document::IDocument>(
        CREATE_IDOC_RESPONSE,
    )
    .unwrap();
    assert!(res.success);
    assert_eq!(res.data[0].cost_on_site, 70);
    assert_eq!(res.data[0].estimated_delivery_date, make_date(2023, 10, 11).unwrap());
}

#[test]
fn idocument_builder_order_independent() {
    let sender_city = "db5c88d4-391c-11dd-90d9-001a92567626";
    let one = IDocumentHandler::new()
        .create_document()
        .general_info(
            CounterpartyRole::Sender,
            PaymentMethod::Cash,
            make_date(2023, 10, 11).unwrap(),
            CargoType::Parcel,
            NumText::new("0.5".to_owned()).unwrap(),
            ServiceType::WarehouseDoors,
            2,
            "посилка".to_owned(),
            120,
        )
        .sender_info(
            CityID::parse(sender_city).unwrap(),
            CounterpartyID::parse("57f2c3c2-596f-11ee-a60f-48df37b921db").unwrap(),
            AddressID::parse("1ec09d2d-e1c2-11e3-8c4a-0050568002cf").unwrap(),
            ContactPersonID::parse("57f35831-596f-11ee-a60f-48df37b921db").unwrap(),
            "+380660000001".to_owned(),
        )
        .recipient_info(
            CityID::parse(sender_city).unwrap(),
            CounterpartyID::parse("580c30f7-596f-11ee-a60f-48df37b921db").unwrap(),
            AddressID::parse("39633d8b-645f-11ee-a60f-48df37b921db").unwrap(),
            ContactPersonID::parse("c1ffd9b4-643e-11ee-a60f-48df37b921db").unwrap(),
            "+380660000000".to_owned(),
        );
    let two = IDocumentHandler::new()
        .create_document()
        .recipient_info(
            CityID::parse(sender_city).unwrap(),
            CounterpartyID::parse("580c30f7-596f-11ee-a60f-48df37b921db").unwrap(),
            AddressID::parse("39633d8b-645f-11ee-a60f-48df37b921db").unwrap(),
            ContactPersonID::parse("c1ffd9b4-643e-11ee-a60f-48df37b921db").unwrap(),
            "+380660000000".to_owned(),
        )
        .sender_info(
            CityID::parse(sender_city).unwrap(),
            CounterpartyID::parse("57f2c3c2-596f-11ee-a60f-48df37b921db").unwrap(),
            AddressID::parse("1ec09d2d-e1c2-11e3-8c4a-0050568002cf").unwrap(),
            ContactPersonID::parse("57f35831-596f-11ee-a60f-48df37b921db").unwrap(),
            "+380660000001".to_owned(),
        )
        .general_info(
            CounterpartyRole::Sender,
            PaymentMethod::Cash,
            make_date(2023, 10, 11).unwrap(),
            CargoType::Parcel,
            NumText::new("0.5".to_owned()).unwrap(),
            ServiceType::WarehouseDoors,
            2,
            "посилка".to_owned(),
            120,
        );
    assert_eq!(one.properties(), two.properties());
}

#[test]
fn optional_slots_overwrite_and_never_gate() {
    let builder = GetCitiesBuilder::new().page(1).page(7);
    assert_eq!(builder.properties(), r#"{"Page":7}"#);
    let empty = GetWarehousesBuilder::new();
    assert_eq!(empty.properties(), "{}");
    let builder = SearchSettlementsBuilder::new("київ".to_owned());
    assert_eq!(builder.properties(), r#"{"CityName":"київ"}"#);
    let email_twice = CounterpartyHandler::new()
        .create_counterparty()
        .email("first@test.com".to_owned())
        .name("А".to_owned(), "Б".to_owned(), "В".to_owned())
        .phone("380".to_owned())
        .cp_type(CounterpartyType::Organization)
        .role(CounterpartyRole::Sender)
        .email("last@test.com".to_owned());
    assert!(email_twice.properties().contains(r#""Email":"last@test.com""#));
    assert!(!email_twice.properties().contains("first@test.com"));
}

#[test]
fn string_values_are_json_escaped() {
    let builder = SearchStreetsBuilder::new(
        "a\"b\\c\nd".to_owned(),
        UuidText::parse("e221d627-391c-11dd-90d9-001a92567626").unwrap(),
    );
    assert_eq!(
        builder.properties(),
        "{\"StreetName\":\"a\\\"b\\\\c\\nd\",\"SettlementRef\":\"e221d627-391c-11dd-90d9-001a92567626\"}"
    );
}

#[test]
fn counterparty_listing_requests() {
    let cp_ref = CounterpartyID::parse("8ecbf66b-5bf3-11ee-a60f-48df37b921db").unwrap();
    let addresses = CounterpartyHandler::new()
        .get_addresses(cp_ref)
        .counterparty_property(CounterpartyRole::Sender);
    assert_eq!(
        addresses.properties(),
        r#"{"CounterpartyRef":"8ecbf66b-5bf3-11ee-a60f-48df37b921db","CounterpartyProperty":"Sender"}"#
    );
    assert_eq!(addresses.request(String::new()).called_method, "getCounterpartyAddresses");
    let cp_ref = CounterpartyID::parse("8ecbf66b-5bf3-11ee-a60f-48df37b921db").unwrap();
    let contacts = CounterpartyHandler::new().get_contact_persons(cp_ref).page(2);
    assert_eq!(
        contacts.properties(),
        r#"{"CounterpartyRef":"8ecbf66b-5bf3-11ee-a60f-48df37b921db","Page":2}"#
    );
    assert_eq!(contacts.request(String::new()).called_method, "getCounterpartyContactPersons");
    let listing = CounterpartyHandler::new()
        .get_counterparties()
        .find_by_string("Антонич".to_owned())
        .page(1)
        .counterparty_property(CounterpartyRole::Recipient);
    assert_eq!(
        listing.properties(),
        r#"{"FindByString":"Антонич","Page":1,"CounterpartyProperty":"Recipient"}"#
    );
    assert_eq!(listing.request(String::new()).called_method, "getCounterparties");
}
