use stateset_core::error::Error;
use stateset_core::traits::{Identifiable, ListResponse, Paginated};
use stateset_core::types::{currency_decimal_places, Address, Contact, Expandable, Money, ReferenceType, ResourceId};

#[test]
fn test_address_creation() {
    let address = Address::new("123 Main St", "Anytown", "US")
        .unwrap()
        .with_state("CA")
        .with_postal_code("12345");

    assert_eq!(address.line1, "123 Main St");
    assert_eq!(address.city, "Anytown");
    assert_eq!(address.country, "US");
    assert_eq!(address.state, Some("CA".to_string()));
    assert_eq!(address.postal_code, Some("12345".to_string()));
}

#[test]
fn test_contact_creation() {
    let contact = Contact::new()
        .with_name("John Doe")
        .with_email("john@example.com")
        .unwrap()
        .with_phone("+1-555-123-4567");

    assert_eq!(contact.name, Some("John Doe".to_string()));
    assert_eq!(contact.email, Some("john@example.com".to_string()));
    assert_eq!(contact.phone, Some("+1-555-123-4567".to_string()));
}

#[test]
fn test_resource_id_validation() {
    assert!(ResourceId::from_string("valid-id_123").is_ok());
    assert!(ResourceId::from_string("").is_err());
    assert!(ResourceId::from_string("invalid@id").is_err());

    let id = ResourceId::new();
    assert!(id.is_uuid());
    assert_eq!(id.as_str().len(), 36);
}

#[test]
fn test_money_operations() {
    let money1 = Money::new(1000, "USD"); // $10.00
    let money2 = Money::new(500, "USD"); // $5.00

    assert_eq!(money1.format(), "10.00 USD");
    assert_eq!(money2.format(), "5.00 USD");

    let sum = money1.add(&money2).unwrap();
    assert_eq!(sum.amount, 1500);

    let diff = money1.subtract(&money2).unwrap();
    assert_eq!(diff.amount, 500);
}

#[test]
fn resource_id_limits() {
    let long = "a".repeat(255);
    assert_eq!(ResourceId::from_string(&long).unwrap().as_str(), long);
    let too_long = "a".repeat(256);
    match ResourceId::from_string(&too_long) {
        Err(Error::Validation { message, .. }) => {
            assert_eq!(message, "Resource ID cannot exceed 255 characters")
        }
        _ => panic!("expected a validation error"),
    }
    assert!(ResourceId::from_string("héllo").is_ok());
    assert!(!ResourceId::from_string("plain").unwrap().is_uuid());
}

#[test]
fn money_currency_and_formatting() {
    let m = Money::new(-1234, "usd");
    assert_eq!(m.currency, "USD");
    assert_eq!(m.format(), "-12.34 USD");
    assert!(m.is_negative() && !m.is_positive() && !m.is_zero());
    assert_eq!(Money::new(1000, "JPY").format(), "1000.00 JPY");
    assert_eq!(Money::new(1234, "KWD").format(), "1.23 KWD");
    assert_eq!(Money::new(5, "USD").format(), "0.05 USD");
    assert!(Money::new(0, "EUR").is_zero());
    assert_eq!(currency_decimal_places("JPY"), 0);
    assert_eq!(currency_decimal_places("BHD"), 3);
    assert_eq!(currency_decimal_places("USD"), 2);
}

#[test]
fn money_rejects_mixed_currencies_and_overflow() {
    let usd = Money::new(1, "USD");
    let eur = Money::new(1, "EUR");
    match usd.add(&eur) {
        Err(Error::Validation { message, .. }) => assert_eq!(message, "Cannot add USD and EUR"),
        _ => panic!("expected a validation error"),
    }
    assert!(usd.subtract(&eur).is_err());
    assert!(Money::new(i64::MAX, "USD").add(&usd).is_err());
    assert!(Money::new(i64::MIN, "USD").subtract(&usd).is_err());
}

#[test]
fn address_validation_and_format() {
    assert!(Address::new("  ", "Town", "US").is_err());
    assert!(Address::new("1 Road", " ", "US").is_err());
    assert!(Address::new("1 Road", "Town", "USA").is_err());
    let a = Address::new("1 Road", "Town", "gb").unwrap();
    assert_eq!(a.country, "GB");
    assert_eq!(a.format(), "1 Road\nTown\nGB");
    let b = a.clone().with_line2("Flat 2").with_state("Kent").with_postal_code("CT1");
    assert_eq!(b.format(), "1 Road\nFlat 2\nTown, Kent CT1\nGB");
    let c = a.with_line2("   ");
    assert_eq!(c.format(), "1 Road\nTown\nGB");
}

#[test]
fn contact_rejects_bad_email() {
    assert!(Contact::new().with_email("nobody").is_err());
    assert!(Contact::new().with_email("a@b").is_err());
    assert!(Contact::default().with_email("a.b@c").is_ok());
}

struct Thing {
    id: ResourceId,
}

impl Identifiable for Thing {
    type Id = ResourceId;
    fn id(&self) -> &ResourceId {
        &self.id
    }
}

#[test]
fn expandable_references() {
    let id = ResourceId::from_string("abc").unwrap();
    let e: Expandable<Thing> = Expandable::Id(id.clone());
    assert!(!e.is_expanded());
    assert!(e.object().is_none());
    assert_eq!(e.id(), Some(&id));
    assert!(e.into_object().is_err());
    let o = Expandable::Object(Thing { id: ResourceId::from_string("xyz").unwrap() });
    assert!(o.is_expanded());
    assert_eq!(o.id().unwrap().as_str(), "xyz");
    assert_eq!(o.into_object().unwrap().id.as_str(), "xyz");
}

#[test]
fn reference_types_and_list_responses() {
    assert_eq!(ReferenceType::default().as_text(), "product");
    assert_eq!(ReferenceType::Sku.as_text(), "sku");
    assert_eq!(ReferenceType::Custom("lot".to_string()).as_text(), "lot");
    let page = ListResponse { data: vec![1, 2], has_more: true, total_count: Some(9), next_page: Some("n".to_string()) };
    assert_eq!(page.items(), &[1, 2]);
    assert!(page.has_more());
    assert_eq!(page.next_page_token(), Some("n"));
    assert_eq!(page.total_count(), Some(9));
}
