//! Value types shared by the resources: identifiers, money, addresses,
//! contacts and expandable references.
use vstd::prelude::*;
use crate::error::Error;
use crate::text::{to_upper, upper_of, trim, trimmed_of, text_eq, contains_text, contains_seq, push_decimal, decimal_text};
use crate::traits::Identifiable;

verus! {

/// What an inventory operation refers to.
#[derive(Debug, Clone, PartialEq, Eq, Hash)]
pub enum ReferenceType {
    /// A product.
    Product,
    /// A product variant.
    Variant,
    /// A stock keeping unit.
    Sku,
    /// A barcode.
    Barcode,
    /// Any other kind, by name.
    Custom(String),
}

impl Default for ReferenceType {
    fn default() -> (r: ReferenceType)
        ensures
            r is Product,
    {
        ReferenceType::Product
    }
}

impl ReferenceType {
    /// The name of the kind, as the API writes it.
    pub fn as_text(&self) -> (r: String)
        ensures
            r@ == match self {
                ReferenceType::Product => "product"@,
                ReferenceType::Variant => "variant"@,
                ReferenceType::Sku => "sku"@,
                ReferenceType::Barcode => "barcode"@,
                ReferenceType::Custom(v) => v@,
            },
    {
        match self {
            ReferenceType::Product => "product".to_owned(),
            ReferenceType::Variant => "variant".to_owned(),
            ReferenceType::Sku => "sku".to_owned(),
            ReferenceType::Barcode => "barcode".to_owned(),
            ReferenceType::Custom(v) => v.as_str().to_owned(),
        }
    }
}

/// Whether std counts the character as alphanumeric.
pub uninterp spec fn alphanumeric(c: char) -> bool;

/// Whether uuid reads the text as a UUID.
pub uninterp spec fn uuid_text(s: Seq<char>) -> bool;

/// Relies on `char::is_alphanumeric`: a property of the character alone.
#[verifier::external_body]
fn char_is_alphanumeric(c: char) -> (r: bool)
    ensures
        r == alphanumeric(c),
{
    c.is_alphanumeric()
}

/// Relies on `uuid::Uuid::new_v4` and its `Display`: a fresh random UUID as
/// text, in the hyphenated form that `Uuid::parse_str` reads back.
#[verifier::external_body]
fn random_uuid_text() -> (r: String)
    ensures
        uuid_text(r@),
{
    uuid::Uuid::new_v4().to_string()
}

/// Relies on `uuid::Uuid::parse_str`: whether the text parses as a UUID.
#[verifier::external_body]
fn parses_as_uuid(s: &str) -> (r: bool)
    ensures
        r == uuid_text(s@),
{
    uuid::Uuid::parse_str(s).is_ok()
}

/// Longest identifier, in bytes.
pub const MAX_ID_LEN: usize = 255;

/// Whether a character may stand in an identifier.
pub open spec fn id_char(c: char) -> bool {
    alphanumeric(c) || c == '-' || c == '_'
}

/// Whether a text is a valid identifier: not empty, at most 255 bytes, and
/// made of alphanumeric characters, hyphens and underscores.
pub open spec fn valid_id(s: &str) -> bool {
    s@.len() > 0 && s.len() <= MAX_ID_LEN
        && forall|i: int| 0 <= i < s@.len() ==> id_char(#[trigger] s@[i])
}

/// The identifier of a resource.
#[derive(Debug, Clone, PartialEq, Eq, Hash)]
pub struct ResourceId(pub String);

impl ResourceId {
    /// A fresh random identifier, which is a UUID.
    pub fn new() -> (r: ResourceId)
        ensures
            uuid_text(r.0@),
    {
        ResourceId(random_uuid_text())
    }

    /// The identifier written in `id`, or a validation error when it is
    /// empty, longer than 255 bytes, or holds another character than
    /// alphanumerics, `-` and `_`.
    pub fn from_string(id: &str) -> (r: Result<ResourceId, Error>)
        ensures
            r is Ok <==> valid_id(id),
            r matches Ok(v) ==> v.0@ == id@,
            !valid_id(id) ==> r matches Err(Error::Validation { .. }),
            id@.len() == 0 ==> (r matches Err(Error::Validation { message, .. })
                && message@ == "Resource ID cannot be empty"@),
            id@.len() > 0 && id.len() > MAX_ID_LEN ==> (r matches Err(Error::Validation { message, .. })
                && message@ == "Resource ID cannot exceed 255 characters"@),
    {
        let n = id.unicode_len();
        if n == 0 {
            return Err(Error::validation("Resource ID cannot be empty"));
        }
        if id.len() > MAX_ID_LEN {
            return Err(Error::validation("Resource ID cannot exceed 255 characters"));
        }
        let mut i: usize = 0;
        while i < n
            invariant
                i <= n,
                n == id@.len(),
                id.len() <= MAX_ID_LEN,
                forall|k: int| 0 <= k < i ==> id_char(#[trigger] id@[k]),
            decreases n - i,
        {
            let c = id.get_char(i);
            if !(char_is_alphanumeric(c) || c == '-' || c == '_') {
                return Err(Error::validation(
                    "Resource ID can only contain alphanumeric characters, hyphens, and underscores",
                ));
            }
            i = i + 1;
        }
        Ok(ResourceId(id.to_owned()))
    }

    /// The identifier's text.
    pub fn as_str(&self) -> (r: &str)
        ensures
            r@ == self.0@,
    {
        self.0.as_str()
    }

    /// Whether the identifier is a UUID.
    pub fn is_uuid(&self) -> (r: bool)
        ensures
            r == uuid_text(self.0@),
    {
        parses_as_uuid(self.0.as_str())
    }
}

/// An amount of money in the smallest unit of its currency.
#[derive(Debug, Clone)]
pub struct Money {
    /// Amount in the smallest unit (cents for USD).
    pub amount: i64,
    /// ISO 4217 currency code, upper case.
    pub currency: String,
}

/// The currencies written without decimals.
pub open spec fn zero_decimal_currencies() -> Seq<Seq<char>> {
    seq!["JPY"@, "KRW"@, "CLP"@, "ISK"@, "PYG"@, "VND"@, "XAF"@, "XOF"@, "XPF"@]
}

/// The currencies written with three decimals.
pub open spec fn three_decimal_currencies() -> Seq<Seq<char>> {
    seq!["BHD"@, "IQD"@, "JOD"@, "KWD"@, "LYD"@, "OMR"@, "TND"@]
}

/// The number of decimals of a currency: 0, 3, or 2 for any other.
pub open spec fn decimal_places(currency: Seq<char>) -> u8 {
    if zero_decimal_currencies().contains(currency) {
        0
    } else if three_decimal_currencies().contains(currency) {
        3
    } else {
        2
    }
}

/// Whether `s` is one of `names`.
fn one_of(s: &str, names: &Vec<&str>) -> (r: bool)
    ensures
        r == names@.map_values(|n: &str| n@).contains(s@),
{
    let ghost views = names@.map_values(|n: &str| n@);
    let mut i: usize = 0;
    while i < names.len()
        invariant
            i <= names@.len(),
            views == names@.map_values(|n: &str| n@),
            forall|k: int| 0 <= k < i ==> views[k] != s@,
        decreases names@.len() - i,
    {
        if text_eq(s, names[i]) {
            assert(views[i as int] == s@);
            return true;
        }
        i = i + 1;
    }
    false
}

/// The number of decimals of a currency.
pub fn currency_decimal_places(currency: &str) -> (r: u8)
    ensures
        r == decimal_places(currency@),
{
    let zero = vec!["JPY", "KRW", "CLP", "ISK", "PYG", "VND", "XAF", "XOF", "XPF"];
    let three = vec!["BHD", "IQD", "JOD", "KWD", "LYD", "OMR", "TND"];
    proof {
        assert(zero@.map_values(|n: &str| n@) =~= zero_decimal_currencies());
        assert(three@.map_values(|n: &str| n@) =~= three_decimal_currencies());
    }
    if one_of(currency, &zero) {
        0
    } else if one_of(currency, &three) {
        3
    } else {
        2
    }
}

/// Two decimal digits of a number below a hundred.
pub open spec fn two_digits(n: nat) -> Seq<char> {
    if n < 10 { seq!['0'] + decimal_text(n) } else { decimal_text(n) }
}

/// The size of an amount in hundredths of the major unit, with three
/// decimals rounded half up.
pub open spec fn hundredths(magnitude: nat, places: u8) -> nat {
    if places == 0 {
        magnitude * 100
    } else if places == 3 {
        (magnitude + 5) / 10
    } else {
        magnitude
    }
}

/// How an amount is written: sign, major units, a point, two decimals, a
/// space and the currency.
pub open spec fn money_text(amount: i64, currency: Seq<char>) -> Seq<char> {
    let magnitude: nat = if amount < 0 { (-amount) as nat } else { amount as nat };
    let h = hundredths(magnitude, decimal_places(currency));
    (if amount < 0 { seq!['-'] } else { seq![] }) + decimal_text(h / 100) + seq!['.']
        + two_digits(h % 100) + seq![' '] + currency
}

impl Money {
    /// An amount in the given currency, whose code is put in upper case.
    pub fn new(amount: i64, currency: &str) -> (r: Money)
        ensures
            r.amount == amount,
            r.currency@ == upper_of(currency@),
    {
        Money { amount, currency: to_upper(currency) }
    }

    /// The amount written in major units with two decimals, then the
    /// currency: `10.00 USD` for 1000 cents.
    pub fn format(&self) -> (r: String)
        ensures
            r@ == money_text(self.amount, self.currency@),
    {
        let places = currency_decimal_places(self.currency.as_str());
        let magnitude: u128 = if self.amount < 0 { (0 - (self.amount as i128)) as u128 } else { self.amount as u128 };
        let h: u128 = if places == 0 {
            magnitude * 100
        } else if places == 3 {
            (magnitude + 5) / 10
        } else {
            magnitude
        };
        assert(h == hundredths(magnitude as nat, places));
        let major = (h / 100) as u64;
        let minor = (h % 100) as u64;
        let mut out = String::new();
        if self.amount < 0 {
            crate::text::push_char(&mut out, '-');
        }
        push_decimal(&mut out, major);
        crate::text::push_char(&mut out, '.');
        if minor < 10 {
            crate::text::push_char(&mut out, '0');
        }
        push_decimal(&mut out, minor);
        crate::text::push_char(&mut out, ' ');
        let out = out.concat(self.currency.as_str());
        assert(out@ =~= money_text(self.amount, self.currency@));
        out
    }

    /// Whether the amount is zero.
    pub fn is_zero(&self) -> (r: bool)
        ensures
            r == (self.amount == 0),
    {
        self.amount == 0
    }

    /// Whether the amount is above zero.
    pub fn is_positive(&self) -> (r: bool)
        ensures
            r == (self.amount > 0),
    {
        self.amount > 0
    }

    /// Whether the amount is below zero.
    pub fn is_negative(&self) -> (r: bool)
        ensures
            r == (self.amount < 0),
    {
        self.amount < 0
    }

    /// The sum of two amounts in one currency; a validation error for two
    /// currencies, or for a sum outside `i64`.
    pub fn add(&self, other: &Money) -> (r: Result<Money, Error>)
        ensures
            r is Ok <==> (self.currency@ == other.currency@ && i64::MIN <= self.amount + other.amount <= i64::MAX),
            r matches Ok(m) ==> m.amount == self.amount + other.amount && m.currency@ == self.currency@,
            self.currency@ != other.currency@ ==> r matches Err(Error::Validation { .. }),
    {
        if !text_eq(self.currency.as_str(), other.currency.as_str()) {
            let msg = "Cannot add ".to_owned().concat(self.currency.as_str()).concat(" and ").concat(other.currency.as_str());
            return Err(Error::validation(msg.as_str()));
        }
        match self.amount.checked_add(other.amount) {
            Some(sum) => Ok(Money { amount: sum, currency: self.currency.as_str().to_owned() }),
            None => Err(Error::validation("Amount out of range")),
        }
    }

    /// The difference of two amounts in one currency; a validation error for
    /// two currencies, or for a difference outside `i64`.
    pub fn subtract(&self, other: &Money) -> (r: Result<Money, Error>)
        ensures
            r is Ok <==> (self.currency@ == other.currency@ && i64::MIN <= self.amount - other.amount <= i64::MAX),
            r matches Ok(m) ==> m.amount == self.amount - other.amount && m.currency@ == self.currency@,
            self.currency@ != other.currency@ ==> r matches Err(Error::Validation { .. }),
    {
        if !text_eq(self.currency.as_str(), other.currency.as_str()) {
            let msg = "Cannot subtract ".to_owned().concat(self.currency.as_str()).concat(" and ").concat(other.currency.as_str());
            return Err(Error::validation(msg.as_str()));
        }
        match self.amount.checked_sub(other.amount) {
            Some(diff) => Ok(Money { amount: diff, currency: self.currency.as_str().to_owned() }),
            None => Err(Error::validation("Amount out of range")),
        }
    }
}

/// A postal address.
#[derive(Debug, Clone)]
pub struct Address {
    /// First line.
    pub line1: String,
    /// Second line.
    pub line2: Option<String>,
    /// City.
    pub city: String,
    /// State or province.
    pub state: Option<String>,
    /// Postal code.
    pub postal_code: Option<String>,
    /// ISO 3166-1 alpha-2 country code, upper case.
    pub country: String,
}

/// A text with one line break between each two lines.
pub open spec fn joined_lines(lines: Seq<Seq<char>>) -> Seq<char>
    decreases lines.len(),
{
    if lines.len() == 0 {
        seq![]
    } else if lines.len() == 1 {
        lines[0]
    } else {
        joined_lines(lines.drop_last()) + seq!['\n'] + lines.last()
    }
}

impl Address {
    /// The lines of the formatted address: the first line, the second when
    /// it is not blank, the city with the state and postal code, the country.
    pub open spec fn lines(&self) -> Seq<Seq<char>> {
        let second: Seq<Seq<char>> = match self.line2 {
            Some(l) if trimmed_of(l@).len() > 0 => seq![l@],
            _ => seq![],
        };
        seq![self.line1@] + second + seq![self.city_line(), self.country@]
    }

    /// The city, then `, ` and the state and ` ` and the postal code when set.
    pub open spec fn city_line(&self) -> Seq<char> {
        let with_state = match self.state {
            Some(s) => self.city@ + ", "@ + s@,
            None => self.city@,
        };
        match self.postal_code {
            Some(p) => with_state + " "@ + p@,
            None => with_state,
        }
    }

    /// An address, or a validation error when the first line or the city is
    /// blank, or the country code is not two bytes long.
    pub fn new(line1: &str, city: &str, country: &str) -> (r: Result<Address, Error>)
        ensures
            r is Ok <==> (trimmed_of(line1@).len() > 0 && trimmed_of(city@).len() > 0
                && country.len() == 2),
            r matches Ok(a) ==> a.line1@ == line1@ && a.city@ == city@ && a.country@ == upper_of(country@)
                && a.line2 is None && a.state is None && a.postal_code is None,
    {
        if trim(line1).unicode_len() == 0 {
            return Err(Error::validation("Address line 1 cannot be empty"));
        }
        if trim(city).unicode_len() == 0 {
            return Err(Error::validation("City cannot be empty"));
        }
        if country.len() != 2 {
            return Err(Error::validation("Country must be a 2-letter ISO code"));
        }
        Ok(Address {
            line1: line1.to_owned(),
            line2: None,
            city: city.to_owned(),
            state: None,
            postal_code: None,
            country: to_upper(country),
        })
    }

    /// Sets the second line.
    pub fn with_line2(self, line2: &str) -> (r: Address)
        ensures
            r.line2 matches Some(l) && l@ == line2@,
            r == (Address { line2: r.line2, ..self }),
    {
        Address { line2: Some(line2.to_owned()), ..self }
    }

    /// Sets the state or province.
    pub fn with_state(self, state: &str) -> (r: Address)
        ensures
            r.state matches Some(s) && s@ == state@,
            r == (Address { state: r.state, ..self }),
    {
        Address { state: Some(state.to_owned()), ..self }
    }

    /// Sets the postal code.
    pub fn with_postal_code(self, postal_code: &str) -> (r: Address)
        ensures
            r.postal_code matches Some(p) && p@ == postal_code@,
            r == (Address { postal_code: r.postal_code, ..self }),
    {
        Address { postal_code: Some(postal_code.to_owned()), ..self }
    }

    /// The address on several lines.
    pub fn format(&self) -> (r: String)
        ensures
            r@ == joined_lines(self.lines()),
    {
        proof {
            reveal_strlit("\n");
        }
        let ghost mut lines: Seq<Seq<char>> = seq![self.line1@];
        let mut out = self.line1.as_str().to_owned();
        assert(out@ == joined_lines(lines));
        match &self.line2 {
            Some(l) => {
                if trim(l.as_str()).unicode_len() > 0 {
                    out = out.concat("\n").concat(l.as_str());
                    proof {
                        let prev = lines;
                        lines = lines.push(l@);
                        assert(lines.drop_last() =~= prev);
                        assert(out@ =~= joined_lines(lines));
                    }
                }
            },
            None => {},
        }
        let mut city = self.city.as_str().to_owned();
        match &self.state {
            Some(s) => { city = city.concat(", ").concat(s.as_str()); },
            None => {},
        }
        match &self.postal_code {
            Some(p) => { city = city.concat(" ").concat(p.as_str()); },
            None => {},
        }
        assert(city@ =~= self.city_line());
        out = out.concat("\n").concat(city.as_str());
        proof {
            let prev = lines;
            lines = lines.push(city@);
            assert(lines.drop_last() =~= prev);
            assert(out@ =~= joined_lines(lines));
        }
        out = out.concat("\n").concat(self.country.as_str());
        proof {
            let prev = lines;
            lines = lines.push(self.country@);
            assert(lines.drop_last() =~= prev);
            assert(out@ =~= joined_lines(lines));
            assert(lines =~= self.lines());
        }
        out
    }
}

/// Contact details.
#[derive(Debug, Clone)]
pub struct Contact {
    /// Name.
    pub name: Option<String>,
    /// Email address.
    pub email: Option<String>,
    /// Phone number.
    pub phone: Option<String>,
}

impl Contact {
    /// No details.
    pub fn new() -> (r: Contact)
        ensures
            r.name is None && r.email is None && r.phone is None,
    {
        Contact { name: None, email: None, phone: None }
    }

    /// Sets the name.
    pub fn with_name(self, name: &str) -> (r: Contact)
        ensures
            r.name matches Some(n) && n@ == name@,
            r == (Contact { name: r.name, ..self }),
    {
        Contact { name: Some(name.to_owned()), ..self }
    }

    /// Sets the email address, which must hold an `@` and a `.`; else a
    /// validation error.
    pub fn with_email(self, email: &str) -> (r: Result<Contact, Error>)
        ensures
            r is Ok <==> (contains_seq(email@, "@"@) && contains_seq(email@, "."@)),
            r matches Err(e) ==> (e matches Error::Validation { message, field: None, code: None }
                && message@ == "Invalid email address format"@),
            r matches Ok(c) ==> c.email matches Some(e) && e@ == email@
                && c == (Contact { email: c.email, ..self }),
    {
        if !contains_text(email, "@") || !contains_text(email, ".") {
            return Err(Error::validation("Invalid email address format"));
        }
        Ok(Contact { email: Some(email.to_owned()), ..self })
    }

    /// Sets the phone number.
    pub fn with_phone(self, phone: &str) -> (r: Contact)
        ensures
            r.phone matches Some(p) && p@ == phone@,
            r == (Contact { phone: r.phone, ..self }),
    {
        Contact { phone: Some(phone.to_owned()), ..self }
    }
}

impl Default for Contact {
    fn default() -> (r: Contact)
        ensures
            r.name is None && r.email is None && r.phone is None,
    {
        Contact::new()
    }
}

/// A reference that holds either an identifier or the whole object.
#[derive(Debug, Clone)]
pub enum Expandable<T> {
    /// Only the identifier.
    Id(ResourceId),
    /// The whole object.
    Object(T),
}

impl<T> Expandable<T> {
    /// Whether the whole object is there.
    pub fn is_expanded(&self) -> (r: bool)
        ensures
            r == (self is Object),
    {
        match self {
            Expandable::Id(_) => false,
            Expandable::Object(_) => true,
        }
    }

    /// The object, when expanded.
    pub fn object(&self) -> (r: Option<&T>)
        ensures
            match self {
                Expandable::Object(o) => r == Some(o),
                Expandable::Id(_) => r is None,
            },
    {
        match self {
            Expandable::Id(_) => None,
            Expandable::Object(o) => Some(o),
        }
    }

    /// The object, or a validation error when only the identifier is there.
    pub fn into_object(self) -> (r: Result<T, Error>)
        ensures
            match self {
                Expandable::Object(o) => r == Ok::<T, Error>(o),
                Expandable::Id(_) => r matches Err(Error::Validation { message, .. })
                    && message@ == "Field is not expanded"@,
            },
    {
        match self {
            Expandable::Id(_) => Err(Error::validation("Field is not expanded")),
            Expandable::Object(o) => Ok(o),
        }
    }
}

impl<T: Identifiable<Id = ResourceId>> Expandable<T> {
    /// The identifier, whether expanded or not.
    pub fn id(&self) -> (r: Option<&ResourceId>)
        ensures
            r is Some,
            self matches Expandable::Id(i) ==> r == Some(i),
    {
        match self {
            Expandable::Id(i) => Some(i),
            Expandable::Object(o) => Some(o.id()),
        }
    }
}

} // verus!
