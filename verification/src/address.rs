//! Validation and normalization of optional billing and shipping postal
//! fields against the provider's length limits. An absent address is not an
//! error; a present-but-oversized field is, and the first oversized field in
//! the order name, street, city, post code, country is the one reported.

use vstd::prelude::*;
use crate::errors::ConnectorError;
use crate::metadata::opt_str_view;

verus! {

pub const MAX_BILLING_ADDRESS_NAME_LENGTH: usize = 50;

pub const MAX_BILLING_ADDRESS_STREET_LENGTH: usize = 50;

pub const MAX_BILLING_ADDRESS_CITY_LENGTH: usize = 40;

pub const MAX_BILLING_ADDRESS_POST_CODE_LENGTH: usize = 16;

pub const MAX_BILLING_ADDRESS_COUNTRY_LENGTH: usize = 3;

/// The postal fields of a source address as the orchestrator hands them
/// over, before validation.
#[derive(Debug, Clone, PartialEq, Eq)]
pub struct RawAddress {
    pub line1: Option<String>,
    pub line2: Option<String>,
    pub full_name: Option<String>,
    pub city: Option<String>,
    pub zip: Option<String>,
    pub country: Option<String>,
}

/// Which role an address plays in the request.
#[derive(Debug, Clone, Copy, PartialEq, Eq, Structural)]
pub enum AddressKind {
    Billing,
    Shipping,
}

/// Mathematical model of a raw source address.
pub ghost struct RawAddressView {
    pub line1: Option<Seq<char>>,
    pub line2: Option<Seq<char>>,
    pub full_name: Option<Seq<char>>,
    pub city: Option<Seq<char>>,
    pub zip: Option<Seq<char>>,
    pub country: Option<Seq<char>>,
}

impl View for RawAddress {
    type V = RawAddressView;

    open spec fn view(&self) -> RawAddressView {
        RawAddressView {
            line1: opt_str_view(self.line1),
            line2: opt_str_view(self.line2),
            full_name: opt_str_view(self.full_name),
            city: opt_str_view(self.city),
            zip: opt_str_view(self.zip),
            country: opt_str_view(self.country),
        }
    }
}

/// Mathematical model of a validated address: the five normalized fields.
pub ghost struct AddressFieldsView {
    pub name: Option<Seq<char>>,
    pub street: Option<Seq<char>>,
    pub city: Option<Seq<char>>,
    pub post_code: Option<Seq<char>>,
    pub country: Option<Seq<char>>,
}

/// Validated billing address as it goes on the wire.
#[derive(Debug, Clone, PartialEq, Eq)]
pub struct BillingAddress {
    pub name: Option<String>,
    pub street: Option<String>,
    pub city: Option<String>,
    pub post_code: Option<String>,
    pub country: Option<String>,
}

impl View for BillingAddress {
    type V = AddressFieldsView;

    open spec fn view(&self) -> AddressFieldsView {
        AddressFieldsView {
            name: opt_str_view(self.name),
            street: opt_str_view(self.street),
            city: opt_str_view(self.city),
            post_code: opt_str_view(self.post_code),
            country: opt_str_view(self.country),
        }
    }
}

impl BillingAddress {
    /// A billing address with exactly the given fields.
    pub fn new(
        name: Option<String>,
        street: Option<String>,
        city: Option<String>,
        post_code: Option<String>,
        country: Option<String>,
    ) -> (r: Self)
        ensures
            r@ == (AddressFieldsView {
                name: opt_str_view(name),
                street: opt_str_view(street),
                city: opt_str_view(city),
                post_code: opt_str_view(post_code),
                country: opt_str_view(country),
            }),
    {
        Self { name, street, city, post_code, country }
    }
}

/// Validated shipping address as it goes on the wire.
#[derive(Debug, Clone, PartialEq, Eq)]
pub struct ShippingAddress {
    pub name: Option<String>,
    pub street: Option<String>,
    pub city: Option<String>,
    pub post_code: Option<String>,
    pub country: Option<String>,
}

impl View for ShippingAddress {
    type V = AddressFieldsView;

    open spec fn view(&self) -> AddressFieldsView {
        AddressFieldsView {
            name: opt_str_view(self.name),
            street: opt_str_view(self.street),
            city: opt_str_view(self.city),
            post_code: opt_str_view(self.post_code),
            country: opt_str_view(self.country),
        }
    }
}

impl ShippingAddress {
    /// A shipping address with exactly the given fields.
    pub fn new(
        name: Option<String>,
        street: Option<String>,
        city: Option<String>,
        post_code: Option<String>,
        country: Option<String>,
    ) -> (r: Self)
        ensures
            r@ == (AddressFieldsView {
                name: opt_str_view(name),
                street: opt_str_view(street),
                city: opt_str_view(city),
                post_code: opt_str_view(post_code),
                country: opt_str_view(country),
            }),
    {
        Self { name, street, city, post_code, country }
    }
}

/// The street line synthesized from the two source lines: both joined with
/// a comma where both are present, else whichever is present.
pub open spec fn spec_street(line1: Option<Seq<char>>, line2: Option<Seq<char>>) -> Option<
    Seq<char>,
> {
    match (line1, line2) {
        (Some(l1), Some(l2)) => Some(l1 + ", "@ + l2),
        (Some(l1), None) => Some(l1),
        (None, Some(l2)) => Some(l2),
        (None, None) => None,
    }
}

/// Whether an optional field is present and longer than the limit.
pub open spec fn spec_over(o: Option<Seq<char>>, max: int) -> bool {
    o matches Some(s) && s.len() > max
}

pub open spec fn spec_name_over(a: RawAddressView) -> bool {
    spec_over(a.full_name, MAX_BILLING_ADDRESS_NAME_LENGTH as int)
}

pub open spec fn spec_street_over(a: RawAddressView) -> bool {
    spec_over(spec_street(a.line1, a.line2), MAX_BILLING_ADDRESS_STREET_LENGTH as int)
}

pub open spec fn spec_city_over(a: RawAddressView) -> bool {
    spec_over(a.city, MAX_BILLING_ADDRESS_CITY_LENGTH as int)
}

pub open spec fn spec_zip_over(a: RawAddressView) -> bool {
    spec_over(a.zip, MAX_BILLING_ADDRESS_POST_CODE_LENGTH as int)
}

pub open spec fn spec_country_over(a: RawAddressView) -> bool {
    spec_over(a.country, MAX_BILLING_ADDRESS_COUNTRY_LENGTH as int)
}

/// Every present field is within its limit.
pub open spec fn spec_address_within_limits(a: RawAddressView) -> bool {
    &&& !spec_name_over(a)
    &&& !spec_street_over(a)
    &&& !spec_city_over(a)
    &&& !spec_zip_over(a)
    &&& !spec_country_over(a)
}

/// The normalized output fields of a valid source address.
pub open spec fn spec_validated_fields(a: RawAddressView) -> AddressFieldsView {
    AddressFieldsView {
        name: a.full_name,
        street: spec_street(a.line1, a.line2),
        city: a.city,
        post_code: a.zip,
        country: a.country,
    }
}

/// The composite source field each reported violation names, per role.
pub open spec fn spec_name_field(kind: AddressKind) -> Seq<char> {
    match kind {
        AddressKind::Billing => "billing.address.first_name & billing.address.last_name"@,
        AddressKind::Shipping => "shipping.address.first_name & shipping.address.last_name"@,
    }
}

pub open spec fn spec_street_field(kind: AddressKind) -> Seq<char> {
    match kind {
        AddressKind::Billing => "billing.address.line1 & billing.address.line2"@,
        AddressKind::Shipping => "shipping.address.line1 & shipping.address.line2"@,
    }
}

pub open spec fn spec_city_field(kind: AddressKind) -> Seq<char> {
    match kind {
        AddressKind::Billing => "billing.address.city"@,
        AddressKind::Shipping => "shipping.address.city"@,
    }
}

pub open spec fn spec_zip_field(kind: AddressKind) -> Seq<char> {
    match kind {
        AddressKind::Billing => "billing.address.zip"@,
        AddressKind::Shipping => "shipping.address.zip"@,
    }
}

pub open spec fn spec_country_field(kind: AddressKind) -> Seq<char> {
    match kind {
        AddressKind::Billing => "billing.address.country"@,
        AddressKind::Shipping => "shipping.address.country"@,
    }
}

/// The error reported for an address whose first oversized field, in the
/// order name, street, city, post code, country, is the one named.
pub open spec fn spec_address_violation_err(
    a: RawAddressView,
    kind: AddressKind,
    e: ConnectorError,
) -> bool {
    if spec_name_over(a) {
        crate::errors::is_max_length_err(
            e,
            spec_name_field(kind),
            MAX_BILLING_ADDRESS_NAME_LENGTH as int,
            a.full_name->Some_0.len() as int,
        )
    } else if spec_street_over(a) {
        crate::errors::is_max_length_err(
            e,
            spec_street_field(kind),
            MAX_BILLING_ADDRESS_STREET_LENGTH as int,
            spec_street(a.line1, a.line2)->Some_0.len() as int,
        )
    } else if spec_city_over(a) {
        crate::errors::is_max_length_err(
            e,
            spec_city_field(kind),
            MAX_BILLING_ADDRESS_CITY_LENGTH as int,
            a.city->Some_0.len() as int,
        )
    } else if spec_zip_over(a) {
        crate::errors::is_max_length_err(
            e,
            spec_zip_field(kind),
            MAX_BILLING_ADDRESS_POST_CODE_LENGTH as int,
            a.zip->Some_0.len() as int,
        )
    } else if spec_country_over(a) {
        crate::errors::is_max_length_err(
            e,
            spec_country_field(kind),
            MAX_BILLING_ADDRESS_COUNTRY_LENGTH as int,
            a.country->Some_0.len() as int,
        )
    } else {
        false
    }
}

/// Carrier for the five validated fields, shared by both roles.
#[derive(Debug, Clone, PartialEq, Eq)]
pub struct AddressFields {
    pub name: Option<String>,
    pub street: Option<String>,
    pub city: Option<String>,
    pub post_code: Option<String>,
    pub country: Option<String>,
}

impl View for AddressFields {
    type V = AddressFieldsView;

    open spec fn view(&self) -> AddressFieldsView {
        AddressFieldsView {
            name: opt_str_view(self.name),
            street: opt_str_view(self.street),
            city: opt_str_view(self.city),
            post_code: opt_str_view(self.post_code),
            country: opt_str_view(self.country),
        }
    }
}

/// The field name reported for a name violation of this role.
fn name_field(kind: AddressKind) -> (r: String)
    ensures
        r@ == spec_name_field(kind),
{
    match kind {
        AddressKind::Billing => "billing.address.first_name & billing.address.last_name".to_owned(),
        AddressKind::Shipping => "shipping.address.first_name & shipping.address.last_name"
            .to_owned(),
    }
}

/// The field name reported for a street violation of this role.
fn street_field(kind: AddressKind) -> (r: String)
    ensures
        r@ == spec_street_field(kind),
{
    match kind {
        AddressKind::Billing => "billing.address.line1 & billing.address.line2".to_owned(),
        AddressKind::Shipping => "shipping.address.line1 & shipping.address.line2".to_owned(),
    }
}

/// The field name reported for a city violation of this role.
fn city_field(kind: AddressKind) -> (r: String)
    ensures
        r@ == spec_city_field(kind),
{
    match kind {
        AddressKind::Billing => "billing.address.city".to_owned(),
        AddressKind::Shipping => "shipping.address.city".to_owned(),
    }
}

/// The field name reported for a post-code violation of this role.
fn zip_field(kind: AddressKind) -> (r: String)
    ensures
        r@ == spec_zip_field(kind),
{
    match kind {
        AddressKind::Billing => "billing.address.zip".to_owned(),
        AddressKind::Shipping => "shipping.address.zip".to_owned(),
    }
}

/// The field name reported for a country violation of this role.
fn country_field(kind: AddressKind) -> (r: String)
    ensures
        r@ == spec_country_field(kind),
{
    match kind {
        AddressKind::Billing => "billing.address.country".to_owned(),
        AddressKind::Shipping => "shipping.address.country".to_owned(),
    }
}

/// A length-violation error for one composite field of this provider.
fn max_length_err(field_name: String, max_length: usize, received_length: usize) -> (e:
    ConnectorError)
    ensures
        crate::errors::is_max_length_err(
            e,
            field_name@,
            max_length as int,
            received_length as int,
        ),
{
    ConnectorError::MaxFieldLengthViolated {
        field_name,
        connector: "Nexixpay".to_owned(),
        max_length,
        received_length,
    }
}

/// Validates the postal fields of one optional source address: absent
/// address means no output and no error; a present address yields the
/// normalized fields if every present field is within its limit, else the
/// first violation in the order name, street, city, post code, country.
fn validate_address_fields(addr: &Option<RawAddress>, kind: AddressKind) -> (r: Result<
    Option<AddressFields>,
    ConnectorError,
>)
    ensures
        match *addr {
            None => r matches Ok(o) && o is None,
            Some(a) => match r {
                Ok(o) => o matches Some(f) && spec_address_within_limits(a@) && f@
                    == spec_validated_fields(a@),
                Err(e) => spec_address_violation_err(a@, kind, e),
            },
        },
{
    let a = match addr {
        Some(a) => a,
        None => {
            return Ok(None);
        },
    };
    let street: Option<String> = match (&a.line1, &a.line2) {
        (Some(l1), Some(l2)) => {
            let mut s = l1.clone();
            s.append(", ");
            s.append(l2.as_str());
            Some(s)
        },
        (Some(l1), None) => Some(l1.clone()),
        (None, Some(l2)) => Some(l2.clone()),
        (None, None) => None,
    };
    if let Some(val) = &a.full_name {
        let length = val.as_str().unicode_len();
        if length > MAX_BILLING_ADDRESS_NAME_LENGTH {
            return Err(max_length_err(name_field(kind), MAX_BILLING_ADDRESS_NAME_LENGTH, length));
        }
    }
    if let Some(val) = &street {
        let length = val.as_str().unicode_len();
        if length > MAX_BILLING_ADDRESS_STREET_LENGTH {
            return Err(
                max_length_err(street_field(kind), MAX_BILLING_ADDRESS_STREET_LENGTH, length),
            );
        }
    }
    if let Some(val) = &a.city {
        let length = val.as_str().unicode_len();
        if length > MAX_BILLING_ADDRESS_CITY_LENGTH {
            return Err(max_length_err(city_field(kind), MAX_BILLING_ADDRESS_CITY_LENGTH, length));
        }
    }
    if let Some(val) = &a.zip {
        let length = val.as_str().unicode_len();
        if length > MAX_BILLING_ADDRESS_POST_CODE_LENGTH {
            return Err(
                max_length_err(zip_field(kind), MAX_BILLING_ADDRESS_POST_CODE_LENGTH, length),
            );
        }
    }
    if let Some(val) = &a.country {
        let length = val.as_str().unicode_len();
        if length > MAX_BILLING_ADDRESS_COUNTRY_LENGTH {
            return Err(
                max_length_err(country_field(kind), MAX_BILLING_ADDRESS_COUNTRY_LENGTH, length),
            );
        }
    }
    let name = match &a.full_name {
        Some(v) => Some(v.clone()),
        None => None,
    };
    let city = match &a.city {
        Some(v) => Some(v.clone()),
        None => None,
    };
    let post_code = match &a.zip {
        Some(v) => Some(v.clone()),
        None => None,
    };
    let country = match &a.country {
        Some(v) => Some(v.clone()),
        None => None,
    };
    Ok(Some(AddressFields { name, street, city, post_code, country }))
}

/// Validates the optional billing address of a context: `None` where the
/// source address is absent, the normalized billing address where every
/// field is within its limit, else the first length violation in order.
pub fn get_validated_billing_address(addr: &Option<RawAddress>) -> (r: Result<
    Option<BillingAddress>,
    ConnectorError,
>)
    ensures
        match *addr {
            None => r matches Ok(o) && o is None,
            Some(a) => match r {
                Ok(o) => o matches Some(f) && spec_address_within_limits(a@) && f@
                    == spec_validated_fields(a@),
                Err(e) => spec_address_violation_err(a@, AddressKind::Billing, e),
            },
        },
{
    match validate_address_fields(addr, AddressKind::Billing) {
        Ok(Some(f)) => Ok(
            Some(BillingAddress::new(f.name, f.street, f.city, f.post_code, f.country)),
        ),
        Ok(None) => Ok(None),
        Err(e) => Err(e),
    }
}

/// Validates the optional shipping address of a context, as for billing.
pub fn get_validated_shipping_address(addr: &Option<RawAddress>) -> (r: Result<
    Option<ShippingAddress>,
    ConnectorError,
>)
    ensures
        match *addr {
            None => r matches Ok(o) && o is None,
            Some(a) => match r {
                Ok(o) => o matches Some(f) && spec_address_within_limits(a@) && f@
                    == spec_validated_fields(a@),
                Err(e) => spec_address_violation_err(a@, AddressKind::Shipping, e),
            },
        },
{
    match validate_address_fields(addr, AddressKind::Shipping) {
        Ok(Some(f)) => Ok(
            Some(ShippingAddress::new(f.name, f.street, f.city, f.post_code, f.country)),
        ),
        Ok(None) => Ok(None),
        Err(e) => Err(e),
    }
}

} // verus!
