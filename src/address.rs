use vstd::prelude::*;
use crate::error::{AppResult, AuthError, ValidationIssue};
use crate::text::{all_whitespace, clone_opt, is_blank};

verus! {

/// Whether an address is in use.
#[derive(Debug, Clone, Copy, PartialEq, Eq, Structural)]
pub enum Status {
    ACTIVE,
    INACTIVE,
}

/// A postal address of a user.
#[derive(Debug, Clone)]
pub struct ModelEx {
    pub id: i64,
    pub user_id: i64,
    pub title: Option<String>,
    pub address_line_1: String,
    pub address_line_2: Option<String>,
    pub country: String,
    pub city: String,
    pub postal_code: Option<String>,
    pub landmark: Option<String>,
    pub phone_number: Option<String>,
    pub status: Status,
    pub is_deleted: bool,
    pub created_at: Option<i64>,
    pub deleted_at: Option<i64>,
}

pub type Model = ModelEx;

/// The fields of a new address.
pub struct CreateAddressRequest {
    pub user_id: i64,
    pub title: Option<String>,
    pub address_line_1: String,
    pub address_line_2: Option<String>,
    pub country: String,
    pub city: String,
    pub postal_code: Option<String>,
    pub landmark: Option<String>,
    pub phone_number: Option<String>,
}

/// The fields of an address to change; `None` keeps a field.
pub struct UpdateAddressRequest {
    pub title: Option<String>,
    pub address_line_1: Option<String>,
    pub address_line_2: Option<String>,
    pub country: Option<String>,
    pub city: Option<String>,
    pub postal_code: Option<String>,
    pub landmark: Option<String>,
    pub phone_number: Option<String>,
    pub status: Option<Status>,
}

/// The first required field of a new address that is blank.
pub open spec fn create_address_violation(r: &CreateAddressRequest) -> Option<AuthError> {
    if all_whitespace(r.address_line_1@) {
        Some(AuthError::Validation(ValidationIssue::AddressLineRequired))
    } else if all_whitespace(r.country@) {
        Some(AuthError::Validation(ValidationIssue::CountryRequired))
    } else if all_whitespace(r.city@) {
        Some(AuthError::Validation(ValidationIssue::CityRequired))
    } else {
        None
    }
}

/// The first field given in an update that is blank but required.
pub open spec fn update_address_violation(r: &UpdateAddressRequest) -> Option<AuthError> {
    if r.address_line_1 is Some && all_whitespace(r.address_line_1->Some_0@) {
        Some(AuthError::Validation(ValidationIssue::AddressLineRequired))
    } else if r.country is Some && all_whitespace(r.country->Some_0@) {
        Some(AuthError::Validation(ValidationIssue::CountryRequired))
    } else if r.city is Some && all_whitespace(r.city->Some_0@) {
        Some(AuthError::Validation(ValidationIssue::CityRequired))
    } else {
        None
    }
}

/// `new` where given, else `old`.
pub open spec fn or_keep<T>(new: Option<T>, old: T) -> T {
    match new {
        Some(v) => v,
        None => old,
    }
}

/// `Some(new)` where given, else `old`.
pub open spec fn or_keep_opt<T>(new: Option<T>, old: Option<T>) -> Option<T> {
    match new {
        Some(v) => Some(v),
        None => old,
    }
}

fn take_or(new: &Option<String>, old: String) -> (r: String)
    ensures
        r == or_keep(*new, old),
{
    match new {
        Some(v) => v.clone(),
        None => old,
    }
}

fn take_or_opt(new: &Option<String>, old: Option<String>) -> (r: Option<String>)
    ensures
        r == or_keep_opt(*new, old),
{
    match new {
        Some(v) => Some(v.clone()),
        None => old,
    }
}

impl ModelEx {
    /// A new active address from the request; the store assigns the id.
    pub fn create_new_address(request: &CreateAddressRequest) -> (r: AppResult<Self>)
        ensures
            match create_address_violation(request) {
                Some(e) => r == Err::<Self, AuthError>(e),
                None => r matches Ok(m) && m.id == 0 && m.user_id == request.user_id && m.title
                    == request.title && m.address_line_1 == request.address_line_1
                    && m.address_line_2 == request.address_line_2 && m.country == request.country
                    && m.city == request.city && m.postal_code == request.postal_code && m.landmark
                    == request.landmark && m.phone_number == request.phone_number && m.status
                    == Status::ACTIVE && !m.is_deleted && m.created_at is None && m.deleted_at is None,
            },
    {
        if is_blank(request.address_line_1.as_str()) {
            return Err(AuthError::Validation(ValidationIssue::AddressLineRequired));
        }
        if is_blank(request.country.as_str()) {
            return Err(AuthError::Validation(ValidationIssue::CountryRequired));
        }
        if is_blank(request.city.as_str()) {
            return Err(AuthError::Validation(ValidationIssue::CityRequired));
        }
        Ok(ModelEx {
            id: 0,
            user_id: request.user_id,
            title: clone_opt(&request.title),
            address_line_1: request.address_line_1.clone(),
            address_line_2: clone_opt(&request.address_line_2),
            country: request.country.clone(),
            city: request.city.clone(),
            postal_code: clone_opt(&request.postal_code),
            landmark: clone_opt(&request.landmark),
            phone_number: clone_opt(&request.phone_number),
            status: Status::ACTIVE,
            is_deleted: false,
            created_at: None,
            deleted_at: None,
        })
    }

    /// Applies the fields given in the request; a required field may not be
    /// made blank. The status is not changed here.
    pub fn update_from(self, request: &UpdateAddressRequest) -> (r: AppResult<Self>)
        ensures
            match update_address_violation(request) {
                Some(e) => r == Err::<Self, AuthError>(e),
                None => r == Ok::<Self, AuthError>(
                    (ModelEx {
                        address_line_1: or_keep(request.address_line_1, self.address_line_1),
                        country: or_keep(request.country, self.country),
                        city: or_keep(request.city, self.city),
                        title: or_keep_opt(request.title, self.title),
                        address_line_2: or_keep_opt(request.address_line_2, self.address_line_2),
                        postal_code: or_keep_opt(request.postal_code, self.postal_code),
                        landmark: or_keep_opt(request.landmark, self.landmark),
                        phone_number: or_keep_opt(request.phone_number, self.phone_number),
                        ..self
                    }),
                ),
            },
    {
        if let Some(line) = &request.address_line_1 {
            if is_blank(line.as_str()) {
                return Err(AuthError::Validation(ValidationIssue::AddressLineRequired));
            }
        }
        if let Some(country) = &request.country {
            if is_blank(country.as_str()) {
                return Err(AuthError::Validation(ValidationIssue::CountryRequired));
            }
        }
        if let Some(city) = &request.city {
            if is_blank(city.as_str()) {
                return Err(AuthError::Validation(ValidationIssue::CityRequired));
            }
        }
        let mut m = self;
        m.address_line_1 = take_or(&request.address_line_1, m.address_line_1);
        m.country = take_or(&request.country, m.country);
        m.city = take_or(&request.city, m.city);
        m.title = take_or_opt(&request.title, m.title);
        m.address_line_2 = take_or_opt(&request.address_line_2, m.address_line_2);
        m.postal_code = take_or_opt(&request.postal_code, m.postal_code);
        m.landmark = take_or_opt(&request.landmark, m.landmark);
        m.phone_number = take_or_opt(&request.phone_number, m.phone_number);
        Ok(m)
    }
}

} // verus!
