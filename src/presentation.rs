use vstd::prelude::*;
use crate::address;
use crate::date::CalendarDate;
use crate::text::clone_opt;
use crate::user::ModelEx;

verus! {

/// The part of an address shown inside a profile.
#[derive(Debug, Clone)]
pub struct SubAddressSerializer {
    pub title: Option<String>,
    pub address_line_1: String,
    pub address_line_2: Option<String>,
    pub country: String,
}

impl SubAddressSerializer {
    pub open spec fn shows(self, a: address::ModelEx) -> bool {
        &&& self.title == a.title
        &&& self.address_line_1 == a.address_line_1
        &&& self.address_line_2 == a.address_line_2
        &&& self.country == a.country
    }
}

/// The profile of an account, as profile reads return and cache it.
#[derive(Debug, Clone)]
pub struct UserSerializer {
    pub avatar: Option<String>,
    pub first_name: String,
    pub last_name: String,
    pub username: String,
    pub email: String,
    pub address: Vec<SubAddressSerializer>,
    pub password: Option<String>,
    pub birth_of_date: Option<CalendarDate>,
    pub phone_number: Option<String>,
    pub created_at: Option<i64>,
    pub deleted_at: Option<i64>,
}

impl UserSerializer {
    /// The profile of an account, with each of its addresses in order.
    pub fn from(value: ModelEx) -> (r: UserSerializer)
        ensures
            r.avatar == value.avatar,
            r.first_name == value.first_name,
            r.last_name == value.last_name,
            r.username == value.username,
            r.email == value.email,
            r.address@.len() == value.address@.len(),
            forall|i: int|
                0 <= i < r.address@.len() ==> (#[trigger] r.address@[i]).shows(value.address@[i]),
            r.password == value.password,
            r.birth_of_date == value.birth_of_date,
            r.phone_number == value.phone_number,
            r.created_at == value.created_at,
            r.deleted_at == value.deleted_at,
    {
        let mut subs: Vec<SubAddressSerializer> = Vec::new();
        let n = value.address.len();
        let mut i: usize = 0;
        while i < n
            invariant
                n == value.address@.len(),
                i <= n,
                subs@.len() == i,
                forall|j: int| 0 <= j < i ==> (#[trigger] subs@[j]).shows(value.address@[j]),
            decreases n - i,
        {
            let a = &value.address[i];
            subs.push(
                SubAddressSerializer {
                    title: clone_opt(&a.title),
                    address_line_1: a.address_line_1.clone(),
                    address_line_2: clone_opt(&a.address_line_2),
                    country: a.country.clone(),
                },
            );
            i = i + 1;
        }
        UserSerializer {
            avatar: value.avatar,
            first_name: value.first_name,
            last_name: value.last_name,
            username: value.username,
            email: value.email,
            address: subs,
            password: value.password,
            birth_of_date: value.birth_of_date,
            phone_number: value.phone_number,
            created_at: value.created_at,
            deleted_at: value.deleted_at,
        }
    }
}

/// The answer to a registration.
pub struct UserCreatedSerializer {
    pub user_id: String,
    pub email: String,
    pub message: String,
}

/// An address as its reads return it.
pub struct AddressSerializer {
    pub id: i64,
    pub user_id: i64,
    pub title: Option<String>,
    pub address_line_1: String,
    pub address_line_2: Option<String>,
    pub country: String,
    pub city: String,
    pub postal_code: Option<String>,
    pub landmark: Option<String>,
    pub phone_number: Option<String>,
    pub status: address::Status,
    pub created_at: Option<i64>,
}

impl AddressSerializer {
    /// Every field of the address but its deletion marks.
    pub fn from(value: address::ModelEx) -> (r: AddressSerializer)
        ensures
            r.id == value.id,
            r.user_id == value.user_id,
            r.title == value.title,
            r.address_line_1 == value.address_line_1,
            r.address_line_2 == value.address_line_2,
            r.country == value.country,
            r.city == value.city,
            r.postal_code == value.postal_code,
            r.landmark == value.landmark,
            r.phone_number == value.phone_number,
            r.status == value.status,
            r.created_at == value.created_at,
    {
        AddressSerializer {
            id: value.id,
            user_id: value.user_id,
            title: value.title,
            address_line_1: value.address_line_1,
            address_line_2: value.address_line_2,
            country: value.country,
            city: value.city,
            postal_code: value.postal_code,
            landmark: value.landmark,
            phone_number: value.phone_number,
            status: value.status,
            created_at: value.created_at,
        }
    }
}

} // verus!
