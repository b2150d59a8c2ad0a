//! Customers and what the shop keeps about them.

use vstd::prelude::*;
use vstd::std_specs::cmp::PartialEqSpecImpl;
use crate::domain::model::identifier::random_uuid_text;
use crate::domain::model::identifier::is_uuid_text;
use crate::domain::model::timestamp::Timestamp;

verus! {

/// Identifier of a customer.
#[derive(Debug, Eq)]
pub struct UserId(pub String);

impl View for UserId {
    type V = Seq<char>;

    open spec fn view(&self) -> Seq<char> {
        self.0@
    }
}

impl UserId {
    /// A fresh random identifier.
    pub fn new() -> (id: UserId)
        ensures
            is_uuid_text(id@),
    {
        UserId(random_uuid_text())
    }

    /// The text of the identifier.
    pub fn value(&self) -> (v: &str)
        ensures
            v@ == self@,
    {
        self.0.as_str()
    }
}

impl Clone for UserId {
    fn clone(&self) -> (r: UserId)
        ensures
            r@ == self@,
    {
        UserId(self.0.clone())
    }
}

impl PartialEq for UserId {
    fn eq(&self, other: &UserId) -> (r: bool) {
        self.0 == other.0
    }
}

impl PartialEqSpecImpl for UserId {
    open spec fn obeys_eq_spec() -> bool {
        true
    }

    open spec fn eq_spec(&self, other: &UserId) -> bool {
        self@ == other@
    }
}

/// An e-mail address, kept as it was given.
#[derive(Debug, Clone, PartialEq, Eq)]
pub struct Email(String);

impl View for Email {
    type V = Seq<char>;

    closed spec fn view(&self) -> Seq<char> {
        self.0@
    }
}

impl Email {
    /// The address with the given text.
    pub fn new(email: &str) -> (r: Email)
        ensures
            r@ == email@,
    {
        Email(email.to_string())
    }

    /// The text of the address.
    pub fn value(&self) -> (v: &str)
        ensures
            v@ == self@,
    {
        self.0.as_str()
    }
}

/// What a customer may do.
#[derive(Debug, Clone, Copy, PartialEq, Eq, Structural)]
pub enum UserRole {
    Customer,
    Admin,
    Staff,
}

/// Where an account stands.
#[derive(Debug, Clone, Copy, PartialEq, Eq, Structural)]
pub enum UserStatus {
    Active,
    Inactive,
    Suspended,
    Deleted,
}

/// The gender that a customer states.
#[derive(Debug, Clone, Copy, PartialEq, Eq, Structural)]
pub enum Gender {
    Male,
    Female,
}

/// A place to deliver to.
#[derive(Debug, Clone, PartialEq, Eq)]
pub struct Address {
    pub id: String,
    pub name: String,
    /// Who takes the delivery.
    pub recipient: String,
    pub postal_code: String,
    pub address1: String,
    pub address2: String,
    pub city: Option<String>,
    pub is_default: bool,
}

/// A way to pay.
#[derive(Debug, Clone, PartialEq, Eq)]
pub struct PaymentMethod {
    pub id: String,
    pub name: String,
    /// The kind of payment, such as "credit_card" or "bank_transfer".
    pub type_: String,
    pub is_default: bool,
}

/// By which ways a customer wants to hear from the shop.
#[derive(Debug, Clone, PartialEq, Eq)]
pub struct NotificationSettings {
    pub email_enabled: String,
    pub sms_enabled: String,
    pub push_enabled: String,
}

/// A customer.
#[derive(Debug, Clone, PartialEq, Eq)]
pub struct User {
    pub id: UserId,
    pub email: Email,
    pub password_hash: String,
    pub phone: Option<String>,
    pub role: UserRole,
    pub status: UserStatus,
    pub name: String,
    pub birth_date: Option<Timestamp>,
    pub gender: Option<Gender>,
    pub profile_image: Option<String>,
    pub address: Vec<Address>,
    pub payment_methods: Vec<PaymentMethod>,
    pub notification_settings: NotificationSettings,
    pub marketing_consent: bool,
    pub cart_id: Option<String>,
    pub wishlist_ids: Vec<String>,
    pub loyalty_points: u32,
    pub last_login_at: Option<Timestamp>,
    pub created_at: Timestamp,
    pub updated_at: Timestamp,
}

impl User {
    /// Replaces the e-mail address and nothing else.
    pub fn update_user_email(&mut self, new_email: &str)
        ensures
            final(self).email@ == new_email@,
            *final(self) == (User { email: final(self).email, ..*old(self) }),
    {
        self.email = Email::new(new_email);
    }
}

/// Why a customer could not be built.
#[derive(Debug, Clone, PartialEq, Eq)]
pub enum UserBuilderError {
    /// A part was never given; this is its name.
    UninitializedField(&'static str),
    /// The parts do not go together.
    ValidationError(String),
}

impl UserBuilderError {
    /// The text that describes the failure.
    pub fn to_string(&self) -> (text: String)
        ensures
            text@ == (match *self {
                UserBuilderError::UninitializedField(field) => "`"@ + field@
                    + "` must be initialized"@,
                UserBuilderError::ValidationError(reason) => reason@,
            }),
    {
        match self {
            UserBuilderError::UninitializedField(field) => {
                let mut text = "`".to_string();
                text.append(field);
                text.append("` must be initialized");
                text
            },
            UserBuilderError::ValidationError(reason) => reason.clone(),
        }
    }
}

/// Collects the parts of a customer one by one. Every part has to be given
/// before the customer can be built.
#[derive(Debug, Clone)]
pub struct UserBuilder {
    pub id: Option<UserId>,
    pub email: Option<Email>,
    pub password_hash: Option<String>,
    pub phone: Option<Option<String>>,
    pub role: Option<UserRole>,
    pub status: Option<UserStatus>,
    pub name: Option<String>,
    pub birth_date: Option<Option<Timestamp>>,
    pub gender: Option<Option<Gender>>,
    pub profile_image: Option<Option<String>>,
    pub address: Option<Vec<Address>>,
    pub payment_methods: Option<Vec<PaymentMethod>>,
    pub notification_settings: Option<NotificationSettings>,
    pub marketing_consent: Option<bool>,
    pub cart_id: Option<Option<String>>,
    pub wishlist_ids: Option<Vec<String>>,
    pub loyalty_points: Option<u32>,
    pub last_login_at: Option<Option<Timestamp>>,
    pub created_at: Option<Timestamp>,
    pub updated_at: Option<Timestamp>,
}

impl Default for UserBuilder {
    /// A builder to which no part has been given.
    fn default() -> (r: UserBuilder)
        ensures
            r == UserBuilder::empty(),
    {
        UserBuilder {
            id: None,
            email: None,
            password_hash: None,
            phone: None,
            role: None,
            status: None,
            name: None,
            birth_date: None,
            gender: None,
            profile_image: None,
            address: None,
            payment_methods: None,
            notification_settings: None,
            marketing_consent: None,
            cart_id: None,
            wishlist_ids: None,
            loyalty_points: None,
            last_login_at: None,
            created_at: None,
            updated_at: None,
        }
    }
}

impl UserBuilder {
    /// The builder to which no part has been given.
    pub open spec fn empty() -> UserBuilder {
        UserBuilder {
            id: None,
            email: None,
            password_hash: None,
            phone: None,
            role: None,
            status: None,
            name: None,
            birth_date: None,
            gender: None,
            profile_image: None,
            address: None,
            payment_methods: None,
            notification_settings: None,
            marketing_consent: None,
            cart_id: None,
            wishlist_ids: None,
            loyalty_points: None,
            last_login_at: None,
            created_at: None,
            updated_at: None,
        }
    }

    /// The name of the first part, in the order of the customer's fields,
    /// that has not been given.
    pub open spec fn first_missing(self) -> Option<&'static str> {
        if self.id is None {
            Some("id")
        } else if self.email is None {
            Some("email")
        } else if self.password_hash is None {
            Some("password_hash")
        } else if self.phone is None {
            Some("phone")
        } else if self.role is None {
            Some("role")
        } else if self.status is None {
            Some("status")
        } else if self.name is None {
            Some("name")
        } else if self.birth_date is None {
            Some("birth_date")
        } else if self.gender is None {
            Some("gender")
        } else if self.profile_image is None {
            Some("profile_image")
        } else if self.address is None {
            Some("address")
        } else if self.payment_methods is None {
            Some("payment_methods")
        } else if self.notification_settings is None {
            Some("notification_settings")
        } else if self.marketing_consent is None {
            Some("marketing_consent")
        } else if self.cart_id is None {
            Some("cart_id")
        } else if self.wishlist_ids is None {
            Some("wishlist_ids")
        } else if self.loyalty_points is None {
            Some("loyalty_points")
        } else if self.last_login_at is None {
            Some("last_login_at")
        } else if self.created_at is None {
            Some("created_at")
        } else if self.updated_at is None {
            Some("updated_at")
        } else {
            None
        }
    }

    /// The customer made of the parts that were given.
    pub open spec fn built(self) -> User {
        User {
            id: self.id.unwrap(),
            email: self.email.unwrap(),
            password_hash: self.password_hash.unwrap(),
            phone: self.phone.unwrap(),
            role: self.role.unwrap(),
            status: self.status.unwrap(),
            name: self.name.unwrap(),
            birth_date: self.birth_date.unwrap(),
            gender: self.gender.unwrap(),
            profile_image: self.profile_image.unwrap(),
            address: self.address.unwrap(),
            payment_methods: self.payment_methods.unwrap(),
            notification_settings: self.notification_settings.unwrap(),
            marketing_consent: self.marketing_consent.unwrap(),
            cart_id: self.cart_id.unwrap(),
            wishlist_ids: self.wishlist_ids.unwrap(),
            loyalty_points: self.loyalty_points.unwrap(),
            last_login_at: self.last_login_at.unwrap(),
            created_at: self.created_at.unwrap(),
            updated_at: self.updated_at.unwrap(),
        }
    }

    /// Gives the part `id`.
    pub fn id(self, value: UserId) -> (r: UserBuilder)
        ensures
            r == (UserBuilder { id: Some(value), ..self }),
    {
        let mut builder = self;
        builder.id = Some(value);
        builder
    }

    /// Gives the part `email`.
    pub fn email(self, value: Email) -> (r: UserBuilder)
        ensures
            r == (UserBuilder { email: Some(value), ..self }),
    {
        let mut builder = self;
        builder.email = Some(value);
        builder
    }

    /// Gives the part `password_hash`.
    pub fn password_hash(self, value: String) -> (r: UserBuilder)
        ensures
            r == (UserBuilder { password_hash: Some(value), ..self }),
    {
        let mut builder = self;
        builder.password_hash = Some(value);
        builder
    }

    /// Gives the part `phone`.
    pub fn phone(self, value: Option<String>) -> (r: UserBuilder)
        ensures
            r == (UserBuilder { phone: Some(value), ..self }),
    {
        let mut builder = self;
        builder.phone = Some(value);
        builder
    }

    /// Gives the part `role`.
    pub fn role(self, value: UserRole) -> (r: UserBuilder)
        ensures
            r == (UserBuilder { role: Some(value), ..self }),
    {
        let mut builder = self;
        builder.role = Some(value);
        builder
    }

    /// Gives the part `status`.
    pub fn status(self, value: UserStatus) -> (r: UserBuilder)
        ensures
            r == (UserBuilder { status: Some(value), ..self }),
    {
        let mut builder = self;
        builder.status = Some(value);
        builder
    }

    /// Gives the part `name`.
    pub fn name(self, value: String) -> (r: UserBuilder)
        ensures
            r == (UserBuilder { name: Some(value), ..self }),
    {
        let mut builder = self;
        builder.name = Some(value);
        builder
    }

    /// Gives the part `birth_date`.
    pub fn birth_date(self, value: Option<Timestamp>) -> (r: UserBuilder)
        ensures
            r == (UserBuilder { birth_date: Some(value), ..self }),
    {
        let mut builder = self;
        builder.birth_date = Some(value);
        builder
    }

    /// Gives the part `gender`.
    pub fn gender(self, value: Option<Gender>) -> (r: UserBuilder)
        ensures
            r == (UserBuilder { gender: Some(value), ..self }),
    {
        let mut builder = self;
        builder.gender = Some(value);
        builder
    }

    /// Gives the part `profile_image`.
    pub fn profile_image(self, value: Option<String>) -> (r: UserBuilder)
        ensures
            r == (UserBuilder { profile_image: Some(value), ..self }),
    {
        let mut builder = self;
        builder.profile_image = Some(value);
        builder
    }

    /// Gives the part `address`.
    pub fn address(self, value: Vec<Address>) -> (r: UserBuilder)
        ensures
            r == (UserBuilder { address: Some(value), ..self }),
    {
        let mut builder = self;
        builder.address = Some(value);
        builder
    }

    /// Gives the part `payment_methods`.
    pub fn payment_methods(self, value: Vec<PaymentMethod>) -> (r: UserBuilder)
        ensures
            r == (UserBuilder { payment_methods: Some(value), ..self }),
    {
        let mut builder = self;
        builder.payment_methods = Some(value);
        builder
    }

    /// Gives the part `notification_settings`.
    pub fn notification_settings(self, value: NotificationSettings) -> (r: UserBuilder)
        ensures
            r == (UserBuilder { notification_settings: Some(value), ..self }),
    {
        let mut builder = self;
        builder.notification_settings = Some(value);
        builder
    }

    /// Gives the part `marketing_consent`.
    pub fn marketing_consent(self, value: bool) -> (r: UserBuilder)
        ensures
            r == (UserBuilder { marketing_consent: Some(value), ..self }),
    {
        let mut builder = self;
        builder.marketing_consent = Some(value);
        builder
    }

    /// Gives the part `cart_id`.
    pub fn cart_id(self, value: Option<String>) -> (r: UserBuilder)
        ensures
            r == (UserBuilder { cart_id: Some(value), ..self }),
    {
        let mut builder = self;
        builder.cart_id = Some(value);
        builder
    }

    /// Gives the part `wishlist_ids`.
    pub fn wishlist_ids(self, value: Vec<String>) -> (r: UserBuilder)
        ensures
            r == (UserBuilder { wishlist_ids: Some(value), ..self }),
    {
        let mut builder = self;
        builder.wishlist_ids = Some(value);
        builder
    }

    /// Gives the part `loyalty_points`.
    pub fn loyalty_points(self, value: u32) -> (r: UserBuilder)
        ensures
            r == (UserBuilder { loyalty_points: Some(value), ..self }),
    {
        let mut builder = self;
        builder.loyalty_points = Some(value);
        builder
    }

    /// Gives the part `last_login_at`.
    pub fn last_login_at(self, value: Option<Timestamp>) -> (r: UserBuilder)
        ensures
            r == (UserBuilder { last_login_at: Some(value), ..self }),
    {
        let mut builder = self;
        builder.last_login_at = Some(value);
        builder
    }

    /// Gives the part `created_at`.
    pub fn created_at(self, value: Timestamp) -> (r: UserBuilder)
        ensures
            r == (UserBuilder { created_at: Some(value), ..self }),
    {
        let mut builder = self;
        builder.created_at = Some(value);
        builder
    }

    /// Gives the part `updated_at`.
    pub fn updated_at(self, value: Timestamp) -> (r: UserBuilder)
        ensures
            r == (UserBuilder { updated_at: Some(value), ..self }),
    {
        let mut builder = self;
        builder.updated_at = Some(value);
        builder
    }

    /// Builds the customer, or names the first part that is missing.
    pub fn build(self) -> (r: Result<User, UserBuilderError>)
        ensures
            match r {
                Ok(user) => self.first_missing() is None && user == self.built(),
                Err(error) => self.first_missing() matches Some(field) && error
                    == UserBuilderError::UninitializedField(field),
            },
    {
        let id = match self.id {
            Some(value) => value,
            None => {
                return Err(UserBuilderError::UninitializedField("id"));
            },
        };
        let email = match self.email {
            Some(value) => value,
            None => {
                return Err(UserBuilderError::UninitializedField("email"));
            },
        };
        let password_hash = match self.password_hash {
            Some(value) => value,
            None => {
                return Err(UserBuilderError::UninitializedField("password_hash"));
            },
        };
        let phone = match self.phone {
            Some(value) => value,
            None => {
                return Err(UserBuilderError::UninitializedField("phone"));
            },
        };
        let role = match self.role {
            Some(value) => value,
            None => {
                return Err(UserBuilderError::UninitializedField("role"));
            },
        };
        let status = match self.status {
            Some(value) => value,
            None => {
                return Err(UserBuilderError::UninitializedField("status"));
            },
        };
        let name = match self.name {
            Some(value) => value,
            None => {
                return Err(UserBuilderError::UninitializedField("name"));
            },
        };
        let birth_date = match self.birth_date {
            Some(value) => value,
            None => {
                return Err(UserBuilderError::UninitializedField("birth_date"));
            },
        };
        let gender = match self.gender {
            Some(value) => value,
            None => {
                return Err(UserBuilderError::UninitializedField("gender"));
            },
        };
        let profile_image = match self.profile_image {
            Some(value) => value,
            None => {
                return Err(UserBuilderError::UninitializedField("profile_image"));
            },
        };
        let address = match self.address {
            Some(value) => value,
            None => {
                return Err(UserBuilderError::UninitializedField("address"));
            },
        };
        let payment_methods = match self.payment_methods {
            Some(value) => value,
            None => {
                return Err(UserBuilderError::UninitializedField("payment_methods"));
            },
        };
        let notification_settings = match self.notification_settings {
            Some(value) => value,
            None => {
                return Err(UserBuilderError::UninitializedField("notification_settings"));
            },
        };
        let marketing_consent = match self.marketing_consent {
            Some(value) => value,
            None => {
                return Err(UserBuilderError::UninitializedField("marketing_consent"));
            },
        };
        let cart_id = match self.cart_id {
            Some(value) => value,
            None => {
                return Err(UserBuilderError::UninitializedField("cart_id"));
            },
        };
        let wishlist_ids = match self.wishlist_ids {
            Some(value) => value,
            None => {
                return Err(UserBuilderError::UninitializedField("wishlist_ids"));
            },
        };
        let loyalty_points = match self.loyalty_points {
            Some(value) => value,
            None => {
                return Err(UserBuilderError::UninitializedField("loyalty_points"));
            },
        };
        let last_login_at = match self.last_login_at {
            Some(value) => value,
            None => {
                return Err(UserBuilderError::UninitializedField("last_login_at"));
            },
        };
        let created_at = match self.created_at {
            Some(value) => value,
            None => {
                return Err(UserBuilderError::UninitializedField("created_at"));
            },
        };
        let updated_at = match self.updated_at {
            Some(value) => value,
            None => {
                return Err(UserBuilderError::UninitializedField("updated_at"));
            },
        };
        Ok(
            User {
                id,
                email,
                password_hash,
                phone,
                role,
                status,
                name,
                birth_date,
                gender,
                profile_image,
                address,
                payment_methods,
                notification_settings,
                marketing_consent,
                cart_id,
                wishlist_ids,
                loyalty_points,
                last_login_at,
                created_at,
                updated_at,
            },
        )
    }
}

} // verus!
