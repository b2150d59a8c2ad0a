//! Catalogue items and the value objects they are made of.

use vstd::prelude::*;
use vstd::std_specs::cmp::PartialEqSpecImpl;
use vstd::std_specs::convert::TryFromSpecImpl;
use crate::domain::model::error::CreateError;
use crate::domain::model::error::CreateErrorView;
use crate::domain::model::timestamp::Timestamp;
use crate::domain::model::timestamp::NANOS_PER_SECOND;

verus! {

/// Identifier of a catalogue item; absent when built from an empty text.
#[derive(Debug, Eq, Hash)]
pub struct ItemId(Option<String>);

impl View for ItemId {
    type V = Option<Seq<char>>;

    closed spec fn view(&self) -> Option<Seq<char>> {
        match self.0 {
            Some(s) => Some(s@),
            None => None,
        }
    }
}

impl ItemId {
    /// The text of the identifier, if there is one.
    pub fn value(&self) -> (v: &Option<String>)
        ensures
            match *v {
                Some(s) => self@ == Some(s@),
                None => self@ is None,
            },
    {
        &self.0
    }
}

impl Clone for ItemId {
    fn clone(&self) -> (r: ItemId)
        ensures
            r@ == self@,
    {
        match &self.0 {
            Some(s) => ItemId(Some(s.clone())),
            None => ItemId(None),
        }
    }
}

impl PartialEq for ItemId {
    fn eq(&self, other: &ItemId) -> (r: bool) {
        match (&self.0, &other.0) {
            (None, None) => true,
            (Some(a), Some(b)) => *a == *b,
            _ => false,
        }
    }
}

impl PartialEqSpecImpl for ItemId {
    open spec fn obeys_eq_spec() -> bool {
        true
    }

    open spec fn eq_spec(&self, other: &ItemId) -> bool {
        self@ == other@
    }
}

impl TryFrom<&str> for ItemId {
    type Error = &'static str;

    /// Takes any text; the empty one gives an identifier that is absent.
    fn try_from(value: &str) -> (r: Result<ItemId, &'static str>)
        ensures
            r matches Ok(id) && id@ == (if value@.len() == 0 { None } else { Some(value@) }),
    {
        if value.is_empty() {
            Ok(ItemId(None))
        } else {
            Ok(ItemId(Some(value.to_string())))
        }
    }
}

impl TryFromSpecImpl<&str> for ItemId {
    open spec fn obeys_try_from_spec() -> bool {
        false
    }

    open spec fn try_from_spec(v: &str) -> Result<ItemId, &'static str> {
        arbitrary()
    }
}

/// Name of a catalogue item: a text that is not empty.
#[derive(Debug, PartialEq)]
pub struct ItemName(Option<String>);

impl View for ItemName {
    type V = Option<Seq<char>>;

    closed spec fn view(&self) -> Option<Seq<char>> {
        match self.0 {
            Some(s) => Some(s@),
            None => None,
        }
    }
}

impl ItemName {
    #[verifier::type_invariant]
    spec fn named(self) -> bool {
        self.0 matches Some(name) && name@.len() > 0
    }

    /// The text of the name.
    pub fn value(&self) -> (v: &Option<String>)
        ensures
            *v matches Some(name) && name@.len() > 0 && self@ == Some(name@),
    {
        proof {
            use_type_invariant(self);
        }
        &self.0
    }
}

impl Clone for ItemName {
    fn clone(&self) -> (r: ItemName)
        ensures
            r@ == self@,
    {
        proof {
            use_type_invariant(self);
        }
        match &self.0 {
            Some(name) => ItemName(Some(name.clone())),
            None => ItemName(None),
        }
    }
}

impl TryFrom<String> for ItemName {
    type Error = &'static str;

    /// Takes any text but the empty one.
    fn try_from(value: String) -> (r: Result<ItemName, &'static str>)
        ensures
            value@.len() == 0 ==> r == Err::<ItemName, &'static str>("Name is None"),
            value@.len() > 0 ==> (r matches Ok(name) && name@ == Some(value@)),
    {
        if value.as_str().is_empty() {
            Err("Name is None")
        } else {
            Ok(ItemName(Some(value)))
        }
    }
}

impl TryFromSpecImpl<String> for ItemName {
    open spec fn obeys_try_from_spec() -> bool {
        false
    }

    open spec fn try_from_spec(v: String) -> Result<ItemName, &'static str> {
        arbitrary()
    }
}

/// Price of a catalogue item, in the unit in which the shop prices.
#[derive(Debug, Clone, Copy, PartialEq, Eq, Structural)]
pub struct ItemPrice(Option<u32>);

impl View for ItemPrice {
    type V = Option<u32>;

    closed spec fn view(&self) -> Option<u32> {
        self.0
    }
}

impl ItemPrice {
    /// The amount.
    pub fn value(&self) -> (v: &Option<u32>)
        ensures
            *v == self@,
    {
        &self.0
    }
}

impl TryFrom<u32> for ItemPrice {
    type Error = &'static str;

    /// Takes any price.
    fn try_from(value: u32) -> (r: Result<ItemPrice, &'static str>)
        ensures
            r matches Ok(price) && price@ == Some(value),
    {
        Ok(ItemPrice(Some(value)))
    }
}

impl TryFromSpecImpl<u32> for ItemPrice {
    open spec fn obeys_try_from_spec() -> bool {
        false
    }

    open spec fn try_from_spec(v: u32) -> Result<ItemPrice, &'static str> {
        arbitrary()
    }
}

/// The pictures of a catalogue item, by address; absent when there is none.
#[derive(Debug, Clone, PartialEq)]
pub struct ItemImage(Option<Vec<String>>);

impl View for ItemImage {
    type V = Option<Seq<Seq<char>>>;

    closed spec fn view(&self) -> Option<Seq<Seq<char>>> {
        match self.0 {
            Some(images) => Some(images.deep_view()),
            None => None,
        }
    }
}

impl ItemImage {
    /// The addresses of the pictures, if there are any.
    pub fn value(&self) -> (v: &Option<Vec<String>>)
        ensures
            match *v {
                Some(images) => self@ == Some(images.deep_view()),
                None => self@ is None,
            },
    {
        &self.0
    }
}

impl TryFrom<Vec<String>> for ItemImage {
    type Error = &'static str;

    /// Takes any list; the empty one gives pictures that are absent.
    fn try_from(value: Vec<String>) -> (r: Result<ItemImage, &'static str>)
        ensures
            r matches Ok(images) && images@ == (if value@.len() == 0 {
                None
            } else {
                Some(value.deep_view())
            }),
    {
        if value.is_empty() {
            Ok(ItemImage(None))
        } else {
            Ok(ItemImage(Some(value)))
        }
    }
}

impl TryFromSpecImpl<Vec<String>> for ItemImage {
    open spec fn obeys_try_from_spec() -> bool {
        false
    }

    open spec fn try_from_spec(v: Vec<String>) -> Result<ItemImage, &'static str> {
        arbitrary()
    }
}

/// The kinds of goods that the shop sells.
#[derive(Debug, Clone, Copy, PartialEq, Eq, Structural)]
pub enum ItemType {
    FunctionalFood,
    Otc,
    Etc,
    MedicalDevice,
    Base,
}

/// What is said about a catalogue item: how it is used, if anything is said.
#[derive(Debug, Clone, PartialEq)]
pub struct ItemDescription {
    usage: Option<String>,
}

impl View for ItemDescription {
    type V = Option<Seq<char>>;

    closed spec fn view(&self) -> Option<Seq<char>> {
        match self.usage {
            Some(s) => Some(s@),
            None => None,
        }
    }
}

impl ItemDescription {
    /// How the item is used, if that is said.
    pub fn usage(&self) -> (v: &Option<String>)
        ensures
            match *v {
                Some(s) => self@ == Some(s@),
                None => self@ is None,
            },
    {
        &self.usage
    }
}

impl TryFrom<&str> for ItemDescription {
    type Error = &'static str;

    /// Takes any text; the empty one gives a description that says nothing.
    fn try_from(value: &str) -> (r: Result<ItemDescription, &'static str>)
        ensures
            r matches Ok(description) && description@ == (if value@.len() == 0 {
                None
            } else {
                Some(value@)
            }),
    {
        if value.is_empty() {
            Ok(ItemDescription { usage: None })
        } else {
            Ok(ItemDescription { usage: Some(value.to_string()) })
        }
    }
}

impl TryFromSpecImpl<&str> for ItemDescription {
    open spec fn obeys_try_from_spec() -> bool {
        false
    }

    open spec fn try_from_spec(v: &str) -> Result<ItemDescription, &'static str> {
        arbitrary()
    }
}

/// A catalogue item.
#[derive(Debug, Clone, PartialEq)]
pub struct Item {
    pub id: ItemId,
    pub name: ItemName,
    pub price: ItemPrice,
    pub item_type: ItemType,
    pub item_images: ItemImage,
    pub description: ItemDescription,
    pub updated_at: Timestamp,
    pub created_at: Timestamp,
}

/// What a catalogue item holds, as mathematical values.
pub struct ItemView {
    pub id: Option<Seq<char>>,
    pub name: Option<Seq<char>>,
    pub price: Option<u32>,
    pub item_type: ItemType,
    pub item_images: Option<Seq<Seq<char>>>,
    pub description: Option<Seq<char>>,
    pub updated_at: Timestamp,
    pub created_at: Timestamp,
}

impl ItemView {
    /// The item that is made of the given parts: texts and lists that are
    /// empty give parts that are absent.
    pub open spec fn of_parts(
        id: Seq<char>,
        name: Seq<char>,
        price: u32,
        item_type: ItemType,
        item_images: Seq<Seq<char>>,
        description: Seq<char>,
        updated_at: Timestamp,
        created_at: Timestamp,
    ) -> ItemView {
        ItemView {
            id: if id.len() == 0 {
                None
            } else {
                Some(id)
            },
            name: Some(name),
            price: Some(price),
            item_type,
            item_images: if item_images.len() == 0 {
                None
            } else {
                Some(item_images)
            },
            description: if description.len() == 0 {
                None
            } else {
                Some(description)
            },
            updated_at,
            created_at,
        }
    }
}

impl View for Item {
    type V = ItemView;

    open spec fn view(&self) -> ItemView {
        ItemView {
            id: self.id@,
            name: self.name@,
            price: self.price@,
            item_type: self.item_type,
            item_images: self.item_images@,
            description: self.description@,
            updated_at: self.updated_at,
            created_at: self.created_at,
        }
    }
}

impl Item {
    /// A new item, made now. The name must not be empty.
    pub fn new(
        id: &str,
        name: String,
        price: u32,
        item_type: ItemType,
        item_images: Vec<String>,
        description: &str,
    ) -> (r: Result<Item, CreateError>)
        ensures
            name@.len() == 0 ==> (r matches Err(error) && error@ == CreateErrorView::InvalidData(
                "Name is None"@,
            )),
            name@.len() > 0 ==> (r matches Ok(item) && item@ == ItemView::of_parts(
                id@,
                name@,
                price,
                item_type,
                item_images.deep_view(),
                description@,
                item.updated_at,
                item.created_at,
            ) && item.updated_at.secs >= 0 && item.updated_at.nanos < NANOS_PER_SECOND
                && item.created_at.secs >= 0 && item.created_at.nanos < NANOS_PER_SECOND),
    {
        let updated_at = Timestamp::now();
        let created_at = Timestamp::now();
        Item::new_at(id, name, price, item_type, item_images, description, updated_at, created_at)
    }

    /// A new item with the given times of its last update and of its
    /// creation. The name must not be empty.
    pub fn new_at(
        id: &str,
        name: String,
        price: u32,
        item_type: ItemType,
        item_images: Vec<String>,
        description: &str,
        updated_at: Timestamp,
        created_at: Timestamp,
    ) -> (r: Result<Item, CreateError>)
        ensures
            name@.len() == 0 ==> (r matches Err(error) && error@ == CreateErrorView::InvalidData(
                "Name is None"@,
            )),
            name@.len() > 0 ==> (r matches Ok(item) && item@ == ItemView::of_parts(
                id@,
                name@,
                price,
                item_type,
                item_images.deep_view(),
                description@,
                updated_at,
                created_at,
            )),
    {
        let id = match ItemId::try_from(id) {
            Ok(id) => id,
            Err(reason) => {
                return Err(CreateError::from(reason));
            },
        };
        let name = match ItemName::try_from(name) {
            Ok(name) => name,
            Err(reason) => {
                return Err(CreateError::from(reason));
            },
        };
        let price = match ItemPrice::try_from(price) {
            Ok(price) => price,
            Err(reason) => {
                return Err(CreateError::from(reason));
            },
        };
        let item_images = match ItemImage::try_from(item_images) {
            Ok(item_images) => item_images,
            Err(reason) => {
                return Err(CreateError::from(reason));
            },
        };
        let description = match ItemDescription::try_from(description) {
            Ok(description) => description,
            Err(reason) => {
                return Err(CreateError::from(reason));
            },
        };
        Ok(Item { id, name, price, item_type, item_images, description, updated_at, created_at })
    }
}

} // verus!
