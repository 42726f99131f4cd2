use vstd::prelude::*;
use crate::artist::{Artist, GetArtistsError, Timestamp};
use crate::availability::Availability;

verus! {

/// An item as stored, with its identity and the artists it is attributed to.
#[derive(Debug)]
pub struct Product {
    pub id: i32,
    pub date_added: Timestamp,
    pub url: String,
    pub title: String,
    pub circle: Option<String>,
    pub artists: Vec<Artist>,
    pub image_url: String,
    pub category: String,
    pub tags: Vec<String>,
    pub flags: Vec<String>,
    pub price: Option<String>,
    pub availability: Availability,
}

/// A copy of `v`.
pub fn copy_strings(v: &Vec<String>) -> (r: Vec<String>)
    ensures
        r@ == v@,
{
    let mut r: Vec<String> = Vec::new();
    let mut i: usize = 0;
    while i < v.len()
        invariant
            0 <= i <= v@.len(),
            r@ == v@.subrange(0, i as int),
        decreases v@.len() - i,
    {
        r.push(v[i].clone());
        i = i + 1;
        assert(r@ =~= v@.subrange(0, i as int));
    }
    assert(r@ =~= v@);
    r
}

/// A copy of `o`.
pub fn copy_text(o: &Option<String>) -> (r: Option<String>)
    ensures
        r == *o,
{
    match o {
        Some(s) => Some(s.clone()),
        None => None,
    }
}

/// A copy of `v`.
pub fn copy_artists(v: &Vec<Artist>) -> (r: Vec<Artist>)
    ensures
        r@ == v@,
{
    let mut r: Vec<Artist> = Vec::new();
    let mut i: usize = 0;
    while i < v.len()
        invariant
            0 <= i <= v@.len(),
            r@ == v@.subrange(0, i as int),
        decreases v@.len() - i,
    {
        r.push(v[i].duplicate());
        i = i + 1;
        assert(r@ =~= v@.subrange(0, i as int));
    }
    assert(r@ =~= v@);
    r
}

impl Product {
    /// The two records hold the same values, field by field.
    pub open spec fn same_item(&self, o: &Product) -> bool {
        &&& self.id == o.id
        &&& self.date_added == o.date_added
        &&& self.url == o.url
        &&& self.title == o.title
        &&& self.circle == o.circle
        &&& self.artists@ == o.artists@
        &&& self.image_url == o.image_url
        &&& self.category == o.category
        &&& self.tags@ == o.tags@
        &&& self.flags@ == o.flags@
        &&& self.price == o.price
        &&& self.availability == o.availability
    }

    /// A copy of this record.
    pub fn duplicate(&self) -> (r: Product)
        ensures
            r.same_item(self),
    {
        Product {
            id: self.id,
            date_added: self.date_added,
            url: self.url.clone(),
            title: self.title.clone(),
            circle: copy_text(&self.circle),
            artists: copy_artists(&self.artists),
            image_url: self.image_url.clone(),
            category: self.category.clone(),
            tags: copy_strings(&self.tags),
            flags: copy_strings(&self.flags),
            price: copy_text(&self.price),
            availability: self.availability,
        }
    }

    pub fn new(
        id: i32,
        date_added: Timestamp,
        url: String,
        title: String,
        circle: Option<String>,
        artists: Vec<Artist>,
        image_url: String,
        category: String,
        tags: Vec<String>,
        flags: Vec<String>,
        price: Option<String>,
        availability: Availability,
    ) -> (r: Self)
        ensures
            r == (Product {
                id,
                date_added,
                url,
                title,
                circle,
                artists,
                image_url,
                category,
                tags,
                flags,
                price,
                availability,
            }),
    {
        Product {
            id,
            date_added,
            url,
            title,
            circle,
            artists,
            image_url,
            category,
            tags,
            flags,
            price,
            availability,
        }
    }

    pub fn id(&self) -> (r: i32)
        ensures
            r == self.id,
    {
        self.id
    }

    pub fn date_added(&self) -> (r: Timestamp)
        ensures
            r == self.date_added,
    {
        self.date_added
    }

    pub fn url(&self) -> (r: &str)
        ensures
            r@ == self.url@,
    {
        self.url.as_str()
    }

    pub fn title(&self) -> (r: &str)
        ensures
            r@ == self.title@,
    {
        self.title.as_str()
    }

    pub fn circle(&self) -> (r: Option<&String>)
        ensures
            match r {
                Some(v) => self.circle == Some(*v),
                None => self.circle is None,
            },
    {
        self.circle.as_ref()
    }

    pub fn artists(&self) -> (r: &[Artist])
        ensures
            r@ == self.artists@,
    {
        self.artists.as_slice()
    }

    pub fn image_url(&self) -> (r: &str)
        ensures
            r@ == self.image_url@,
    {
        self.image_url.as_str()
    }

    pub fn category(&self) -> (r: &str)
        ensures
            r@ == self.category@,
    {
        self.category.as_str()
    }

    pub fn tags(&self) -> (r: &[String])
        ensures
            r@ == self.tags@,
    {
        self.tags.as_slice()
    }

    pub fn flags(&self) -> (r: &[String])
        ensures
            r@ == self.flags@,
    {
        self.flags.as_slice()
    }

    pub fn price(&self) -> (r: Option<&String>)
        ensures
            match r {
                Some(v) => self.price == Some(*v),
                None => self.price is None,
            },
    {
        self.price.as_ref()
    }

    pub fn availability(&self) -> (r: Availability)
        ensures
            r == self.availability,
    {
        self.availability
    }
}

/// What the listing source reports for one item page.
#[derive(Debug)]
pub struct ProductData {
    pub title: String,
    pub circle: Option<String>,
    pub artists: Vec<String>,
    pub image_url: String,
    pub category: String,
    pub tags: Vec<String>,
    pub flags: Vec<String>,
    pub price: Option<String>,
    pub availability: Availability,
}

impl ProductData {
    pub fn new(
        title: String,
        circle: Option<String>,
        artists: Vec<String>,
        image_url: String,
        category: String,
        tags: Vec<String>,
        flags: Vec<String>,
        price: Option<String>,
        availability: Availability,
    ) -> (r: Self)
        ensures
            r == (ProductData {
                title,
                circle,
                artists,
                image_url,
                category,
                tags,
                flags,
                price,
                availability,
            }),
    {
        ProductData { title, circle, artists, image_url, category, tags, flags, price, availability }
    }

    pub fn title(&self) -> (r: &str)
        ensures
            r@ == self.title@,
    {
        self.title.as_str()
    }

    pub fn circle(&self) -> (r: Option<&String>)
        ensures
            match r {
                Some(v) => self.circle == Some(*v),
                None => self.circle is None,
            },
    {
        self.circle.as_ref()
    }

    pub fn artists(&self) -> (r: &[String])
        ensures
            r@ == self.artists@,
    {
        self.artists.as_slice()
    }

    pub fn image_url(&self) -> (r: &str)
        ensures
            r@ == self.image_url@,
    {
        self.image_url.as_str()
    }

    pub fn category(&self) -> (r: &str)
        ensures
            r@ == self.category@,
    {
        self.category.as_str()
    }

    pub fn tags(&self) -> (r: &[String])
        ensures
            r@ == self.tags@,
    {
        self.tags.as_slice()
    }

    pub fn flags(&self) -> (r: &[String])
        ensures
            r@ == self.flags@,
    {
        self.flags.as_slice()
    }

    pub fn price(&self) -> (r: Option<&String>)
        ensures
            match r {
                Some(v) => self.price == Some(*v),
                None => self.price is None,
            },
    {
        self.price.as_ref()
    }

    pub fn availability(&self) -> (r: &Availability)
        ensures
            *r == self.availability,
    {
        &self.availability
    }
}

/// Everything needed to store a newly observed item.
#[derive(Debug)]
pub struct CreateProductArgs {
    pub url: String,
    pub title: String,
    pub circle: Option<String>,
    pub artists: Vec<String>,
    pub image_url: String,
    pub category: String,
    pub tags: Vec<String>,
    pub flags: Vec<String>,
    pub price: Option<String>,
    pub availability: Availability,
}

impl CreateProductArgs {
    pub fn new(
        url: String,
        title: String,
        circle: Option<String>,
        artists: Vec<String>,
        image_url: String,
        category: String,
        tags: Vec<String>,
        flags: Vec<String>,
        price: Option<String>,
        availability: Availability,
    ) -> (r: Self)
        ensures
            r == (CreateProductArgs {
                url,
                title,
                circle,
                artists,
                image_url,
                category,
                tags,
                flags,
                price,
                availability,
            }),
    {
        CreateProductArgs {
            url,
            title,
            circle,
            artists,
            image_url,
            category,
            tags,
            flags,
            price,
            availability,
        }
    }

    /// The arguments that store `data` under `url`.
    pub open spec fn spec_from_data(url: String, data: ProductData) -> CreateProductArgs {
        CreateProductArgs {
            url,
            title: data.title,
            circle: data.circle,
            artists: data.artists,
            image_url: data.image_url,
            category: data.category,
            tags: data.tags,
            flags: data.flags,
            price: data.price,
            availability: data.availability,
        }
    }

    pub fn new_from_data(url: String, data: ProductData) -> (r: Self)
        ensures
            r == Self::spec_from_data(url, data),
    {
        Self::new(
            url,
            data.title,
            data.circle,
            data.artists,
            data.image_url,
            data.category,
            data.tags,
            data.flags,
            data.price,
            data.availability,
        )
    }

    pub fn url(&self) -> (r: &str)
        ensures
            r@ == self.url@,
    {
        self.url.as_str()
    }

    pub fn title(&self) -> (r: &str)
        ensures
            r@ == self.title@,
    {
        self.title.as_str()
    }

    pub fn circle(&self) -> (r: Option<&String>)
        ensures
            match r {
                Some(v) => self.circle == Some(*v),
                None => self.circle is None,
            },
    {
        self.circle.as_ref()
    }

    pub fn artists(&self) -> (r: &[String])
        ensures
            r@ == self.artists@,
    {
        self.artists.as_slice()
    }

    pub fn image_url(&self) -> (r: &str)
        ensures
            r@ == self.image_url@,
    {
        self.image_url.as_str()
    }

    pub fn category(&self) -> (r: &str)
        ensures
            r@ == self.category@,
    {
        self.category.as_str()
    }

    pub fn tags(&self) -> (r: &[String])
        ensures
            r@ == self.tags@,
    {
        self.tags.as_slice()
    }

    pub fn flags(&self) -> (r: &[String])
        ensures
            r@ == self.flags@,
    {
        self.flags.as_slice()
    }

    pub fn price(&self) -> (r: Option<&String>)
        ensures
            match r {
                Some(v) => self.price == Some(*v),
                None => self.price is None,
            },
    {
        self.price.as_ref()
    }

    pub fn availability(&self) -> (r: Availability)
        ensures
            r == self.availability,
    {
        self.availability
    }
}

/// A change of availability for the item stored under `url`.
#[derive(Debug)]
pub struct UpdateProductArgs {
    pub url: String,
    pub availability: Availability,
}

impl UpdateProductArgs {
    pub fn new(url: String, availability: Availability) -> (r: Self)
        ensures
            r.url == url,
            r.availability == availability,
    {
        UpdateProductArgs { url, availability }
    }

    pub fn url(&self) -> (r: &str)
        ensures
            r@ == self.url@,
    {
        self.url.as_str()
    }

    pub fn availability(&self) -> (r: Availability)
        ensures
            r == self.availability,
    {
        self.availability
    }
}

#[derive(Debug)]
pub enum CreateProductError {
    /// An item with this url is stored already.
    DuplicateProduct { url: String, title: String },
    Unknown(String),
}

/// Refuses to store an item under a url that is stored already, naming the
/// stored item's url and title.
pub fn refuse_duplicate(stored: Option<(&String, &String)>) -> (r: Result<(), CreateProductError>)
    ensures
        match stored {
            None => r is Ok,
            Some((url, title)) => r matches Err(CreateProductError::DuplicateProduct { url: u, title: t })
                && u == *url && t == *title,
        },
{
    match stored {
        None => Ok(()),
        Some((url, title)) => Err(
            CreateProductError::DuplicateProduct { url: url.clone(), title: title.clone() },
        ),
    }
}

#[derive(Debug)]
pub enum UpdateProductError {
    /// No item is stored under this url.
    ProductMissing { url: String },
    Unknown(String),
}

#[derive(Debug)]
pub enum GetProductsError {
    Unknown(String),
}

#[derive(Debug)]
pub enum GetSkippingUrlsError {
    Unknown(String),
}

#[derive(Debug)]
pub enum AddSkippingUrlError {
    Unknown(String),
}

#[derive(Debug)]
pub enum AddTitleSkippSequenceError {
    Unknown(String),
}

#[derive(Debug)]
pub enum DeleteTitleSkippSequenceError {
    Unknown(String),
}

#[derive(Debug)]
pub enum GetTitleSkippSequencesError {
    Unknown(String),
}

/// Why the run of an entity stopped.
#[derive(Debug)]
pub enum ScrapeProductsError {
    ParseError(ParseError),
    GetArtistsError(GetArtistsError),
    GetProductError(GetProductsError),
    CreateProductError(CreateProductError),
    GetSkippingUrlsError(GetSkippingUrlsError),
    GetTitleSkipSequencesError(GetTitleSkippSequencesError),
    UpdateProductError(UpdateProductError),
    AddSkippingUrlError(AddSkippingUrlError),
    Unknown(String),
}

/// What a listing or item page lacked.
#[derive(Debug)]
pub enum ParseError {
    ProductListNotFound,
    ProductLinkNodeNotFound,
    ProductUrlNotFound(String),
    ProductItemPageNotFound,
    ProductItemHeaderNotFound,
    ProductPageHeaderNotFound,
    ProductCategoryNotFound,
    ProductItemMetaNotFound,
    ProductTableNotFound,
    ProductCircleRowNotFound,
    ProductCircleNotFound,
    ProductArtistRowNotFound,
    ProductTagListNotFound,
    ProductAvailabilityNotFound,
    ProductImageUrlNotFound,
    ProductAvailabilityUnknown(String),
}

} // verus!
