use vstd::prelude::*;
use crate::artist::Timestamp;
use crate::availability::Availability;
use crate::json::{json_elements, json_integer, json_member, json_text};

verus! {

/// A calendar date.
#[derive(Debug, Clone, Copy, PartialEq, Eq, Structural)]
pub struct Date {
    pub year: i32,
    pub month: u32,
    pub day: u32,
}

/// A figure shop item as stored.
#[derive(Debug)]
pub struct Product {
    pub id: i32,
    pub date_added: Timestamp,
    pub url: String,
    pub title: String,
    pub image_url: String,
    pub category: String,
    pub maker: String,
    pub full_price: i32,
    pub min_price: i32,
    pub release_date: Option<Date>,
    pub availability: Availability,
}

/// A figure shop item as listed.
#[derive(Debug)]
pub struct ProductData {
    pub url: String,
    pub title: String,
    pub image_url: String,
    pub category: String,
    pub maker: String,
    pub full_price: i32,
    pub min_price: i32,
    pub release_date: Option<Date>,
    pub availability: Availability,
}

#[derive(Debug)]
pub struct CreateProductArgs {
    pub url: String,
    pub title: String,
    pub image_url: String,
    pub category: String,
    pub maker: String,
    pub full_price: i32,
    pub min_price: i32,
    pub release_date: Option<Date>,
    pub availability: Availability,
}

impl CreateProductArgs {
    pub open spec fn spec_from_data(data: ProductData) -> CreateProductArgs {
        CreateProductArgs {
            url: data.url,
            title: data.title,
            image_url: data.image_url,
            category: data.category,
            maker: data.maker,
            full_price: data.full_price,
            min_price: data.min_price,
            release_date: data.release_date,
            availability: data.availability,
        }
    }

    /// The arguments that store a listed item as it is listed.
    pub fn new_from_data(data: ProductData) -> (r: Self)
        ensures
            r == Self::spec_from_data(data),
    {
        CreateProductArgs {
            url: data.url,
            title: data.title,
            image_url: data.image_url,
            category: data.category,
            maker: data.maker,
            full_price: data.full_price,
            min_price: data.min_price,
            release_date: data.release_date,
            availability: data.availability,
        }
    }
}

/// New prices, release date and availability for the item stored under `url`.
#[derive(Debug)]
pub struct UpdateProductArgs {
    pub url: String,
    pub availability: Availability,
}

impl UpdateProductArgs {
    /// A restock of the listed item: its stored item becomes available, and
    /// no other field changes.
    pub open spec fn spec_restock(data: ProductData) -> UpdateProductArgs {
        UpdateProductArgs { url: data.url, availability: Availability::Available }
    }

    pub fn restock(data: ProductData) -> (r: Self)
        ensures
            r == Self::spec_restock(data),
    {
        UpdateProductArgs { url: data.url, availability: Availability::Available }
    }
}

#[derive(Debug)]
pub enum CreateProductError {
    DuplicateProduct { url: String, title: String },
    Unknown(String),
}

/// Refuses to store an item under a url that is stored already, naming the
/// stored item's url and title.
pub fn refuse_duplicate(stored: Option<(&String, &String)>) -> (r: Result<(), CreateProductError>)
    ensures
        match stored {
            None => r is Ok,
            Some((url, title)) => r matches Err(CreateProductError::DuplicateProduct { url: u, title: t })
                && u == *url && t == *title,
        },
{
    match stored {
        None => Ok(()),
        Some((url, title)) => Err(
            CreateProductError::DuplicateProduct { url: url.clone(), title: title.clone() },
        ),
    }
}

#[derive(Debug)]
pub enum UpdateProductError {
    ProductMissing { url: String },
    Unknown(String),
}

#[derive(Debug)]
pub enum GetProductsError {
    Unknown(String),
}

#[derive(Debug)]
pub enum GetCategoriesError {
    Unknown(String),
}

/// What a listing of the figure shop lacked.
#[derive(Debug)]
pub enum ParseError {
    ProductListNotFound,
    ProductGcodeNotFound,
    ProductTitleNotFound(String),
    ProductImageUrlNotFound(String),
    ProductMakerNotFound(String),
    ProductFullPriceNotFound(String),
    ProductMinPriceNotFound(String),
    ProductAvailabilityNotFound(String, String),
}

#[derive(Debug)]
pub enum ScrapeProductsError {
    ParseError(ParseError),
    GetProductError(GetProductsError),
    CreateProductError(CreateProductError),
    UpdateProductError(UpdateProductError),
    GetCategoriesError(GetCategoriesError),
    Unknown(String),
}

/// Some stored item of `category` under `u` is available or preordered.
pub open spec fn available_in(known: Seq<Product>, category: Seq<char>, u: Seq<char>) -> bool {
    exists|i: int|
        0 <= i < known.len() && #[trigger] known[i].url@ == u && known[i].category@ == category
            && known[i].availability.spec_is_available()
}

/// Some stored item of `category` under `u` is not available or deleted.
pub open spec fn unavailable_in(known: Seq<Product>, category: Seq<char>, u: Seq<char>) -> bool {
    exists|i: int|
        0 <= i < known.len() && #[trigger] known[i].url@ == u && known[i].category@ == category
            && !known[i].availability.spec_is_available()
}

pub open spec fn is_new_listing(known: Seq<Product>, category: Seq<char>) -> spec_fn(
    ProductData,
) -> bool {
    |d: ProductData| !available_in(known, category, d.url@) && !unavailable_in(known, category, d.url@)
}

pub open spec fn is_restocked_listing(known: Seq<Product>, category: Seq<char>) -> spec_fn(
    ProductData,
) -> bool {
    |d: ProductData| !available_in(known, category, d.url@) && unavailable_in(known, category, d.url@)
}

/// The listed items of one category, split against the stored items of that
/// category into items never stored before and items coming back into stock.
/// Items still stored as available are left out. The figure shop's run has
/// no went-away pass: a stored item that is no longer listed is left as it is.
#[derive(Debug)]
pub struct CategoryPlan {
    pub new_items: Vec<ProductData>,
    pub restocked_items: Vec<ProductData>,
}

impl CategoryPlan {
    /// The writes that carry the plan out, in the order they are made: each
    /// restocked item is set available (and nothing else of it changes),
    /// each new item is stored as listed.
    pub fn into_writes(self) -> (r: (Vec<UpdateProductArgs>, Vec<CreateProductArgs>))
        ensures
            r.0@ == self.restocked_items@.map_values(
                |d: ProductData| UpdateProductArgs::spec_restock(d),
            ),
            r.1@ == self.new_items@.map_values(|d: ProductData| CreateProductArgs::spec_from_data(d)),
    {
        let mut updates: Vec<UpdateProductArgs> = Vec::new();
        let mut rest = self.restocked_items;
        let ghost all = rest@;
        let n: usize = rest.len();
        let mut i: usize = 0;
        while i < n
            invariant
                0 <= i <= n,
                n == all.len(),
                rest@ == all.subrange(i as int, n as int),
                updates@ == all.subrange(0, i as int).map_values(
                    |d: ProductData| UpdateProductArgs::spec_restock(d),
                ),
            decreases n - i,
        {
            let d = rest.remove(0);
            updates.push(UpdateProductArgs::restock(d));
            i = i + 1;
            assert(rest@ =~= all.subrange(i as int, n as int));
            assert(updates@ =~= all.subrange(0, i as int).map_values(
                |d: ProductData| UpdateProductArgs::spec_restock(d),
            ));
        }
        assert(all.subrange(0, n as int) == all);
        let mut creates: Vec<CreateProductArgs> = Vec::new();
        let mut rest = self.new_items;
        let ghost all = rest@;
        let n: usize = rest.len();
        let mut i: usize = 0;
        while i < n
            invariant
                0 <= i <= n,
                n == all.len(),
                rest@ == all.subrange(i as int, n as int),
                creates@ == all.subrange(0, i as int).map_values(
                    |d: ProductData| CreateProductArgs::spec_from_data(d),
                ),
            decreases n - i,
        {
            let d = rest.remove(0);
            creates.push(CreateProductArgs::new_from_data(d));
            i = i + 1;
            assert(rest@ =~= all.subrange(i as int, n as int));
            assert(creates@ =~= all.subrange(0, i as int).map_values(
                |d: ProductData| CreateProductArgs::spec_from_data(d),
            ));
        }
        assert(all.subrange(0, n as int) == all);
        (updates, creates)
    }
}

fn stored_as(known: &Vec<Product>, category: &String, url: &String, available: bool) -> (r: bool)
    ensures
        r == (if available {
            available_in(known@, category@, url@)
        } else {
            unavailable_in(known@, category@, url@)
        }),
{
    let mut i: usize = 0;
    while i < known.len()
        invariant
            0 <= i <= known@.len(),
            forall|k: int|
                0 <= k < i ==> !(#[trigger] known@[k].url@ == url@ && known@[k].category@
                    == category@ && known@[k].availability.spec_is_available() == available),
        decreases known@.len() - i,
    {
        if known[i].url.eq(url) && known[i].category.eq(category)
            && known[i].availability.is_available() == available {
            return true;
        }
        i = i + 1;
    }
    false
}

pub fn plan_category(known: &Vec<Product>, category: &String, listed: Vec<ProductData>) -> (r:
    CategoryPlan)
    ensures
        r.new_items@ == listed@.filter(is_new_listing(known@, category@)),
        r.restocked_items@ == listed@.filter(is_restocked_listing(known@, category@)),
{
    let mut new_items: Vec<ProductData> = Vec::new();
    let mut restocked_items: Vec<ProductData> = Vec::new();
    let mut rest = listed;
    let ghost all = rest@;
    let n: usize = rest.len();
    let mut i: usize = 0;
    while i < n
        invariant
            0 <= i <= n,
            n == all.len(),
            rest@ == all.subrange(i as int, n as int),
            new_items@ == all.subrange(0, i as int).filter(is_new_listing(known@, category@)),
            restocked_items@ == all.subrange(0, i as int).filter(
                is_restocked_listing(known@, category@),
            ),
        decreases n - i,
    {
        let d = rest.remove(0);
        proof {
            assert(d == all[i as int]);
            assert(all.subrange(0, i as int + 1) == all.subrange(0, i as int).push(d));
            all.subrange(0, i as int).lemma_filter_push(d, is_new_listing(known@, category@));
            all.subrange(0, i as int).lemma_filter_push(d, is_restocked_listing(known@, category@));
        }
        if !stored_as(known, category, &d.url, true) {
            if stored_as(known, category, &d.url, false) {
                restocked_items.push(d);
            } else {
                new_items.push(d);
            }
        }
        i = i + 1;
        assert(rest@ =~= all.subrange(i as int, n as int));
    }
    proof {
        assert(all.subrange(0, n as int) == all);
    }
    CategoryPlan { new_items, restocked_items }
}

proof fn lemma_filter_none(s: Seq<ProductData>, f: spec_fn(ProductData) -> bool)
    requires
        forall|i: int| 0 <= i < s.len() ==> !f(#[trigger] s[i]),
    ensures
        s.filter(f) == Seq::<ProductData>::empty(),
{
    broadcast use vstd::seq_lib::group_filter_ensures;

    if s.filter(f).len() > 0 {
        let x = s.filter(f)[0];
        assert(f(x));
        assert(s.filter(f).contains(x));
        s.lemma_filter_contains_rev(f, x);
    }
    assert(s.filter(f) =~= Seq::<ProductData>::empty());
}

/// Running a category again on an unchanged listing writes and announces
/// nothing: once the writes of a first run are applied (restocked items set
/// available, new items stored as listed, items left alone kept available),
/// the second plan has no restocked and no new items. This holds where every
/// new item of the first run was listed as available or preordered; an item
/// stored as not available would be restocked by the second run.
pub proof fn lemma_category_rerun_is_quiet(
    before: Seq<Product>,
    after: Seq<Product>,
    category: Seq<char>,
    listed: Seq<ProductData>,
)
    requires
        forall|i: int|
            0 <= i < listed.len() && #[trigger] is_restocked_listing(before, category)(listed[i])
                ==> available_in(after, category, listed[i].url@),
        forall|i: int|
            0 <= i < listed.len() && #[trigger] is_new_listing(before, category)(listed[i])
                ==> listed[i].availability.spec_is_available() && available_in(
                after,
                category,
                listed[i].url@,
            ),
        forall|i: int|
            0 <= i < listed.len() && #[trigger] available_in(before, category, listed[i].url@)
                ==> available_in(after, category, listed[i].url@),
    ensures
        listed.filter(is_new_listing(after, category)) == Seq::<ProductData>::empty(),
        listed.filter(is_restocked_listing(after, category)) == Seq::<ProductData>::empty(),
{
    assert forall|i: int| 0 <= i < listed.len() implies available_in(
        after,
        category,
        #[trigger] listed[i].url@,
    ) by {
        let d = listed[i];
        if !available_in(before, category, d.url@) {
            if unavailable_in(before, category, d.url@) {
                assert(is_restocked_listing(before, category)(d));
            } else {
                assert(is_new_listing(before, category)(d));
            }
        }
    }
    lemma_filter_none(listed, is_new_listing(after, category));
    lemma_filter_none(listed, is_restocked_listing(after, category));
}

// ---------------------------------------------------------------------------
// Listing entries
// ---------------------------------------------------------------------------

/// The fields of one entry of a category listing, as far as they are present.
#[derive(Debug)]
pub struct ListingFields {
    pub gcode: Option<String>,
    pub gname: Option<String>,
    pub thumb_url: Option<String>,
    pub maker_name: Option<String>,
    pub c_price_taxed: Option<i64>,
    pub min_price: Option<i64>,
    pub instock_flg: Option<i64>,
    pub preorderitem: Option<i64>,
}

pub open spec fn details_url_prefix() -> Seq<char> {
    "https://www.amiami.com/eng/detail/?gcode="@
}

pub open spec fn image_base_url() -> Seq<char> {
    "https://img.amiami.com"@
}

/// A listed price that does not fit an `i32` is taken as 0.
pub open spec fn price_of(p: i64) -> i32 {
    if i32::MIN <= p <= i32::MAX {
        p as i32
    } else {
        0
    }
}

fn to_price(p: i64) -> (r: i32)
    ensures
        r == price_of(p),
{
    if p >= i32::MIN as i64 && p <= i32::MAX as i64 {
        p as i32
    } else {
        0
    }
}

/// Builds a listed item of `category` from the fields of its listing entry.
/// The fields are checked in order, and the first missing one is reported;
/// the item's page and image urls are built from its code and thumbnail path.
pub fn item_from_fields(category: &String, f: ListingFields) -> (r: Result<ProductData, ParseError>)
    ensures
        f.gcode is None ==> r matches Err(ParseError::ProductGcodeNotFound),
        f.gcode matches Some(g) ==> {
            &&& f.gname is None ==> (r matches Err(ParseError::ProductTitleNotFound(c)) && c == g)
            &&& f.gname is Some && f.thumb_url is None ==> (r matches Err(
                ParseError::ProductImageUrlNotFound(c),
            ) && c == g)
            &&& f.gname is Some && f.thumb_url is Some && f.maker_name is None ==> (r matches Err(
                ParseError::ProductMakerNotFound(c),
            ) && c == g)
            &&& f.gname is Some && f.thumb_url is Some && f.maker_name is Some && f.c_price_taxed
                is None ==> (r matches Err(ParseError::ProductFullPriceNotFound(c)) && c == g)
            &&& f.gname is Some && f.thumb_url is Some && f.maker_name is Some && f.c_price_taxed
                is Some && f.min_price is None ==> (r matches Err(
                ParseError::ProductMinPriceNotFound(c),
            ) && c == g)
            &&& f.gname is Some && f.thumb_url is Some && f.maker_name is Some && f.c_price_taxed
                is Some && f.min_price is Some && f.instock_flg is None ==> (r matches Err(
                ParseError::ProductAvailabilityNotFound(c, field),
            ) && c == g && field@ == "instock_flg"@)
            &&& f.gname is Some && f.thumb_url is Some && f.maker_name is Some && f.c_price_taxed
                is Some && f.min_price is Some && f.instock_flg is Some && f.preorderitem is None
                ==> (r matches Err(ParseError::ProductAvailabilityNotFound(c, field)) && c == g
                && field@ == "preorderitem"@)
        },
        r is Ok <==> f.gcode is Some && f.gname is Some && f.thumb_url is Some && f.maker_name is Some
            && f.c_price_taxed is Some && f.min_price is Some && f.instock_flg is Some
            && f.preorderitem is Some,
        r matches Ok(d) ==> {
            &&& d.url@ == details_url_prefix() + f.gcode->0@
            &&& d.title == f.gname->0
            &&& d.image_url@ == image_base_url() + f.thumb_url->0@
            &&& d.category == *category
            &&& d.maker == f.maker_name->0
            &&& d.full_price == price_of(f.c_price_taxed->0)
            &&& d.min_price == price_of(f.min_price->0)
            &&& d.release_date is None
            &&& d.availability == (if f.instock_flg->0 == 1 {
                Availability::Available
            } else if f.preorderitem->0 == 1 {
                Availability::Preorder
            } else {
                Availability::NotAvailable
            })
        },
{
    let gcode = match f.gcode {
        Some(g) => g,
        None => return Err(ParseError::ProductGcodeNotFound),
    };
    let title = match f.gname {
        Some(t) => t,
        None => return Err(ParseError::ProductTitleNotFound(gcode)),
    };
    let thumb = match f.thumb_url {
        Some(t) => t,
        None => return Err(ParseError::ProductImageUrlNotFound(gcode)),
    };
    let maker = match f.maker_name {
        Some(m) => m,
        None => return Err(ParseError::ProductMakerNotFound(gcode)),
    };
    let full_price = match f.c_price_taxed {
        Some(p) => p,
        None => return Err(ParseError::ProductFullPriceNotFound(gcode)),
    };
    let min_price = match f.min_price {
        Some(p) => p,
        None => return Err(ParseError::ProductMinPriceNotFound(gcode)),
    };
    let in_stock = match f.instock_flg {
        Some(v) => v,
        None => return Err(
            ParseError::ProductAvailabilityNotFound(gcode, String::from_str("instock_flg")),
        ),
    };
    let preorder = match f.preorderitem {
        Some(v) => v,
        None => return Err(
            ParseError::ProductAvailabilityNotFound(gcode, String::from_str("preorderitem")),
        ),
    };
    let mut url = String::from_str("https://www.amiami.com/eng/detail/?gcode=");
    url.append(gcode.as_str());
    let mut image_url = String::from_str("https://img.amiami.com");
    image_url.append(thumb.as_str());
    Ok(
        ProductData {
            url,
            title,
            image_url,
            category: category.clone(),
            maker,
            full_price: to_price(full_price),
            min_price: to_price(min_price),
            release_date: None,
            availability: Availability::from_stock_flags(in_stock, preorder),
        },
    )
}

fn member_text(v: &serde_json::Value, key: &str) -> (r: Option<String>) {
    match json_member(v, key) {
        Some(m) => json_text(m),
        None => None,
    }
}

fn member_integer(v: &serde_json::Value, key: &str) -> (r: Option<i64>) {
    match json_member(v, key) {
        Some(m) => json_integer(m),
        None => None,
    }
}

/// Reads one entry of a category listing. What the entry holds is known only
/// at run time; the item is built from it as `item_from_fields` states.
pub fn parse_item(category: &String, json: &serde_json::Value) -> (r: Result<ProductData, ParseError>)
    ensures
        r matches Ok(d) ==> d.category == *category,
{
    let fields = ListingFields {
        gcode: member_text(json, "gcode"),
        gname: member_text(json, "gname"),
        thumb_url: member_text(json, "thumb_url"),
        maker_name: member_text(json, "maker_name"),
        c_price_taxed: member_integer(json, "c_price_taxed"),
        min_price: member_integer(json, "min_price"),
        instock_flg: member_integer(json, "instock_flg"),
        preorderitem: member_integer(json, "preorderitem"),
    };
    item_from_fields(category, fields)
}

/// Reads a category listing: every entry of its `items` array, in order, or
/// the first entry's error.
pub fn parse_product_list(category: &String, json: &serde_json::Value) -> (r: Result<
    Vec<ProductData>,
    ParseError,
>)
    ensures
        r matches Ok(v) ==> forall|k: int| 0 <= k < v@.len() ==> (#[trigger] v@[k]).category
            == *category,
{
    let items = match json_member(json, "items") {
        Some(m) => match json_elements(m) {
            Some(a) => a,
            None => return Err(ParseError::ProductListNotFound),
        },
        None => return Err(ParseError::ProductListNotFound),
    };
    let mut out: Vec<ProductData> = Vec::new();
    let mut i: usize = 0;
    while i < items.len()
        invariant
            0 <= i <= items@.len(),
            forall|k: int| 0 <= k < out@.len() ==> (#[trigger] out@[k]).category == *category,
        decreases items@.len() - i,
    {
        let d = parse_item(category, &items[i])?;
        out.push(d);
        i = i + 1;
    }
    Ok(out)
}

} // verus!
