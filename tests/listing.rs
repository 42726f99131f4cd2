use moe_scraper::amiami;
use moe_scraper::amiami::{
    item_from_fields, parse_product_list, plan_category, Date, ListingFields, ParseError, Product,
    ProductData,
};
use moe_scraper::artist::Timestamp;
use moe_scraper::availability::Availability;
use moe_scraper::listing::{distinct, wants_next_page};
use moe_scraper::notify::{chunk_bounds, new_items_content, product_description, restocked_items_content};

fn fields() -> ListingFields {
    ListingFields {
        gcode: Some("FIG-1".to_owned()),
        gname: Some("Figure".to_owned()),
        thumb_url: Some("/images/1.jpg".to_owned()),
        maker_name: Some("Maker".to_owned()),
        c_price_taxed: Some(12000),
        min_price: Some(9000),
        instock_flg: Some(0),
        preorderitem: Some(1),
    }
}

#[test]
fn listing_entry_becomes_item() {
    let d = item_from_fields(&"459".to_owned(), fields()).unwrap();
    assert_eq!(d.url, "https://www.amiami.com/eng/detail/?gcode=FIG-1");
    assert_eq!(d.image_url, "https://img.amiami.com/images/1.jpg");
    assert_eq!(d.title, "Figure");
    assert_eq!(d.category, "459");
    assert_eq!(d.maker, "Maker");
    assert_eq!(d.full_price, 12000);
    assert_eq!(d.min_price, 9000);
    assert_eq!(d.availability, Availability::Preorder);
}

#[test]
fn listing_entry_errors_name_first_missing_field() {
    let mut f = fields();
    f.gcode = None;
    assert!(matches!(item_from_fields(&"c".to_owned(), f), Err(ParseError::ProductGcodeNotFound)));
    let mut f = fields();
    f.maker_name = None;
    f.min_price = None;
    assert!(matches!(item_from_fields(&"c".to_owned(), f), Err(ParseError::ProductMakerNotFound(ref g)) if g == "FIG-1"));
    let mut f = fields();
    f.preorderitem = None;
    assert!(matches!(item_from_fields(&"c".to_owned(), f), Err(ParseError::ProductAvailabilityNotFound(ref g, ref n)) if g == "FIG-1" && n == "preorderitem"));
}

#[test]
fn oversized_price_becomes_zero() {
    let mut f = fields();
    f.c_price_taxed = Some(5_000_000_000);
    f.instock_flg = Some(1);
    let d = item_from_fields(&"c".to_owned(), f).unwrap();
    assert_eq!(d.full_price, 0);
    assert_eq!(d.availability, Availability::Available);
}

#[test]
fn json_listing_is_read() {
    let json: serde_json::Value = serde_json::from_str(
        r#"{"items":[{"gcode":"A1","gname":"One","thumb_url":"/a.jpg","maker_name":"M","c_price_taxed":100,"min_price":90,"instock_flg":1,"preorderitem":0},
                     {"gcode":"B2","gname":"Two","thumb_url":"/b.jpg","maker_name":"M","c_price_taxed":200,"min_price":180,"instock_flg":0,"preorderitem":0}]}"#,
    )
    .unwrap();
    let items = parse_product_list(&"459".to_owned(), &json).unwrap();
    assert_eq!(items.len(), 2);
    assert_eq!(items[0].url, "https://www.amiami.com/eng/detail/?gcode=A1");
    assert_eq!(items[1].availability, Availability::NotAvailable);
    let missing: serde_json::Value = serde_json::from_str(r#"{"items":[{"gname":"x"}]}"#).unwrap();
    assert!(matches!(parse_product_list(&"459".to_owned(), &missing), Err(ParseError::ProductGcodeNotFound)));
    let no_list: serde_json::Value = serde_json::from_str(r#"{"other":1}"#).unwrap();
    assert!(matches!(parse_product_list(&"459".to_owned(), &no_list), Err(ParseError::ProductListNotFound)));
}

fn stored(url: &str, category: &str, availability: Availability) -> Product {
    Product {
        id: 1,
        date_added: Timestamp { micros: 0 },
        url: url.to_owned(),
        title: "t".to_owned(),
        image_url: "i".to_owned(),
        category: category.to_owned(),
        maker: "m".to_owned(),
        full_price: 1,
        min_price: 1,
        release_date: Some(Date { year: 2024, month: 5, day: 1 }),
        availability,
    }
}

fn listed(url: &str) -> ProductData {
    ProductData {
        url: url.to_owned(),
        title: "t".to_owned(),
        image_url: "i".to_owned(),
        category: "459".to_owned(),
        maker: "m".to_owned(),
        full_price: 2,
        min_price: 2,
        release_date: None,
        availability: Availability::Available,
    }
}

#[test]
fn category_plan_splits_listing() {
    let known = vec![
        stored("keep", "459", Availability::Available),
        stored("back", "459", Availability::NotAvailable),
        stored("elsewhere", "9708", Availability::Available),
    ];
    let plan = plan_category(&known, &"459".to_owned(), vec![listed("keep"), listed("back"), listed("elsewhere"), listed("fresh")]);
    let new_urls: Vec<&str> = plan.new_items.iter().map(|d| d.url.as_str()).collect();
    let back_urls: Vec<&str> = plan.restocked_items.iter().map(|d| d.url.as_str()).collect();
    assert_eq!(new_urls, vec!["elsewhere", "fresh"]);
    assert_eq!(back_urls, vec!["back"]);
    let (updates, creates) = plan.into_writes();
    assert_eq!(updates.len(), 1);
    assert_eq!(updates[0].url, "back");
    assert_eq!(updates[0].availability, Availability::Available);
    assert_eq!(creates.len(), 2);
    assert_eq!(creates[1].url, "fresh");
}

#[test]
fn repeated_urls_are_dropped() {
    let urls = vec!["a".to_owned(), "b".to_owned(), "a".to_owned(), "c".to_owned(), "b".to_owned()];
    assert_eq!(distinct(urls), vec!["a".to_owned(), "b".to_owned(), "c".to_owned()]);
    assert!(distinct(Vec::new()).is_empty());
}

#[test]
fn paging_stops_on_short_page_or_cap() {
    assert!(wants_next_page(1, 100, 100, 20));
    assert!(!wants_next_page(1, 99, 100, 20));
    assert!(!wants_next_page(20, 100, 100, 20));
    assert!(wants_next_page(2, 20, 20, 3));
    assert!(!wants_next_page(3, 20, 20, 3));
}

#[test]
fn announcement_texts() {
    assert_eq!(new_items_content("mafuyu"), "mafuyu: new products available");
    assert_eq!(restocked_items_content("mafuyu"), "mafuyu: products available again");
}

#[test]
fn item_description() {
    let mut p = moe_scraper::product::Product::new(
        1,
        Timestamp { micros: 0 },
        "u".to_owned(),
        "t".to_owned(),
        None,
        Vec::new(),
        "i".to_owned(),
        "同人誌".to_owned(),
        Vec::new(),
        vec!["18禁".to_owned(), "特典付".to_owned()],
        Some("¥1,000".to_owned()),
        Availability::Available,
    );
    assert_eq!(product_description(&p), "同人誌 [18禁 特典付]\n¥1,000");
    p.price = None;
    p.flags = Vec::new();
    assert_eq!(product_description(&p), "同人誌 []");
}

#[test]
fn chunks_cover_items() {
    assert_eq!(chunk_bounds(25, 10), vec![(0, 10), (10, 20), (20, 25)]);
    assert_eq!(chunk_bounds(20, 10), vec![(0, 10), (10, 20)]);
    assert!(chunk_bounds(0, 10).is_empty());
    assert_eq!(chunk_bounds(3, 1), vec![(0, 1), (1, 2), (2, 3)]);
}

fn listed_as(url: &str, availability: Availability) -> ProductData {
    let mut d = listed(url);
    d.availability = availability;
    d
}

#[test]
fn category_restock_new_scenario() {
    let known = vec![stored("A", "459", Availability::Available), stored("B", "459", Availability::NotAvailable)];
    let plan = plan_category(&known, &"459".to_owned(), vec![listed_as("B", Availability::NotAvailable), listed("C")]);
    let (updates, creates) = plan.into_writes();
    assert_eq!(updates.len(), 1);
    assert_eq!(updates[0].url, "B");
    assert_eq!(updates[0].availability, Availability::Available);
    assert_eq!(creates.len(), 1);
    assert_eq!(creates[0].url, "C");
}

#[test]
fn category_rerun_plans_nothing() {
    let known = vec![
        stored("A", "459", Availability::Available),
        stored("B", "459", Availability::Available),
        stored("C", "459", Availability::Available),
    ];
    let plan = plan_category(&known, &"459".to_owned(), vec![listed("A"), listed_as("B", Availability::Preorder), listed("C")]);
    assert!(plan.new_items.is_empty());
    assert!(plan.restocked_items.is_empty());
}

#[test]
fn figure_shop_duplicates_are_refused() {
    assert!(amiami::refuse_duplicate(None).is_ok());
    let (u, t) = ("u".to_owned(), "t".to_owned());
    assert!(matches!(amiami::refuse_duplicate(Some((&u, &t))), Err(amiami::CreateProductError::DuplicateProduct { ref url, ref title }) if url == "u" && title == "t"));
}
