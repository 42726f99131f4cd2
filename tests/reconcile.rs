use moe_scraper::artist::{ArtistArgs, Timestamp};
use moe_scraper::availability::Availability;
use moe_scraper::product::{CreateProductArgs, CreateProductError, Product, ProductData, UpdateProductArgs};
use moe_scraper::reconcile::{judge_new_item, plan_entity, title_is_skipped, NewItemVerdict};
use moe_scraper::run::{EntityRun, Reply, Step};
use moe_scraper::store::MemoryStore;

const ENTITY: &str = "mafuyu";

fn now() -> Timestamp {
    Timestamp { micros: 1_000 }
}

fn item_args(url: &str, availability: Availability) -> CreateProductArgs {
    CreateProductArgs::new(
        url.to_owned(),
        format!("title of {url}"),
        None,
        vec![ENTITY.to_owned()],
        "https://img.png".to_owned(),
        "category".to_owned(),
        vec![],
        vec![],
        None,
        availability,
    )
}

fn data(title: &str, artists: &[&str], availability: Availability) -> ProductData {
    ProductData::new(
        title.to_owned(),
        None,
        artists.iter().map(|a| a.to_string()).collect(),
        "https://img.png".to_owned(),
        "category".to_owned(),
        vec![],
        vec![],
        None,
        availability,
    )
}

fn plain_details(url: &str) -> ProductData {
    data(&format!("title of {url}"), &[ENTITY], Availability::Available)
}

/// What one run did, seen from outside.
#[derive(Debug, Default)]
struct Outcome {
    steps: Vec<String>,
    restocked: Vec<Vec<String>>,
    created: Vec<Vec<String>>,
    fetched: Vec<String>,
    skipped: Vec<String>,
}

fn urls_of(products: &[Product]) -> Vec<String> {
    products.iter().map(|p| p.url().to_owned()).collect()
}

/// Drives one run of `ENTITY` against the store, with `candidates` listed and
/// `details` standing in for the item pages.
fn run_once(store: &mut MemoryStore, candidates: &[&str], details: fn(&str) -> ProductData) -> Outcome {
    let artist = store
        .get_melonbooks_artists()
        .unwrap()
        .into_iter()
        .find(|a| a.name() == ENTITY)
        .unwrap();
    let known = store.get_melonbooks_products_by_artist(artist.id()).unwrap();
    let skips = store.get_melonbooks_skipping_urls().unwrap();
    let sequences = store.get_melonbooks_title_skip_sequences().unwrap();
    let candidates: Vec<String> = candidates.iter().map(|c| c.to_string()).collect();
    let plan = plan_entity(&known, &skips, &candidates);
    let (mut run, mut step) = EntityRun::begin(ENTITY.to_owned(), sequences, plan);
    let mut out = Outcome::default();
    loop {
        let reply = match step {
            Step::UpdateAvailability { url, availability } => {
                out.steps.push(format!("update {url} {}", availability.name()));
                Reply::Updated(store.update_melonbooks_product(&UpdateProductArgs::new(url, availability)).unwrap())
            }
            Step::NotifyRestocked { products, .. } => {
                out.steps.push("notify restocked".to_owned());
                out.restocked.push(urls_of(&products));
                Reply::Done
            }
            Step::FetchDetails { url } => {
                out.steps.push(format!("fetch {url}"));
                out.fetched.push(url.clone());
                Reply::Fetched(details(&url))
            }
            Step::AddSkipEntry { url, artists } => {
                out.steps.push(format!("skip {url}"));
                store.add_melonbooks_skipping_url(&url, &artists).unwrap();
                out.skipped.push(url);
                Reply::Done
            }
            Step::CreateItem { args } => {
                out.steps.push(format!("create {}", args.url()));
                match store.create_melonbooks_product(&args, now()) {
                    Ok(product) => Reply::Created(product),
                    Err(CreateProductError::DuplicateProduct { .. }) => {
                        out.steps.push(format!("duplicate {}", args.url()));
                        Reply::Done
                    }
                    Err(e) => panic!("{:?}", e),
                }
            }
            Step::NotifyNew { products, .. } => {
                out.steps.push("notify new".to_owned());
                out.created.push(urls_of(&products));
                Reply::Done
            }
            Step::Finished => break,
        };
        step = run.advance(reply);
    }
    out
}

fn store_with(items: &[(&str, Availability)]) -> MemoryStore {
    let mut store = MemoryStore::new();
    store.follow_melonbooks_artist(&ArtistArgs::new(ENTITY.to_owned()), now()).unwrap();
    for (url, availability) in items {
        store.create_melonbooks_product(&item_args(url, *availability), now()).unwrap();
    }
    store
}

fn availability_of(store: &MemoryStore, url: &str) -> Availability {
    store.get_melonbooks_products().unwrap().iter().find(|p| p.url() == url).unwrap().availability()
}

fn snapshot(store: &MemoryStore) -> Vec<(String, Availability)> {
    store.get_melonbooks_products().unwrap().iter().map(|p| (p.url().to_owned(), p.availability())).collect()
}

#[test]
fn restock_new_and_gone_scenario() {
    let mut store = store_with(&[("A", Availability::Available), ("B", Availability::NotAvailable)]);
    let out = run_once(&mut store, &["B", "C"], plain_details);
    assert_eq!(
        out.steps,
        vec![
            "update B Available",
            "notify restocked",
            "fetch C",
            "create C",
            "notify new",
            "update A NotAvailable",
        ]
    );
    assert_eq!(out.restocked, vec![vec!["B".to_owned()]]);
    assert_eq!(out.created, vec![vec!["C".to_owned()]]);
    assert_eq!(availability_of(&store, "B"), Availability::Available);
    assert_eq!(availability_of(&store, "C"), Availability::Available);
    assert_eq!(availability_of(&store, "A"), Availability::NotAvailable);
}

#[test]
fn still_listed_available_item_is_untouched() {
    let mut store = store_with(&[("A", Availability::Available), ("B", Availability::NotAvailable)]);
    let out = run_once(&mut store, &["A", "B", "C"], plain_details);
    assert!(!out.steps.iter().any(|s| s.contains(" A ")));
    assert_eq!(availability_of(&store, "A"), Availability::Available);
}

#[test]
fn second_run_is_quiet() {
    let mut store = store_with(&[("A", Availability::Available), ("B", Availability::NotAvailable)]);
    run_once(&mut store, &["B", "C"], plain_details);
    let first = snapshot(&store);
    let out = run_once(&mut store, &["B", "C"], plain_details);
    assert_eq!(out.restocked, vec![Vec::<String>::new()]);
    assert_eq!(out.created, vec![Vec::<String>::new()]);
    assert!(out.fetched.is_empty());
    assert_eq!(snapshot(&store), first);
}

#[test]
fn skipped_url_is_never_fetched_or_announced() {
    let mut store = store_with(&[("B", Availability::NotAvailable)]);
    store.add_melonbooks_skipping_url("C", &vec!["other".to_owned()]).unwrap();
    store.add_melonbooks_skipping_url("B", &vec!["other".to_owned()]).unwrap();
    let out = run_once(&mut store, &["B", "C", "D"], plain_details);
    assert_eq!(out.fetched, vec!["D".to_owned()]);
    assert_eq!(out.restocked, vec![Vec::<String>::new()]);
    assert_eq!(out.created, vec![vec!["D".to_owned()]]);
    assert_eq!(availability_of(&store, "B"), Availability::NotAvailable);
}

fn foreign_details(url: &str) -> ProductData {
    data(&format!("title of {url}"), &["someone else"], Availability::Available)
}

#[test]
fn attribution_mismatch_records_one_skip_entry() {
    let mut store = store_with(&[]);
    let out = run_once(&mut store, &["C"], foreign_details);
    assert_eq!(out.skipped, vec!["C".to_owned()]);
    assert_eq!(out.created, vec![Vec::<String>::new()]);
    assert!(store.get_melonbooks_products().unwrap().is_empty());
    assert_eq!(store.get_melonbooks_skipping_urls().unwrap(), vec!["C".to_owned()]);
    let again = run_once(&mut store, &["C"], foreign_details);
    assert!(again.fetched.is_empty());
    assert!(again.skipped.is_empty());
    assert_eq!(store.get_melonbooks_skipping_urls().unwrap().len(), 1);
}

fn nsfw_details(url: &str) -> ProductData {
    data(&format!("NSFW book {url}"), &[ENTITY], Availability::Available)
}

#[test]
fn title_skip_sequence_suppresses_new_item() {
    let mut store = store_with(&[]);
    store.add_melonbooks_title_skip_sequence("NSFW").unwrap();
    let out = run_once(&mut store, &["C"], nsfw_details);
    assert_eq!(out.fetched, vec!["C".to_owned()]);
    assert!(out.skipped.is_empty());
    assert_eq!(out.created, vec![Vec::<String>::new()]);
    assert!(store.get_melonbooks_products().unwrap().is_empty());
    assert!(store.get_melonbooks_skipping_urls().unwrap().is_empty());
}

#[test]
fn title_skip_sequence_keeps_restock_out_of_announcement() {
    let mut store = MemoryStore::new();
    store.follow_melonbooks_artist(&ArtistArgs::new(ENTITY.to_owned()), now()).unwrap();
    let mut args = item_args("B", Availability::NotAvailable);
    args.title = "NSFW B".to_owned();
    store.create_melonbooks_product(&args, now()).unwrap();
    store.add_melonbooks_title_skip_sequence("NSFW").unwrap();
    let out = run_once(&mut store, &["B"], plain_details);
    assert_eq!(out.restocked, vec![Vec::<String>::new()]);
    assert_eq!(availability_of(&store, "B"), Availability::Available);
}

#[test]
fn empty_listing_retires_available_items() {
    let mut store = store_with(&[("A", Availability::Preorder), ("B", Availability::Deleted)]);
    let out = run_once(&mut store, &[], plain_details);
    assert_eq!(out.steps, vec!["notify restocked", "notify new", "update A NotAvailable"]);
    assert_eq!(availability_of(&store, "B"), Availability::Deleted);
}

fn known(items: &[(&str, Availability)]) -> Vec<Product> {
    let mut store = store_with(items);
    let _ = &mut store;
    store.get_melonbooks_products().unwrap()
}

fn strings(v: &[&str]) -> Vec<String> {
    v.iter().map(|s| s.to_string()).collect()
}

#[test]
fn plan_classifies_each_url_once() {
    let known = known(&[
        ("keep", Availability::Available),
        ("back", Availability::Deleted),
        ("gone", Availability::Preorder),
        ("quiet", Availability::NotAvailable),
    ]);
    let plan = plan_entity(&known, &strings(&["skipped"]), &strings(&["keep", "back", "fresh", "skipped"]));
    assert_eq!(plan.restock_urls, strings(&["back"]));
    assert_eq!(plan.new_urls, strings(&["fresh"]));
    assert_eq!(plan.gone_urls, strings(&["gone"]));
}

#[test]
fn plan_on_empty_inputs_is_empty() {
    let plan = plan_entity(&Vec::new(), &Vec::new(), &Vec::new());
    assert!(plan.restock_urls.is_empty());
    assert!(plan.new_urls.is_empty());
    assert!(plan.gone_urls.is_empty());
}

#[test]
fn skipped_available_item_counts_as_gone() {
    let known = known(&[("A", Availability::Available)]);
    let plan = plan_entity(&known, &strings(&["A"]), &strings(&["A"]));
    assert_eq!(plan.gone_urls, strings(&["A"]));
    assert!(plan.new_urls.is_empty());
}

#[test]
fn verdicts() {
    let sequences = strings(&["NSFW"]);
    let entity = ENTITY.to_owned();
    assert_eq!(judge_new_item(&entity, &data("t", &["x"], Availability::Available), &sequences), NewItemVerdict::RecordSkip);
    assert_eq!(judge_new_item(&entity, &data("NSFW t", &["x"], Availability::Available), &sequences), NewItemVerdict::RecordSkip);
    assert_eq!(judge_new_item(&entity, &data("a NSFW t", &["x", ENTITY], Availability::Available), &sequences), NewItemVerdict::Suppress);
    assert_eq!(judge_new_item(&entity, &data("a SFW t", &[ENTITY], Availability::Available), &sequences), NewItemVerdict::Create);
    assert_eq!(judge_new_item(&entity, &data("t", &[], Availability::Available), &sequences), NewItemVerdict::RecordSkip);
}

#[test]
fn title_matching() {
    assert!(title_is_skipped("Book NSFW edition", &strings(&["NSFW"])));
    assert!(title_is_skipped("まふゆ画集", &strings(&["x", "画集"])));
    assert!(!title_is_skipped("Book NSF edition", &strings(&["NSFW"])));
    assert!(!title_is_skipped("anything", &Vec::new()));
    assert!(title_is_skipped("anything", &strings(&[""])));
}

fn shared_details(url: &str) -> ProductData {
    data(&format!("title of {url}"), &["kantoku", ENTITY], Availability::Available)
}

#[test]
fn duplicate_on_create_is_not_fatal() {
    let mut store = MemoryStore::new();
    store.follow_melonbooks_artist(&ArtistArgs::new(ENTITY.to_owned()), now()).unwrap();
    let mut args = item_args("C", Availability::Available);
    args.artists = vec!["kantoku".to_owned()];
    store.create_melonbooks_product(&args, now()).unwrap();
    let out = run_once(&mut store, &["C", "D"], shared_details);
    assert_eq!(out.steps, vec!["notify restocked", "fetch C", "create C", "duplicate C", "fetch D", "create D", "notify new"]);
    assert_eq!(out.created, vec![vec!["D".to_owned()]]);
    assert_eq!(store.get_melonbooks_products().unwrap().len(), 2);
}
