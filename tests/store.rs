use moe_scraper::artist::{ArtistArgs, Timestamp};
use moe_scraper::availability::Availability;
use moe_scraper::product::{CreateProductArgs, CreateProductError, UpdateProductArgs};
use moe_scraper::store::MemoryStore;

fn now() -> Timestamp {
    Timestamp { micros: 1_700_000_000_000_000 }
}

fn artist_args() -> ArtistArgs {
    ArtistArgs::new("mafuyu".to_owned())
}

fn artist_args2() -> ArtistArgs {
    ArtistArgs::new("kantoku".to_owned())
}

fn product_args() -> CreateProductArgs {
    CreateProductArgs::new(
        "https://mafuyu.moe".to_owned(),
        "mafuyu_title".to_owned(),
        Some("mafuyu_circle".to_owned()),
        vec![artist_args().name().to_owned()],
        "https://mafuyu.png".to_owned(),
        "category".to_owned(),
        vec![],
        vec![],
        Some("12.500".to_owned()),
        Availability::Available,
    )
}

fn product_args2() -> CreateProductArgs {
    CreateProductArgs::new(
        "https://kantoku.moe".to_owned(),
        "kantoku_title".to_owned(),
        None,
        vec![artist_args().name().to_owned(), artist_args2().name().to_owned()],
        "https://kantoku.png".to_owned(),
        "category2".to_owned(),
        vec![],
        vec![],
        None,
        Availability::NotAvailable,
    )
}

#[test]
fn test_follow_melonbooks_artist() {
    let mut db = MemoryStore::new();
    db.follow_melonbooks_artist(&artist_args(), now()).unwrap();

    let artists = db.get_melonbooks_artists().unwrap();
    assert_eq!(artists.len(), 1);
    let artist = artists.get(0).unwrap();
    assert_eq!(artist.name(), artist_args().name());
    assert_eq!(artist.following(), true);
    assert_ne!(artist.date_followed(), None);
}

#[test]
fn test_unfollow_melonbooks_artist() {
    let mut db = MemoryStore::new();
    db.follow_melonbooks_artist(&artist_args(), now()).unwrap();
    let artist = db
        .get_melonbooks_artists()
        .unwrap()
        .into_iter()
        .find(|a| a.name().eq(artist_args().name()))
        .unwrap();
    db.unfollow_melonbooks_artist(artist.id()).unwrap();

    let artists = db.get_melonbooks_artists().unwrap();
    assert_eq!(artists.len(), 1);
    let artist = artists.get(0).unwrap();
    assert_eq!(artist.name(), artist_args().name());
    assert_eq!(artist.following(), false);
    assert_eq!(artist.date_followed(), None);
}

#[test]
fn test_get_melonbooks_artists() {
    let mut db = MemoryStore::new();
    db.follow_melonbooks_artist(&artist_args(), now()).unwrap();
    db.follow_melonbooks_artist(&artist_args2(), now()).unwrap();
    let artist2 = db
        .get_melonbooks_artists()
        .unwrap()
        .into_iter()
        .find(|a| a.name().eq(artist_args2().name()))
        .unwrap();
    db.unfollow_melonbooks_artist(artist2.id()).unwrap();

    let artists = db.get_melonbooks_artists().unwrap();
    assert_eq!(artists.len(), 2);
    assert!(artists.iter().find(|a| a.name().eq(artist_args().name())).is_some());
    assert!(artists.iter().find(|a| a.name().eq(artist_args2().name())).is_some());
}

#[test]
fn test_create_melonbooks_product() {
    let mut db = MemoryStore::new();
    let args = product_args();
    let product = db.create_melonbooks_product(&args, now()).unwrap();

    assert_eq!(product.url(), args.url());
    assert_eq!(product.title(), args.title());
    assert_eq!(product.circle(), args.circle());
    assert_eq!(product.artists().len(), args.artists().len());
    assert_eq!(product.image_url(), args.image_url());
    assert_eq!(product.category(), args.category());
    assert_eq!(product.tags().len(), args.tags().len());
    assert_eq!(product.flags().len(), args.flags().len());
    assert_eq!(product.availability(), args.availability());
}

#[test]
fn test_create_melonbooks_product_with_existing_artist() {
    let mut db = MemoryStore::new();
    db.follow_melonbooks_artist(&artist_args(), now()).unwrap();
    let args = product_args();
    let artists = db.get_melonbooks_artists().unwrap();
    let product = db.create_melonbooks_product(&args, now()).unwrap();

    assert_eq!(artists.len(), 1);
    assert_eq!(product.artists().len(), args.artists().len());
    assert_eq!(product.artists().get(0).unwrap().id(), artists.get(0).unwrap().id());
}

#[test]
fn test_create_melonbooks_product_fails_on_duplicate() {
    let mut db = MemoryStore::new();
    let args = product_args();
    let _product = db.create_melonbooks_product(&args, now()).unwrap();
    let error = db.create_melonbooks_product(&args, now()).unwrap_err();
    assert!(matches!(error, CreateProductError::DuplicateProduct { .. }));
}

#[test]
fn test_update_melonbooks_product() {
    let mut db = MemoryStore::new();
    let args = product_args();
    let product = db.create_melonbooks_product(&args, now()).unwrap();
    assert_eq!(product.availability(), Availability::Available);

    let update_args = UpdateProductArgs::new(product.url().to_owned(), Availability::NotAvailable);
    db.update_melonbooks_product(&update_args).unwrap();

    let products = db.get_melonbooks_products().unwrap();
    assert_eq!(products.len(), 1);
    assert_eq!(products.get(0).unwrap().id(), product.id());
    assert_eq!(products.get(0).unwrap().availability(), Availability::NotAvailable);
}

#[test]
fn test_get_melonbooks_products() {
    let mut db = MemoryStore::new();
    let args1 = product_args();
    let args2 = product_args2();
    let product1 = db.create_melonbooks_product(&args1, now()).unwrap();
    let product2 = db.create_melonbooks_product(&args2, now()).unwrap();

    let products = db.get_melonbooks_products().unwrap();
    assert_eq!(products.len(), 2);
    assert!(products.iter().find(|p| p.id().eq(&product1.id())).is_some());
    assert!(products.iter().find(|p| p.id().eq(&product2.id())).is_some());
}

#[test]
fn test_get_melonbooks_products_by_artist() {
    let mut db = MemoryStore::new();
    let args1 = product_args();
    let args2 = product_args2();
    let product1 = db.create_melonbooks_product(&args1, now()).unwrap();
    let product2 = db.create_melonbooks_product(&args2, now()).unwrap();
    let artists = db.get_melonbooks_artists().unwrap();
    let artist1 = artists.iter().find(|a| a.name().eq(artist_args().name())).unwrap();
    let artist2 = artists.iter().find(|a| a.name().eq(artist_args2().name())).unwrap();

    let products = db.get_melonbooks_products_by_artist(artist1.id()).unwrap();
    assert_eq!(products.len(), 2);
    assert!(products.iter().filter(|p| p.id().eq(&product1.id())).next().is_some());
    assert!(products.iter().filter(|p| p.id().eq(&product2.id())).next().is_some());

    let products = db.get_melonbooks_products_by_artist(artist2.id()).unwrap();
    assert_eq!(products.len(), 1);
    assert!(products.iter().filter(|p| p.id().eq(&product1.id())).next().is_none());
    assert!(products.iter().filter(|p| p.id().eq(&product2.id())).next().is_some());
}

#[test]
fn test_skip_products() {
    let mut db = MemoryStore::new();

    db.add_melonbooks_skipping_url(product_args().url(), &product_args().artists().to_vec())
        .unwrap();

    let urls = db.get_melonbooks_skipping_urls().unwrap();
    assert_eq!(urls.len(), 1);
    assert_eq!(urls.get(0).unwrap(), product_args().url());
}

#[test]
fn test_follow_deletes_skip_products() {
    let mut db = MemoryStore::new();

    db.add_melonbooks_skipping_url(product_args().url(), &product_args().artists().to_vec())
        .unwrap();

    let urls = db.get_melonbooks_skipping_urls().unwrap();
    assert_eq!(urls.len(), 1);
    assert_eq!(urls.get(0).unwrap(), product_args().url());

    db.follow_melonbooks_artist(&artist_args(), now()).unwrap();

    let urls = db.get_melonbooks_skipping_urls().unwrap();
    assert_eq!(urls.len(), 0);
}

#[test]
fn test_add_title_skip_sequences() {
    let mut db = MemoryStore::new();

    db.add_melonbooks_title_skip_sequence("abc").unwrap();

    let sequences = db.get_melonbooks_title_skip_sequences().unwrap();

    assert_eq!(sequences.len(), 1);
    assert_eq!(sequences.get(0).unwrap(), "abc");
}

#[test]
fn test_delete_title_skip_sequences() {
    let mut db = MemoryStore::new();
    db.add_melonbooks_title_skip_sequence("abc").unwrap();
    let sequences = db.get_melonbooks_title_skip_sequences().unwrap();
    assert_eq!(sequences.len(), 1);

    db.delete_melonbooks_title_skip_sequence("abc").unwrap();
    let sequences = db.get_melonbooks_title_skip_sequences().unwrap();
    assert_eq!(sequences.len(), 0);
}

#[test]
fn follow_keeps_skip_entries_of_other_artists() {
    let mut db = MemoryStore::new();
    db.add_melonbooks_skipping_url("https://a.moe", &vec!["mafuyu".to_owned(), "x".to_owned()])
        .unwrap();
    db.add_melonbooks_skipping_url("https://b.moe", &vec!["kantoku".to_owned()]).unwrap();
    db.follow_melonbooks_artist(&artist_args(), now()).unwrap();
    let urls = db.get_melonbooks_skipping_urls().unwrap();
    assert_eq!(urls, vec!["https://b.moe".to_owned()]);
}

#[test]
fn follow_twice_is_refused_with_first_follow_time() {
    let mut db = MemoryStore::new();
    let first = Timestamp { micros: 5 };
    db.follow_melonbooks_artist(&artist_args(), first).unwrap();
    let error = db.follow_melonbooks_artist(&artist_args(), Timestamp { micros: 9 }).unwrap_err();
    assert!(matches!(error, moe_scraper::artist::FollowArtistError::AlreadyFollowedError(t) if t == first));
}

#[test]
fn unfollow_errors() {
    let mut db = MemoryStore::new();
    let error = db.unfollow_melonbooks_artist(42).unwrap_err();
    assert!(matches!(error, moe_scraper::artist::UnfollowArtistError::UnknownArtist { id: 42 }));
    db.create_melonbooks_product(&product_args(), now()).unwrap();
    let id = db.get_melonbooks_artists().unwrap()[0].id();
    let error = db.unfollow_melonbooks_artist(id).unwrap_err();
    assert!(matches!(error, moe_scraper::artist::UnfollowArtistError::ArtistNotFollowed { .. }));
}

#[test]
fn duplicate_create_leaves_first_item() {
    let mut db = MemoryStore::new();
    let first = db.create_melonbooks_product(&product_args(), now()).unwrap();
    let mut other = product_args();
    other.title = "other title".to_owned();
    other.availability = Availability::Deleted;
    let error = db.create_melonbooks_product(&other, now()).unwrap_err();
    match error {
        CreateProductError::DuplicateProduct { url, title } => {
            assert_eq!(url, "https://mafuyu.moe");
            assert_eq!(title, "mafuyu_title");
        }
        _ => panic!("expected a duplicate"),
    }
    let products = db.get_melonbooks_products().unwrap();
    assert_eq!(products.len(), 1);
    assert_eq!(products[0].id(), first.id());
    assert_eq!(products[0].title(), "mafuyu_title");
    assert_eq!(products[0].availability(), Availability::Available);
}

#[test]
fn update_of_missing_url_fails() {
    let mut db = MemoryStore::new();
    let error = db
        .update_melonbooks_product(&UpdateProductArgs::new("https://none".to_owned(), Availability::Available))
        .unwrap_err();
    assert!(matches!(error, moe_scraper::product::UpdateProductError::ProductMissing { ref url } if url == "https://none"));
}

#[test]
fn delete_of_unknown_sequence_fails() {
    let mut db = MemoryStore::new();
    assert!(db.delete_melonbooks_title_skip_sequence("abc").is_err());
}

#[test]
fn products_come_newest_first() {
    let mut db = MemoryStore::new();
    let mut old_args = product_args();
    old_args.url = "https://old".to_owned();
    db.create_melonbooks_product(&old_args, Timestamp { micros: 10 }).unwrap();
    let mut new_args = product_args2();
    new_args.url = "https://new".to_owned();
    db.create_melonbooks_product(&new_args, Timestamp { micros: 20 }).unwrap();
    let mut mid_args = product_args();
    mid_args.url = "https://mid".to_owned();
    db.create_melonbooks_product(&mid_args, Timestamp { micros: 15 }).unwrap();
    let urls: Vec<String> = db.get_melonbooks_products().unwrap().iter().map(|p| p.url().to_owned()).collect();
    assert_eq!(urls, vec!["https://new", "https://mid", "https://old"]);
    let artist = db.get_melonbooks_artists().unwrap().into_iter().find(|a| a.name() == "mafuyu").unwrap();
    let urls: Vec<String> = db
        .get_melonbooks_products_by_artist(artist.id())
        .unwrap()
        .iter()
        .map(|p| p.url().to_owned())
        .collect();
    assert_eq!(urls, vec!["https://new", "https://mid", "https://old"]);
}

#[test]
fn created_artist_records_are_unfollowed() {
    let mut db = MemoryStore::new();
    db.create_melonbooks_product(&product_args2(), now()).unwrap();
    let artists = db.get_melonbooks_artists().unwrap();
    assert_eq!(artists.len(), 2);
    for a in artists.iter() {
        assert!(!a.following());
        assert_eq!(a.date_followed(), None);
        assert_eq!(a.date_added(), now());
    }
    let id = artists[0].id();
    db.follow_melonbooks_artist(&artist_args(), Timestamp { micros: 99 }).unwrap();
    let artists = db.get_melonbooks_artists().unwrap();
    assert_eq!(artists.len(), 2);
    assert_eq!(artists[0].id(), id);
    assert_eq!(artists[0].date_added(), now());
    assert_eq!(artists[0].date_followed(), Some(Timestamp { micros: 99 }));
}
