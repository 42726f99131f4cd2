use moe_scraper::artist::{
    follow_decision, followed_artists, unfollow_decision, Artist, FollowAction, FollowArtistError, Timestamp,
    UnfollowArtistError,
};
use moe_scraper::availability::Availability;
use moe_scraper::config::{
    default_log_level, DiscordSettingsOptions, HttpSettingsOptions, LogLevel, ServerConfigurationOptions, Site,
    SiteSettingsOptions,
};
use moe_scraper::web::{select_artist, ResponseClass};

fn site_options(discord: Option<DiscordSettingsOptions>) -> SiteSettingsOptions {
    SiteSettingsOptions { schedule: Some("0 0 * * * *".to_owned()), discord }
}

#[test]
fn configuration_defaults() {
    let options = ServerConfigurationOptions {
        dbpath: None,
        loglevel: default_log_level(),
        melonbooks: site_options(Some(DiscordSettingsOptions {
            apikey: "key".to_owned(),
            imageurl: None,
            username: None,
            chunksize: None,
        })),
        amiami: site_options(None),
        opensslconfig: None,
        http: None,
    };
    let config = options.into_actual();
    assert_eq!(config.db_path, "/data/moe-scraper.sqlite");
    assert_eq!(config.log_level, LogLevel::Info);
    assert_eq!(config.http_settings.port, 80);
    assert!(config.http_settings.assets_dir.is_none());
    let discord = config.melonbooks.discord_settings.unwrap();
    assert_eq!(discord.username, "Melonbooks-Scraper");
    assert_eq!(discord.chunk_size, 10);
    assert_eq!(discord.api_key, "key");
    assert!(config.amiami.discord_settings.is_none());
}

#[test]
fn configuration_values_are_kept() {
    let http = HttpSettingsOptions { port: Some(8080), assetsdir: Some("/assets".to_owned()) }.into_actual();
    assert_eq!(http.port, 8080);
    assert_eq!(http.assets_dir.as_deref(), Some("/assets"));
    let discord = DiscordSettingsOptions {
        apikey: "k".to_owned(),
        imageurl: Some("i".to_owned()),
        username: Some("bot".to_owned()),
        chunksize: Some(3),
    }
    .into_actual(&Site::Amiami);
    assert_eq!(discord.username, "bot");
    assert_eq!(discord.chunk_size, 3);
    assert_eq!(Site::Amiami.default_username(), "Amiami-Scraper");
}

#[test]
fn availability_names_and_labels() {
    assert_eq!(Availability::from_name("Preorder"), Some(Availability::Preorder));
    assert_eq!(Availability::from_name("preorder"), None);
    assert_eq!(Availability::NotAvailable.name(), "NotAvailable");
    assert_eq!(Availability::from_stock_label("在庫あり"), Some(Availability::Available));
    assert_eq!(Availability::from_stock_label("残りわずか"), Some(Availability::Available));
    assert_eq!(Availability::from_stock_label("発売中"), Some(Availability::Available));
    assert_eq!(Availability::from_stock_label("好評受付中"), Some(Availability::Preorder));
    assert_eq!(Availability::from_stock_label("-"), Some(Availability::NotAvailable));
    assert_eq!(Availability::from_stock_label("?"), None);
    assert_eq!(Availability::from_stock_flags(1, 1), Availability::Available);
    assert_eq!(Availability::from_stock_flags(0, 1), Availability::Preorder);
    assert_eq!(Availability::from_stock_flags(0, 0), Availability::NotAvailable);
    assert!(Availability::Preorder.is_available());
    assert!(!Availability::Deleted.is_available());
}

fn artist(id: i32, following: bool) -> Artist {
    Artist::new(id, Timestamp { micros: 0 }, format!("a{id}"), following, if following { Some(Timestamp { micros: 1 }) } else { None })
}

#[test]
fn followed_artists_keep_order() {
    let kept = followed_artists(vec![artist(1, true), artist(2, false), artist(3, true)]);
    assert_eq!(kept.iter().map(|a| a.id()).collect::<Vec<_>>(), vec![1, 3]);
    assert!(followed_artists(Vec::new()).is_empty());
}

#[test]
fn artist_selection() {
    let artists = vec![artist(4, true), artist(7, true)];
    assert_eq!(select_artist(&artists, Some(7)), Some(1));
    assert_eq!(select_artist(&artists, Some(5)), None);
    assert_eq!(select_artist(&artists, None), None);
}

#[test]
fn error_response_classes() {
    assert_eq!(FollowArtistError::AlreadyFollowedError(Timestamp { micros: 0 }).response_class(), ResponseClass::BadRequest);
    assert_eq!(FollowArtistError::Unknown("x".to_owned()).response_class(), ResponseClass::ServerError);
    assert_eq!(UnfollowArtistError::UnknownArtist { id: 1 }.response_class(), ResponseClass::NotFound);
    assert_eq!(UnfollowArtistError::ArtistNotFollowed { name: "a".to_owned() }.response_class(), ResponseClass::BadRequest);
}

#[test]
fn follow_and_unfollow_decisions() {
    assert!(matches!(follow_decision(None), Ok(FollowAction::Insert)));
    assert!(matches!(follow_decision(Some(&artist(2, false))), Ok(FollowAction::Refollow)));
    assert!(matches!(
        follow_decision(Some(&artist(2, true))),
        Err(FollowArtistError::AlreadyFollowedError(t)) if t == Timestamp { micros: 1 }
    ));
    assert!(matches!(unfollow_decision(None, 9), Err(UnfollowArtistError::UnknownArtist { id: 9 })));
    assert!(unfollow_decision(Some(&artist(3, true)), 3).is_ok());
    assert!(matches!(
        unfollow_decision(Some(&artist(3, false)), 3),
        Err(UnfollowArtistError::ArtistNotFollowed { ref name }) if name == "a3"
    ));
}
