use vstd::prelude::*;

verus! {

/// The storefronts that the scraper knows.
#[derive(Debug, Clone, Copy, PartialEq, Eq, Structural, Hash)]
pub enum Site {
    Melonbooks,
    Amiami,
}

impl Site {
    pub open spec fn spec_name(self) -> Seq<char> {
        match self {
            Site::Melonbooks => "Melonbooks"@,
            Site::Amiami => "Amiami"@,
        }
    }

    /// The display name of the site.
    pub fn name(&self) -> (r: &'static str)
        ensures
            r@ == self.spec_name(),
    {
        match self {
            Site::Melonbooks => "Melonbooks",
            Site::Amiami => "Amiami",
        }
    }

    pub open spec fn spec_default_username(self) -> Seq<char> {
        match self {
            Site::Melonbooks => "Melonbooks-Scraper"@,
            Site::Amiami => "Amiami-Scraper"@,
        }
    }

    /// The name that notifications of this site are posted under by default:
    /// the site's name followed by `-Scraper`.
    pub fn default_username(&self) -> (r: String)
        ensures
            r@ == self.spec_default_username(),
    {
        match self {
            Site::Melonbooks => String::from_str("Melonbooks-Scraper"),
            Site::Amiami => String::from_str("Amiami-Scraper"),
        }
    }
}

/// How much the server logs.
#[derive(Debug, Clone, Copy, PartialEq, Eq, Structural)]
pub enum LogLevel {
    Off,
    Error,
    Warn,
    Info,
    Debug,
    Trace,
}

pub fn default_log_level() -> (r: LogLevel)
    ensures
        r == LogLevel::Info,
{
    LogLevel::Info
}

pub const DEFAULT_HTTP_PORT: u16 = 80;

pub const DEFAULT_CHUNK_SIZE: u32 = 10;

#[derive(Debug, Clone)]
pub struct HttpSettings {
    pub port: u16,
    pub assets_dir: Option<String>,
}

impl Default for HttpSettings {
    fn default() -> (r: Self)
        ensures
            r.port == DEFAULT_HTTP_PORT,
            r.assets_dir is None,
    {
        HttpSettings { port: DEFAULT_HTTP_PORT, assets_dir: None }
    }
}

#[derive(Debug)]
pub struct HttpSettingsOptions {
    pub port: Option<u16>,
    pub assetsdir: Option<String>,
}

impl HttpSettingsOptions {
    /// Fills in the default port where none is given.
    pub fn into_actual(self) -> (r: HttpSettings)
        ensures
            r.port == (match self.port {
                Some(p) => p,
                None => DEFAULT_HTTP_PORT,
            }),
            r.assets_dir == self.assetsdir,
    {
        HttpSettings {
            port: match self.port {
                Some(p) => p,
                None => DEFAULT_HTTP_PORT,
            },
            assets_dir: self.assetsdir,
        }
    }
}

#[derive(Debug, Clone)]
pub struct DiscordSettings {
    pub api_key: String,
    pub image_url: Option<String>,
    pub username: String,
    pub chunk_size: u32,
}

#[derive(Debug)]
pub struct DiscordSettingsOptions {
    pub apikey: String,
    pub imageurl: Option<String>,
    pub username: Option<String>,
    pub chunksize: Option<u32>,
}

impl DiscordSettingsOptions {
    /// `d` is what these options give for `site`: the given values, with the
    /// site's default user name and the default chunk size where none is given.
    pub open spec fn gives(self, site: Site, d: DiscordSettings) -> bool {
        &&& d.api_key == self.apikey
        &&& d.image_url == self.imageurl
        &&& d.username@ == (match self.username {
            Some(u) => u@,
            None => site.spec_default_username(),
        })
        &&& d.chunk_size == (match self.chunksize {
            Some(c) => c,
            None => DEFAULT_CHUNK_SIZE,
        })
    }

    pub fn into_actual(self, site: &Site) -> (r: DiscordSettings)
        ensures
            self.gives(*site, r),
    {
        DiscordSettings {
            api_key: self.apikey,
            image_url: self.imageurl,
            username: match self.username {
                Some(u) => u,
                None => site.default_username(),
            },
            chunk_size: match self.chunksize {
                Some(c) => c,
                None => DEFAULT_CHUNK_SIZE,
            },
        }
    }
}

#[derive(Debug, Clone)]
pub struct SiteSettings {
    pub schedule: Option<String>,
    pub discord_settings: Option<DiscordSettings>,
}

#[derive(Debug)]
pub struct SiteSettingsOptions {
    pub schedule: Option<String>,
    pub discord: Option<DiscordSettingsOptions>,
}

impl SiteSettingsOptions {
    /// `r` is what these options give for `site`.
    pub open spec fn gives(self, site: Site, r: SiteSettings) -> bool {
        &&& r.schedule == self.schedule
        &&& match (self.discord, r.discord_settings) {
            (Some(o), Some(d)) => o.gives(site, d),
            (None, None) => true,
            _ => false,
        }
    }

    pub fn into_actual(self, site: &Site) -> (r: SiteSettings)
        ensures
            self.gives(*site, r),
    {
        SiteSettings {
            schedule: self.schedule,
            discord_settings: match self.discord {
                Some(ds) => Some(ds.into_actual(site)),
                None => None,
            },
        }
    }
}

pub open spec fn default_db_path() -> Seq<char> {
    "/data/moe-scraper.sqlite"@
}

#[derive(Debug)]
pub struct ServerConfiguration {
    pub db_path: String,
    pub log_level: LogLevel,
    pub melonbooks: SiteSettings,
    pub amiami: SiteSettings,
    pub openssl_config: Option<String>,
    pub http_settings: HttpSettings,
}

#[derive(Debug)]
pub struct ServerConfigurationOptions {
    pub dbpath: Option<String>,
    pub loglevel: LogLevel,
    pub melonbooks: SiteSettingsOptions,
    pub amiami: SiteSettingsOptions,
    pub opensslconfig: Option<String>,
    pub http: Option<HttpSettingsOptions>,
}

impl ServerConfigurationOptions {
    /// Fills in the defaults: the database path, and the http settings.
    pub fn into_actual(self) -> (r: ServerConfiguration)
        ensures
            r.db_path@ == (match self.dbpath {
                Some(p) => p@,
                None => default_db_path(),
            }),
            r.log_level == self.loglevel,
            self.melonbooks.gives(Site::Melonbooks, r.melonbooks),
            self.amiami.gives(Site::Amiami, r.amiami),
            r.openssl_config == self.opensslconfig,
            r.http_settings.port == (match self.http {
                Some(h) => match h.port {
                    Some(p) => p,
                    None => DEFAULT_HTTP_PORT,
                },
                None => DEFAULT_HTTP_PORT,
            }),
            r.http_settings.assets_dir == (match self.http {
                Some(h) => h.assetsdir,
                None => None,
            }),
    {
        ServerConfiguration {
            db_path: match self.dbpath {
                Some(p) => p,
                None => String::from_str("/data/moe-scraper.sqlite"),
            },
            log_level: self.loglevel,
            melonbooks: self.melonbooks.into_actual(&Site::Melonbooks),
            amiami: self.amiami.into_actual(&Site::Amiami),
            openssl_config: self.opensslconfig,
            http_settings: match self.http {
                Some(h) => h.into_actual(),
                None => HttpSettings::default(),
            },
        }
    }
}

} // verus!
