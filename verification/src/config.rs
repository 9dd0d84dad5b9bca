use vstd::prelude::*;

verus! {

/// The whole configuration surface. Loading it from a file or the
/// environment is the caller's business; the core only reads these values.
pub struct Config {
    pub core: Core,
    pub db: Database,
    pub telegram: Telegram,
    pub yandere: Yandere,
}

/// Process-level settings.
pub struct Core {
    pub log_level: String,
    pub scheduler: String,
}

/// Where the dedup cache lives and how long a record stays valid.
pub struct Database {
    pub database_url: String,
    /// Time to live of one dedup record, in seconds.
    pub expire: usize,
}

/// The messaging channel's credentials.
pub struct Telegram {
    pub token: String,
    pub channel_id: String,
}

/// The feed to poll and the publish policy.
pub struct Yandere {
    pub rss_url: String,
    /// Posts scoring below this are skipped outright.
    pub score_threshold: i32,
    /// Whether a post already delivered is sent again once its
    /// `updated_at` moves past the recorded one.
    pub updated_resend: bool,
}

pub fn log_level_default() -> (r: String)
    ensures
        r@ == "info"@,
{
    String::from_str("info")
}

pub fn scheduler_default() -> (r: String)
    ensures
        r@ == "0 0 0,9,12,15,18,21 * * *"@,
{
    String::from_str("0 0 0,9,12,15,18,21 * * *")
}

pub fn expire_default() -> (r: usize)
    ensures
        r == 7776000usize,
{
    7776000
}

pub fn rss_url_default() -> (r: String)
    ensures
        r@ == "https://yande.re/post/popular_recent"@,
{
    String::from_str("https://yande.re/post/popular_recent")
}

pub fn score_threshold_default() -> (r: i32)
    ensures
        r == 0i32,
{
    0
}

pub fn updated_resend_default() -> (r: bool)
    ensures
        r == false,
{
    false
}

impl Default for Core {
    fn default() -> (c: Core)
        ensures
            c.log_level@ == "info"@,
            c.scheduler@ == "0 0 0,9,12,15,18,21 * * *"@,
    {
        Core { log_level: log_level_default(), scheduler: scheduler_default() }
    }
}

impl Default for Yandere {
    fn default() -> (c: Yandere)
        ensures
            c.rss_url@ == "https://yande.re/post/popular_recent"@,
            c.score_threshold == 0i32,
            c.updated_resend == false,
    {
        Yandere {
            rss_url: rss_url_default(),
            score_threshold: score_threshold_default(),
            updated_resend: updated_resend_default(),
        }
    }
}

} // verus!
