use crate::bytes::{opt_bytes_view, seq_views};
use crate::text;
use vstd::prelude::*;

verus! {

/// The process configuration the pipeline reads. Loading it from disk is
/// the caller's business; the library only consumes the plain values.
#[derive(Debug)]
pub struct Config {
    pub linear_retry_secs: u64,
    pub wait_secs_between_notifications: u64,
    pub app_name: Vec<u8>,
    pub bind_host: Vec<u8>,
    pub alert_every_minutes: Option<i64>,
    pub realert_cron: Option<Vec<u8>>,
    pub prowl_api_keys: Vec<Vec<u8>>,
    pub fingerprints_file: Vec<u8>,
    pub test_mode: bool,
}

/// The mathematical content of a configuration.
pub ghost struct ConfigV {
    pub linear_retry_secs: int,
    pub wait_secs_between_notifications: int,
    pub app_name: Seq<u8>,
    pub bind_host: Seq<u8>,
    pub alert_every_minutes: Option<int>,
    pub realert_cron: Option<Seq<u8>>,
    pub prowl_api_keys: Seq<Seq<u8>>,
    pub fingerprints_file: Seq<u8>,
    pub test_mode: bool,
}

impl View for Config {
    type V = ConfigV;

    open spec fn view(&self) -> ConfigV {
        ConfigV {
            linear_retry_secs: self.linear_retry_secs as int,
            wait_secs_between_notifications: self.wait_secs_between_notifications as int,
            app_name: self.app_name@,
            bind_host: self.bind_host@,
            alert_every_minutes: match self.alert_every_minutes {
                Some(v) => Some(v as int),
                None => None,
            },
            realert_cron: opt_bytes_view(self.realert_cron),
            prowl_api_keys: seq_views(self.prowl_api_keys@),
            fingerprints_file: self.fingerprints_file@,
            test_mode: self.test_mode,
        }
    }
}

/// The retry delay used when none is configured.
pub fn default_retry_secs() -> (r: u64)
    ensures
        r == 60,
{
    60
}

/// The pacing delay used when none is configured.
pub fn default_wait_time() -> (r: u64)
    ensures
        r == 0,
{
    0
}

/// The application label used when none is configured.
pub fn default_app_name() -> (r: Vec<u8>)
    ensures
        r@ == text::spec_default_app_name_text(),
{
    text::default_app_name_text()
}

/// The listen address used when none is configured.
pub fn default_bind_host() -> (r: Vec<u8>)
    ensures
        r@ == text::spec_default_bind_host_text(),
{
    text::default_bind_host_text()
}

impl Config {
    /// The linear retry delay, in seconds.
    pub fn linear_retry_secs(&self) -> (r: u64)
        ensures
            r == self.linear_retry_secs,
    {
        self.linear_retry_secs
    }

    /// The pacing delay between successful sends, in seconds.
    pub fn wait_secs_between_notifications(&self) -> (r: u64)
        ensures
            r == self.wait_secs_between_notifications,
    {
        self.wait_secs_between_notifications
    }

    /// The application label carried by every notification.
    pub fn app_name(&self) -> (r: &Vec<u8>)
        ensures
            r@ == self.app_name@,
    {
        &self.app_name
    }

    /// The address the listener binds.
    pub fn bind_host(&self) -> (r: &Vec<u8>)
        ensures
            r@ == self.bind_host@,
    {
        &self.bind_host
    }

    /// The fixed re-alert period, in minutes, if configured.
    pub fn alert_every_minutes(&self) -> (r: &Option<i64>)
        ensures
            r == &self.alert_every_minutes,
    {
        &self.alert_every_minutes
    }

    /// The re-alert cron expression, if configured.
    pub fn realert_cron(&self) -> (r: &Option<Vec<u8>>)
        ensures
            opt_bytes_view(*r) == opt_bytes_view(self.realert_cron),
    {
        &self.realert_cron
    }

    /// The recipients' credentials.
    pub fn prowl_api_keys(&self) -> (r: &Vec<Vec<u8>>)
        ensures
            seq_views(r@) == seq_views(self.prowl_api_keys@),
    {
        &self.prowl_api_keys
    }

    /// Where the store is persisted.
    pub fn fingerprints_file(&self) -> (r: &Vec<u8>)
        ensures
            r@ == self.fingerprints_file@,
    {
        &self.fingerprints_file
    }

    /// Whether deliveries are skipped for testing.
    pub fn test_mode(&self) -> (r: bool)
        ensures
            r == self.test_mode,
    {
        self.test_mode
    }
}

} // verus!
