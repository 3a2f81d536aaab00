use crate::bytes::{bytes_eq, spec_starts_with, starts_with};
use crate::text;
use vstd::prelude::*;

verus! {

/// How urgently a notification should be treated by its receivers.
#[derive(Debug, Clone, Copy, PartialEq, Eq, Structural)]
pub enum Priority {
    VeryLow,
    Moderate,
    Normal,
    High,
    Emergency,
}

/// The labels of one alert; only the display name is read.
#[derive(Debug)]
pub struct Label {
    pub alertname: Vec<u8>,
}

impl Label {
    /// The alert's display name.
    pub fn alertname(&self) -> (r: &Vec<u8>)
        ensures
            r@ == self.alertname@,
    {
        &self.alertname
    }
}

/// The annotations of one alert; only the summary is read.
#[derive(Debug)]
pub struct Annotation {
    pub summary: Vec<u8>,
}

impl Annotation {
    /// The alert's free-text summary.
    pub fn summary(&self) -> (r: &Vec<u8>)
        ensures
            r@ == self.summary@,
    {
        &self.summary
    }
}

/// One alert event of a webhook payload.
#[derive(Debug)]
pub struct Alert {
    pub status: Vec<u8>,
    pub labels: Label,
    pub annotations: Annotation,
    pub generator_url: Vec<u8>,
    pub fingerprint: Vec<u8>,
}

/// The mathematical content of an alert event.
pub ghost struct AlertV {
    pub status: Seq<u8>,
    pub alertname: Seq<u8>,
    pub summary: Seq<u8>,
    pub generator_url: Seq<u8>,
    pub fingerprint: Seq<u8>,
}

impl View for Alert {
    type V = AlertV;

    open spec fn view(&self) -> AlertV {
        AlertV {
            status: self.status@,
            alertname: self.labels.alertname@,
            summary: self.annotations.summary@,
            generator_url: self.generator_url@,
            fingerprint: self.fingerprint@,
        }
    }
}

/// A webhook payload: a batch of alert events.
#[derive(Debug)]
pub struct Message {
    pub alerts: Vec<Alert>,
}

impl View for Message {
    type V = Seq<AlertV>;

    open spec fn view(&self) -> Seq<AlertV> {
        Seq::new(self.alerts@.len(), |i: int| self.alerts@[i]@)
    }
}

impl Message {
    /// The alert events of the payload.
    pub fn alerts(&self) -> (r: &Vec<Alert>)
        ensures
            r@ == self.alerts@,
    {
        &self.alerts
    }
}

/// Severity classification: a firing alert is ranked by the bracketed
/// prefix of its name (`[critical]`/`[CRIT]` above `[high]`/`[HIGH]` above
/// everything else); any other status is `VeryLow` regardless of the name.
pub open spec fn spec_priority(status: Seq<u8>, alertname: Seq<u8>) -> Priority {
    if status == text::spec_status_firing() {
        if spec_starts_with(alertname, text::spec_prefix_critical()) || spec_starts_with(
            alertname,
            text::spec_prefix_crit(),
        ) {
            Priority::Emergency
        } else if spec_starts_with(alertname, text::spec_prefix_high()) || spec_starts_with(
            alertname,
            text::spec_prefix_high_upper(),
        ) {
            Priority::High
        } else {
            Priority::Normal
        }
    } else {
        Priority::VeryLow
    }
}

impl Alert {
    /// The alert's status.
    pub fn status(&self) -> (r: &Vec<u8>)
        ensures
            r@ == self.status@,
    {
        &self.status
    }

    /// The alert's labels.
    pub fn labels(&self) -> (r: &Label)
        ensures
            r.alertname@ == self.labels.alertname@,
    {
        &self.labels
    }

    /// The alert's annotations.
    pub fn annotations(&self) -> (r: &Annotation)
        ensures
            r.summary@ == self.annotations.summary@,
    {
        &self.annotations
    }

    /// The URL of whatever generated the alert.
    pub fn generator_url(&self) -> (r: &Vec<u8>)
        ensures
            r@ == self.generator_url@,
    {
        &self.generator_url
    }

    /// The stable identifier of the alerting condition.
    pub fn fingerprint(&self) -> (r: &Vec<u8>)
        ensures
            r@ == self.fingerprint@,
    {
        &self.fingerprint
    }

    /// Classifies the alert's severity from its status and name prefix.
    pub fn get_priority(&self) -> (r: Priority)
        ensures
            r == spec_priority(self.status@, self.labels.alertname@),
    {
        let firing = text::status_firing();
        if bytes_eq(self.status.as_slice(), firing.as_slice()) {
            let critical = text::prefix_critical();
            let crit = text::prefix_crit();
            let high = text::prefix_high();
            let high_upper = text::prefix_high_upper();
            if starts_with(self.labels.alertname.as_slice(), critical.as_slice()) || starts_with(
                self.labels.alertname.as_slice(),
                crit.as_slice(),
            ) {
                Priority::Emergency
            } else if starts_with(self.labels.alertname.as_slice(), high.as_slice())
                || starts_with(self.labels.alertname.as_slice(), high_upper.as_slice()) {
                Priority::High
            } else {
                Priority::Normal
            }
        } else {
            Priority::VeryLow
        }
    }
}

} // verus!
