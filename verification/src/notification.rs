use vstd::prelude::*;

verus! {

/// A one-shot desktop-notification request. `armed` marks it eligible to
/// fire; `delivered` becomes true at most once per arming. Re-arming (via
/// reset) clears `delivered` and re-enables firing.
#[derive(Debug)]
pub struct NotificationRequest {
    pub armed: bool,
    pub delivered: bool,
    pub title: String,
    pub body: String,
}

impl NotificationRequest {
    /// A notification is configured exactly when it has any text to show.
    pub open spec fn configured(&self) -> bool {
        self.title@.len() > 0 || self.body@.len() > 0
    }

    /// An armed request is backed by configured text and has not fired yet.
    pub open spec fn wf(&self) -> bool {
        self.armed ==> self.configured() && !self.delivered
    }

    /// Re-arming: a configured request becomes eligible to fire exactly once
    /// more; an unconfigured one is left alone.
    pub open spec fn spec_rearmed(self) -> NotificationRequest {
        if self.configured() {
            NotificationRequest { armed: true, delivered: false, ..self }
        } else {
            self
        }
    }

    /// A request as it stands at startup: armed exactly when configured,
    /// nothing delivered yet.
    pub fn new(title: String, body: String) -> (n: NotificationRequest)
        ensures
            n.title == title,
            n.body == body,
            n.armed == n.configured(),
            !n.delivered,
            n.wf(),
    {
        let armed = !title.as_str().is_empty() || !body.as_str().is_empty();
        NotificationRequest { armed, delivered: false, title, body }
    }

    pub fn is_configured(&self) -> (b: bool)
        ensures
            b == self.configured(),
    {
        !self.title.as_str().is_empty() || !self.body.as_str().is_empty()
    }

    pub fn rearm(&mut self)
        ensures
            *final(self) == old(self).spec_rearmed(),
    {
        if self.is_configured() {
            self.armed = true;
            self.delivered = false;
        }
    }
}

} // verus!
