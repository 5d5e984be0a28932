//! The state of one service check in memory: its status and when it was last run.

use vstd::prelude::*;
use crate::clock::now_millis;
use crate::ids::new_uuid;
use crate::status::ServiceStatus;

verus! {

/// A service check of a service on a host. Times are in milliseconds since the Unix epoch.
#[derive(Debug)]
pub struct ServiceCheck {
    /// The check's ID
    pub id: u128,
    /// The host's ID
    pub host_id: u128,
    /// The service's ID
    pub service_id: u128,
    /// The current status
    pub status: ServiceStatus,
    /// When the check last ran
    pub last_check: i64,
    /// When the check last changed
    pub last_updated: i64,
}

impl ServiceCheck {
    /// A new check, with a random ID, pending, never run, and changed at `now`.
    pub fn new_at(host_id: u128, service_id: u128, now: i64) -> (r: Self)
        ensures
            r.host_id == host_id,
            r.service_id == service_id,
            r.status == ServiceStatus::Pending,
            r.last_check == 0,
            r.last_updated == now,
    {
        ServiceCheck {
            id: new_uuid(),
            host_id,
            service_id,
            status: ServiceStatus::Pending,
            last_check: 0,
            last_updated: now,
        }
    }

    /// A new check, changed now; see [`ServiceCheck::new_at`].
    pub fn new(host_id: u128, service_id: u128) -> (r: Self)
        ensures
            r.host_id == host_id,
            r.service_id == service_id,
            r.status == ServiceStatus::Pending,
            r.last_check == 0,
    {
        ServiceCheck::new_at(host_id, service_id, now_millis())
    }

    /// Marks the check to run as soon as possible.
    pub fn urgent(&mut self)
        ensures
            final(self).status == ServiceStatus::Urgent,
            final(self).id == old(self).id,
            final(self).host_id == old(self).host_id,
            final(self).service_id == old(self).service_id,
            final(self).last_check == old(self).last_check,
            final(self).last_updated == old(self).last_updated,
    {
        self.status = ServiceStatus::Urgent;
    }

    /// Takes the check out to run at `now`: it is checking, changed at `now`.
    pub fn checkout_at(&mut self, now: i64)
        ensures
            final(self).status == ServiceStatus::Checking,
            final(self).last_updated == now,
            final(self).id == old(self).id,
            final(self).host_id == old(self).host_id,
            final(self).service_id == old(self).service_id,
            final(self).last_check == old(self).last_check,
    {
        self.last_updated = now;
        self.status = ServiceStatus::Checking;
    }

    /// Takes the check out to run now; see [`ServiceCheck::checkout_at`].
    pub fn checkout(&mut self)
        ensures
            final(self).status == ServiceStatus::Checking,
            final(self).id == old(self).id,
            final(self).host_id == old(self).host_id,
            final(self).service_id == old(self).service_id,
            final(self).last_check == old(self).last_check,
    {
        self.checkout_at(now_millis());
    }

    /// Brings the check back at `now` with the status it ran to: it ran and changed at
    /// `now`.
    pub fn checkin_at(&mut self, status: ServiceStatus, now: i64)
        ensures
            final(self).status == status,
            final(self).last_check == now,
            final(self).last_updated == now,
            final(self).id == old(self).id,
            final(self).host_id == old(self).host_id,
            final(self).service_id == old(self).service_id,
    {
        self.last_check = now;
        self.last_updated = self.last_check;
        self.status = status;
    }

    /// Brings the check back now; see [`ServiceCheck::checkin_at`].
    pub fn checkin(&mut self, status: ServiceStatus)
        ensures
            final(self).status == status,
            final(self).last_check == final(self).last_updated,
            final(self).id == old(self).id,
            final(self).host_id == old(self).host_id,
            final(self).service_id == old(self).service_id,
    {
        self.checkin_at(status, now_millis());
    }

    /// The check's ID.
    pub fn check_id(&self) -> (r: u128)
        ensures
            r == self.id,
    {
        self.id
    }
}

} // verus!
