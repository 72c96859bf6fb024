//! The shared telemetry record.
//!
//! A single process-wide record holds the most recent telemetry. Every
//! numeric field keeps the last observed value; a field keeps its startup
//! value until the first matching report arrives. The record is created once
//! at process start and mutated in place: the uptime ticker touches `uptime`
//! only, and each acquisition loop touches device identity and telemetry
//! fields only. Callers guard the record with whole-record mutual exclusion;
//! the functions here say exactly which fields each mutation changes.

use vstd::prelude::*;
use vstd::string::StringExecFns;
use crate::locator::trim_nulls;
use crate::report::Report;

verus! {

/// The process-wide telemetry record.
#[derive(Debug)]
pub struct DaemonState {
    /// Seconds since process start, counted by the uptime ticker.
    pub uptime: u64,
    /// Lifecycle label: "starting" until a device is matched, then "running".
    pub status: String,
    /// USB vendor id of the matched device.
    pub vendor_id: u16,
    /// USB product id of the matched device.
    pub product_id: u16,
    /// Composed manufacturer+product string, trailing nulls stripped.
    pub device_name: String,
    /// Last observed battery capacity percentage.
    pub battery_capacity: u32,
    /// Last observed output wattage.
    pub output_wattage: u32,
    /// Last observed output apparent power in volt-amperes.
    pub output_va: u32,
}

/// The record a decoded report leaves behind: a recognized telemetry tag
/// replaces exactly its own field; every other report changes nothing.
pub open spec fn spec_apply(s: DaemonState, r: Report) -> DaemonState {
    match r {
        Report::BatteryCapacity(b) => DaemonState { battery_capacity: b as u32, ..s },
        Report::OutputWattage(w) => DaemonState { output_wattage: w as u32, ..s },
        Report::OutputVa(v) => DaemonState { output_va: v as u32, ..s },
        Report::Observed => s,
        Report::Unrecognized(_) => s,
    }
}

/// Applying a report is idempotent: decoding the same report twice leaves
/// the same record as decoding it once. There is no accumulation.
pub proof fn lemma_apply_idempotent(s: DaemonState, r: Report)
    ensures
        spec_apply(spec_apply(s, r), r) == spec_apply(s, r),
{
}

impl DaemonState {
    /// The record at process start: zero counters, empty device identity,
    /// status "starting".
    pub fn new() -> (r: DaemonState)
        ensures
            r.uptime == 0,
            r.status@ == "starting"@,
            r.vendor_id == 0,
            r.product_id == 0,
            r.device_name@ == Seq::<char>::empty(),
            r.battery_capacity == 0,
            r.output_wattage == 0,
            r.output_va == 0,
    {
        DaemonState {
            uptime: 0,
            status: String::from_str("starting"),
            vendor_id: 0,
            product_id: 0,
            device_name: String::new(),
            battery_capacity: 0,
            output_wattage: 0,
            output_va: 0,
        }
    }

    /// One tick of the uptime counter: exactly one second elapsed, so the
    /// counter grows by exactly one; nothing else changes.
    pub fn tick_uptime(&mut self)
        requires
            old(self).uptime < u64::MAX,
        ensures
            final(self).uptime == old(self).uptime + 1,
            old(self).uptime < final(self).uptime,
            final(self).status == old(self).status,
            final(self).vendor_id == old(self).vendor_id,
            final(self).product_id == old(self).product_id,
            final(self).device_name == old(self).device_name,
            final(self).battery_capacity == old(self).battery_capacity,
            final(self).output_wattage == old(self).output_wattage,
            final(self).output_va == old(self).output_va,
    {
        self.uptime = self.uptime + 1;
    }

    /// Record that a device was matched: status becomes "running" and the
    /// device identity is written, with every trailing null stripped from
    /// the composed name. Telemetry fields and uptime are untouched.
    pub fn record_device_match(&mut self, vendor_id: u16, product_id: u16, name: &str)
        ensures
            final(self).status@ == "running"@,
            final(self).vendor_id == vendor_id,
            final(self).product_id == product_id,
            final(self).device_name@ == trim_nulls(name@),
            final(self).uptime == old(self).uptime,
            final(self).battery_capacity == old(self).battery_capacity,
            final(self).output_wattage == old(self).output_wattage,
            final(self).output_va == old(self).output_va,
    {
        self.status = String::from_str("running");
        self.vendor_id = vendor_id;
        self.product_id = product_id;
        self.device_name = crate::locator::trim_trailing_nulls(name);
    }

    /// Commit one decoded report into the record.
    pub fn apply_report(&mut self, r: Report)
        ensures
            *final(self) == spec_apply(*old(self), r),
    {
        match r {
            Report::BatteryCapacity(b) => {
                self.battery_capacity = b as u32;
            },
            Report::OutputWattage(w) => {
                self.output_wattage = w as u32;
            },
            Report::OutputVa(v) => {
                self.output_va = v as u32;
            },
            Report::Observed => {},
            Report::Unrecognized(_) => {},
        }
    }

    /// A field-by-field copy of the record, for readers that take a snapshot
    /// under a read lock and release the lock before using it.
    pub fn snapshot(&self) -> (r: DaemonState)
        ensures
            r == *self,
    {
        DaemonState {
            uptime: self.uptime,
            status: self.status.clone(),
            vendor_id: self.vendor_id,
            product_id: self.product_id,
            device_name: self.device_name.clone(),
            battery_capacity: self.battery_capacity,
            output_wattage: self.output_wattage,
            output_va: self.output_va,
        }
    }
}

} // verus!
