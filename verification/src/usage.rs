//! Usage metering: a best-effort sink for per-call token consumption.

use vstd::prelude::*;

use crate::errors::ReportError;
use crate::json::{json_get, json_get_str, json_get_u64, Json, JsonValue};

verus! {

/// Token counts from one completed remote call.
#[derive(Clone, Copy, PartialEq, Eq, Structural, Debug)]
pub struct Usage {
    pub completion_tokens: u64,
    pub prompt_tokens: u64,
    pub total_tokens: u64,
}

/// One usage report: which model consumed the tokens.
#[derive(Debug)]
pub struct UsageReport {
    pub model: String,
    pub usage: Usage,
}

/// The mathematical model of a [`UsageReport`].
#[verifier::ext_equal]
pub struct UsageReportModel {
    pub model: Seq<char>,
    pub usage: Usage,
}

impl View for UsageReport {
    type V = UsageReportModel;

    open spec fn view(&self) -> UsageReportModel {
        UsageReportModel { model: self.model@, usage: self.usage }
    }
}

/// The models of a list of usage reports.
pub open spec fn reports_model(s: Seq<UsageReport>) -> Seq<UsageReportModel> {
    s.map_values(|x: UsageReport| x@)
}

/// A sink for usage reports.  Reporting is best-effort: the pipeline
/// drops a failed report and never fails the tool call over it.
pub trait UsageReporter: Sized {
    /// How one report call, successful or not, leaves this sink's state
    /// relative to its state before the call.
    spec fn after_report(&self, pre: Self, report: UsageReportModel) -> bool;

    fn report(&mut self, usage: UsageReport) -> (r: Result<(), ReportError>)
        ensures
            final(self).after_report(*old(self), usage@),
    ;
}

/// The reporter that reports to nobody.
pub struct NoopUsageReporter;

impl UsageReporter for NoopUsageReporter {
    /// A report leaves the no-op reporter exactly as it was.
    open spec fn after_report(&self, pre: Self, report: UsageReportModel) -> bool {
        *self == pre
    }

    /// Accepts and discards the report; never fails.
    fn report(&mut self, usage: UsageReport) -> (r: Result<(), ReportError>)
        ensures
            r is Ok,
    {
        Ok(())
    }
}

/// A reporter that keeps every report it is handed, oldest first.
pub struct RecordingUsageReporter {
    reports: Vec<UsageReport>,
}

impl RecordingUsageReporter {
    /// The models of the reports received so far, oldest first.
    pub closed spec fn spec_reports(&self) -> Seq<UsageReportModel> {
        reports_model(self.reports@)
    }

    pub fn new() -> (r: Self)
        ensures
            r.spec_reports().len() == 0,
    {
        RecordingUsageReporter { reports: Vec::new() }
    }

    /// The reports received so far, oldest first.
    pub fn reports(&self) -> (r: &Vec<UsageReport>)
        ensures
            reports_model(r@) == self.spec_reports(),
    {
        &self.reports
    }
}

impl UsageReporter for RecordingUsageReporter {
    /// A report is appended to the record.
    open spec fn after_report(&self, pre: Self, report: UsageReportModel) -> bool {
        self.spec_reports() == pre.spec_reports().push(report)
    }

    /// Keeps the report; never fails.
    fn report(&mut self, usage: UsageReport) -> (r: Result<(), ReportError>)
        ensures
            r is Ok,
    {
        let ghost gold = self.reports@;
        let ghost gusage = usage@;
        self.reports.push(usage);
        proof {
            assert(reports_model(self.reports@) =~= reports_model(gold).push(gusage));
        }
        Ok(())
    }
}

/// The usage block of a payload, when it is well formed: a string `model`
/// field, and a `usage` object holding all three token counts as
/// non-negative numbers.  Anything less yields nothing.
pub open spec fn spec_extract_usage(resp: Json) -> Option<UsageReportModel> {
    match (json_get_str(resp, "model"@), json_get(resp, "usage"@)) {
        (Some(model), Some(u)) => {
            match (
                json_get_u64(u, "completion_tokens"@),
                json_get_u64(u, "prompt_tokens"@),
                json_get_u64(u, "total_tokens"@),
            ) {
                (Some(ct), Some(pt), Some(tt)) => Some(
                    UsageReportModel {
                        model,
                        usage: Usage {
                            completion_tokens: ct,
                            prompt_tokens: pt,
                            total_tokens: tt,
                        },
                    },
                ),
                _ => None,
            }
        },
        _ => None,
    }
}

/// Reads the usage block out of a raw payload, exactly when
/// [`spec_extract_usage`] says one is there.
pub fn extract_usage(response: &JsonValue) -> (r: Option<UsageReport>)
    ensures
        match r {
            Some(u) => spec_extract_usage(response@) == Some(u@),
            None => spec_extract_usage(response@) is None,
        },
{
    let model = match response.get("model") {
        Some(m) => match m.as_str() {
            Some(s) => s,
            None => {
                return None;
            },
        },
        None => {
            return None;
        },
    };
    let usage = match response.get("usage") {
        Some(u) => u,
        None => {
            return None;
        },
    };
    let ct = match get_count(usage, "completion_tokens") {
        Some(n) => n,
        None => {
            return None;
        },
    };
    let pt = match get_count(usage, "prompt_tokens") {
        Some(n) => n,
        None => {
            return None;
        },
    };
    let tt = match get_count(usage, "total_tokens") {
        Some(n) => n,
        None => {
            return None;
        },
    };
    Some(
        UsageReport {
            model: model.to_owned(),
            usage: Usage { completion_tokens: ct, prompt_tokens: pt, total_tokens: tt },
        },
    )
}

/// Reads one non-negative numeric field as an unsigned count.
fn get_count(v: &JsonValue, key: &str) -> (r: Option<u64>)
    ensures
        r == json_get_u64(v@, key@),
{
    match v.get(key) {
        Some(n) => match n.as_int() {
            Some(i) => if i >= 0 {
                Some(i as u64)
            } else {
                None
            },
            None => None,
        },
        None => None,
    }
}

} // verus!
