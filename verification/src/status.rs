//! The result of a service check, its severity and how it is shown.

use vstd::prelude::*;

verus! {

/// The result of a service check.
#[derive(Clone, Copy, Debug, PartialEq, Eq, Structural)]
pub enum ServiceStatus {
    OK,
    Pending,
    Critical,
    Checking,
    Warning,
    Error,
    Unknown,
    /// Run this as soon as possible
    Urgent,
    Disabled,
}

/// How severe a status is; statuses are ordered by this number.
pub open spec fn severity(s: ServiceStatus) -> int {
    match s {
        ServiceStatus::Critical => 127,
        ServiceStatus::Error => 96,
        ServiceStatus::Urgent => 64,
        ServiceStatus::Checking => 48,
        ServiceStatus::Warning => 32,
        ServiceStatus::OK => 16,
        ServiceStatus::Pending => -8,
        ServiceStatus::Disabled => -16,
        ServiceStatus::Unknown => -128,
    }
}

impl From<ServiceStatus> for i8 {
    fn from(value: ServiceStatus) -> (r: i8) {
        match value {
            ServiceStatus::Critical => 127,
            ServiceStatus::Error => 96,
            ServiceStatus::Urgent => 64,
            ServiceStatus::Checking => 48,
            ServiceStatus::Warning => 32,
            ServiceStatus::OK => 16,
            ServiceStatus::Pending => -8,
            ServiceStatus::Disabled => -16,
            ServiceStatus::Unknown => -128,
        }
    }
}

impl vstd::std_specs::convert::FromSpecImpl<ServiceStatus> for i8 {
    open spec fn obeys_from_spec() -> bool {
        true
    }

    open spec fn from_spec(v: ServiceStatus) -> i8 {
        severity(v) as i8
    }
}

/// The name of a status as it is displayed.
pub open spec fn status_name(s: ServiceStatus) -> Seq<char> {
    match s {
        ServiceStatus::OK => "Ok"@,
        ServiceStatus::Pending => "Pending"@,
        ServiceStatus::Critical => "Critical"@,
        ServiceStatus::Checking => "Checking"@,
        ServiceStatus::Warning => "Warning"@,
        ServiceStatus::Error => "Error"@,
        ServiceStatus::Unknown => "Unknown"@,
        ServiceStatus::Urgent => "Urgent"@,
        ServiceStatus::Disabled => "Disabled"@,
    }
}

/// The bootstrap background class of a status.
pub open spec fn background_class(s: ServiceStatus) -> Seq<char> {
    match s {
        ServiceStatus::OK => "success"@,
        ServiceStatus::Critical | ServiceStatus::Error => "danger"@,
        ServiceStatus::Checking | ServiceStatus::Warning => "warning"@,
        ServiceStatus::Pending | ServiceStatus::Disabled | ServiceStatus::Unknown => "secondary"@,
        ServiceStatus::Urgent => "primary"@,
    }
}

/// The bootstrap text class of a status.
pub open spec fn text_class(s: ServiceStatus) -> Seq<char> {
    match s {
        ServiceStatus::OK => "light"@,
        ServiceStatus::Critical | ServiceStatus::Error => "dark"@,
        ServiceStatus::Checking | ServiceStatus::Warning => "light"@,
        ServiceStatus::Pending | ServiceStatus::Disabled | ServiceStatus::Unknown => "dark"@,
        ServiceStatus::Urgent => "light"@,
    }
}

/// The statuses that mark a check as failed.
pub open spec fn is_failure_status(s: ServiceStatus) -> bool {
    s == ServiceStatus::Critical || s == ServiceStatus::Error || s == ServiceStatus::Unknown
}

/// The status that a monitoring plugin's exit code stands for: 0 ok, 1 warning,
/// 2 critical, anything else (or no code at all) unknown.
pub open spec fn status_of_exit_code(code: Option<i32>) -> ServiceStatus {
    match code {
        Some(0) => ServiceStatus::OK,
        Some(1) => ServiceStatus::Warning,
        Some(2) => ServiceStatus::Critical,
        _ => ServiceStatus::Unknown,
    }
}

/// Every status, in declaration order.
pub open spec fn all_statuses() -> Seq<ServiceStatus> {
    seq![
        ServiceStatus::OK,
        ServiceStatus::Pending,
        ServiceStatus::Critical,
        ServiceStatus::Checking,
        ServiceStatus::Warning,
        ServiceStatus::Error,
        ServiceStatus::Unknown,
        ServiceStatus::Urgent,
        ServiceStatus::Disabled,
    ]
}

impl Default for ServiceStatus {
    fn default() -> (r: Self)
        ensures
            r == ServiceStatus::Pending,
    {
        ServiceStatus::Pending
    }
}

impl ServiceStatus {
    /// The severity of this status.
    pub fn severity(self) -> (r: i8)
        ensures
            r == severity(self),
    {
        i8::from(self)
    }

    /// The displayed name of this status.
    pub fn as_str(self) -> (r: &'static str)
        ensures
            r@ == status_name(self),
    {
        match self {
            ServiceStatus::OK => "Ok",
            ServiceStatus::Pending => "Pending",
            ServiceStatus::Critical => "Critical",
            ServiceStatus::Checking => "Checking",
            ServiceStatus::Warning => "Warning",
            ServiceStatus::Error => "Error",
            ServiceStatus::Unknown => "Unknown",
            ServiceStatus::Urgent => "Urgent",
            ServiceStatus::Disabled => "Disabled",
        }
    }

    /// The displayed name of this status, as a new string.
    pub fn to_string(&self) -> (r: String)
        ensures
            r@ == status_name(*self),
    {
        String::from_str(self.as_str())
    }

    /// Returns the cell background colour for the status, from the bootstrap colours.
    pub fn as_html_class_background(self) -> (r: &'static str)
        ensures
            r@ == background_class(self),
    {
        match self {
            ServiceStatus::OK => "success",
            ServiceStatus::Critical | ServiceStatus::Error => "danger",
            ServiceStatus::Checking | ServiceStatus::Warning => "warning",
            ServiceStatus::Pending | ServiceStatus::Disabled | ServiceStatus::Unknown => {
                "secondary"
            },
            ServiceStatus::Urgent => "primary",
        }
    }

    /// Returns the text colour for the status, from the bootstrap colours.
    pub fn as_html_class_text(self) -> (r: &'static str)
        ensures
            r@ == text_class(self),
    {
        match self {
            ServiceStatus::OK => "light",
            ServiceStatus::Critical | ServiceStatus::Error => "dark",
            ServiceStatus::Checking | ServiceStatus::Warning => "light",
            ServiceStatus::Pending | ServiceStatus::Disabled | ServiceStatus::Unknown => "dark",
            ServiceStatus::Urgent => "light",
        }
    }

    /// Is this a status that marks the check as failed?
    pub fn is_failure(self) -> (r: bool)
        ensures
            r == is_failure_status(self),
    {
        match self {
            ServiceStatus::Critical | ServiceStatus::Error | ServiceStatus::Unknown => true,
            _ => false,
        }
    }

    /// The status that a monitoring plugin's exit code stands for.
    pub fn from_exit_code(code: Option<i32>) -> (r: ServiceStatus)
        ensures
            r == status_of_exit_code(code),
    {
        match code {
            Some(0) => ServiceStatus::OK,
            Some(1) => ServiceStatus::Warning,
            Some(2) => ServiceStatus::Critical,
            _ => ServiceStatus::Unknown,
        }
    }

    /// Every status, in declaration order.
    pub fn all() -> (r: Vec<ServiceStatus>)
        ensures
            r@ == all_statuses(),
    {
        let r = vec![
            ServiceStatus::OK,
            ServiceStatus::Pending,
            ServiceStatus::Critical,
            ServiceStatus::Checking,
            ServiceStatus::Warning,
            ServiceStatus::Error,
            ServiceStatus::Unknown,
            ServiceStatus::Urgent,
            ServiceStatus::Disabled,
        ];
        assert(r@ =~= all_statuses());
        r
    }
}

/// Different statuses have different severities, so ordering by severity is a total order.
pub proof fn severity_is_injective(a: ServiceStatus, b: ServiceStatus)
    ensures
        severity(a) == severity(b) <==> a == b,
{
}

/// Every status occurs in `all_statuses` exactly once.
pub proof fn all_statuses_lists_each_once(s: ServiceStatus)
    ensures
        all_statuses().contains(s),
        all_statuses().no_duplicates(),
{
    let a = all_statuses();
    match s {
        ServiceStatus::OK => assert(a[0] == s),
        ServiceStatus::Pending => assert(a[1] == s),
        ServiceStatus::Critical => assert(a[2] == s),
        ServiceStatus::Checking => assert(a[3] == s),
        ServiceStatus::Warning => assert(a[4] == s),
        ServiceStatus::Error => assert(a[5] == s),
        ServiceStatus::Unknown => assert(a[6] == s),
        ServiceStatus::Urgent => assert(a[7] == s),
        ServiceStatus::Disabled => assert(a[8] == s),
    }
}

} // verus!
