//! The usage reading returned by the quota API, and a mathematical view of it.

use crate::text::{decimal, to_decimal, to_zero_padded, zero_padded};
use vstd::prelude::*;
use vstd::string::*;

verus! {

/// Consumption attributed to one model within a limit.
#[derive(Debug, PartialEq, Eq)]
pub struct UsageDetail {
    pub model_code: String,
    pub usage: u64,
}

/// What a `UsageDetail` holds, as plain values.
pub struct UsageDetailView {
    pub model_code: Seq<char>,
    pub usage: u64,
}

impl View for UsageDetail {
    type V = UsageDetailView;

    open spec fn view(&self) -> UsageDetailView {
        UsageDetailView { model_code: self.model_code@, usage: self.usage }
    }
}

impl Clone for UsageDetail {
    fn clone(&self) -> (copy: Self)
        ensures
            copy@ == self@,
    {
        UsageDetail { model_code: self.model_code.clone(), usage: self.usage }
    }
}

/// Views of a list of details, element by element.
pub open spec fn details_view(details: Seq<UsageDetail>) -> Seq<UsageDetailView> {
    Seq::new(details.len(), |i: int| details[i]@)
}

/// Copies a list of details.
fn clone_details(details: &Vec<UsageDetail>) -> (copy: Vec<UsageDetail>)
    ensures
        details_view(copy@) == details_view(details@),
{
    let mut copy: Vec<UsageDetail> = Vec::new();
    let mut i: usize = 0;
    while i < details.len()
        invariant
            i <= details.len(),
            copy.len() == i,
            forall|j: int| 0 <= j < i ==> copy@[j]@ == details@[j]@,
        decreases details.len() - i,
    {
        copy.push(details[i].clone());
        i += 1;
    }
    assert(details_view(copy@) =~= details_view(details@));
    copy
}

/// One quota limit and how much of it has been consumed.
///
/// The consumed share is a floating-point percentage in the API's answer; it is
/// carried here as its IEEE 754 binary64 bit pattern, which loses nothing.
#[derive(Debug, PartialEq, Eq)]
pub struct LimitItem {
    pub limit_type: String,
    pub unit: u32,
    pub number: u32,
    pub usage: u64,
    pub current_value: u64,
    pub remaining: u64,
    pub percentage_bits: u64,
    pub usage_details: Option<Vec<UsageDetail>>,
    pub next_reset_time: Option<u64>,
}

/// What a `LimitItem` holds, as plain values.
pub struct LimitItemView {
    pub limit_type: Seq<char>,
    pub unit: u32,
    pub number: u32,
    pub usage: u64,
    pub current_value: u64,
    pub remaining: u64,
    pub percentage_bits: u64,
    pub usage_details: Option<Seq<UsageDetailView>>,
    pub next_reset_time: Option<u64>,
}

impl View for LimitItem {
    type V = LimitItemView;

    open spec fn view(&self) -> LimitItemView {
        LimitItemView {
            limit_type: self.limit_type@,
            unit: self.unit,
            number: self.number,
            usage: self.usage,
            current_value: self.current_value,
            remaining: self.remaining,
            percentage_bits: self.percentage_bits,
            usage_details: match self.usage_details {
                Some(details) => Some(details_view(details@)),
                None => None,
            },
            next_reset_time: self.next_reset_time,
        }
    }
}

impl Clone for LimitItem {
    fn clone(&self) -> (copy: Self)
        ensures
            copy@ == self@,
    {
        let usage_details = match &self.usage_details {
            Some(details) => Some(clone_details(details)),
            None => None,
        };
        LimitItem {
            limit_type: self.limit_type.clone(),
            unit: self.unit,
            number: self.number,
            usage: self.usage,
            current_value: self.current_value,
            remaining: self.remaining,
            percentage_bits: self.percentage_bits,
            usage_details,
            next_reset_time: self.next_reset_time,
        }
    }
}

/// Views of a list of limits, element by element.
pub open spec fn limits_view(limits: Seq<LimitItem>) -> Seq<LimitItemView> {
    Seq::new(limits.len(), |i: int| limits[i]@)
}

/// The limits of one reading.
#[derive(Debug, PartialEq, Eq)]
pub struct UsageLimits {
    pub limits: Vec<LimitItem>,
}

impl View for UsageLimits {
    type V = Seq<LimitItemView>;

    open spec fn view(&self) -> Seq<LimitItemView> {
        limits_view(self.limits@)
    }
}

impl Clone for UsageLimits {
    fn clone(&self) -> (copy: Self)
        ensures
            copy@ == self@,
    {
        let mut limits: Vec<LimitItem> = Vec::new();
        let mut i: usize = 0;
        while i < self.limits.len()
            invariant
                i <= self.limits.len(),
                limits.len() == i,
                forall|j: int| 0 <= j < i ==> limits@[j]@ == self.limits@[j]@,
            decreases self.limits.len() - i,
        {
            limits.push(self.limits[i].clone());
            i += 1;
        }
        assert(limits_view(limits@) =~= limits_view(self.limits@));
        UsageLimits { limits }
    }
}

/// One complete reading of the quota API: the snapshot that the cache holds.
#[derive(Debug, PartialEq, Eq)]
pub struct UsageData {
    pub code: u32,
    pub msg: String,
    pub data: UsageLimits,
    pub success: bool,
}

/// What a `UsageData` holds, as plain values.
pub struct UsageDataView {
    pub code: u32,
    pub msg: Seq<char>,
    pub limits: Seq<LimitItemView>,
    pub success: bool,
}

impl View for UsageData {
    type V = UsageDataView;

    open spec fn view(&self) -> UsageDataView {
        UsageDataView {
            code: self.code,
            msg: self.msg@,
            limits: self.data@,
            success: self.success,
        }
    }
}

impl Clone for UsageData {
    fn clone(&self) -> (copy: Self)
        ensures
            copy@ == self@,
    {
        UsageData {
            code: self.code,
            msg: self.msg.clone(),
            data: self.data.clone(),
            success: self.success,
        }
    }
}

/// Whether two texts hold the same characters.
pub(crate) fn same_text(left: &str, right: &str) -> (same: bool)
    ensures
        same == (left@ == right@),
{
    let a = String::from_str(left);
    let b = String::from_str(right);
    a == b
}

/// The kind of a limit, as named in the API's answer.
#[derive(Debug, Clone, Copy, PartialEq, Eq, Structural)]
pub enum LimitType {
    TimeLimit,
    TokensLimit,
    Unknown,
}

impl LimitType {
    /// The kind that a name stands for: `TIME_LIMIT`, `TOKENS_LIMIT`, and
    /// `Unknown` for every other text.
    pub open spec fn of_name(name: Seq<char>) -> LimitType {
        if name == "TIME_LIMIT"@ {
            LimitType::TimeLimit
        } else if name == "TOKENS_LIMIT"@ {
            LimitType::TokensLimit
        } else {
            LimitType::Unknown
        }
    }

    /// Reads a limit's kind from its name.
    pub fn from_str(s: &str) -> (kind: LimitType)
        ensures
            kind == LimitType::of_name(s@),
    {
        if same_text(s, "TIME_LIMIT") {
            LimitType::TimeLimit
        } else if same_text(s, "TOKENS_LIMIT") {
            LimitType::TokensLimit
        } else {
            LimitType::Unknown
        }
    }

    /// The label shown for this kind.
    pub open spec fn display_text(&self) -> Seq<char> {
        match self {
            LimitType::TimeLimit => "时间限额"@,
            LimitType::TokensLimit => "Token 限额"@,
            LimitType::Unknown => "未知限额"@,
        }
    }

    /// The label shown for this kind.
    pub fn display_name(&self) -> (name: &'static str)
        ensures
            name@ == self.display_text(),
    {
        match self {
            LimitType::TimeLimit => "时间限额",
            LimitType::TokensLimit => "Token 限额",
            LimitType::Unknown => "未知限额",
        }
    }
}

/// A timestamp in seconds: values beyond 10^12 are taken as milliseconds.
pub open spec fn timestamp_seconds(timestamp: u64) -> nat {
    if timestamp > 1_000_000_000_000 {
        (timestamp / 1000) as nat
    } else {
        timestamp as nat
    }
}

/// The text of a timestamp.
///
/// Where the instant is representable on this machine, it is shown at UTC+8
/// as `YYYY-MM-DD HH:MM`, on a simplified calendar in which every year has 365
/// days and every month 30. Where it is not, the raw number is shown.
pub open spec fn timestamp_text(timestamp: u64, representable: bool) -> Seq<char> {
    if representable {
        let local = timestamp_seconds(timestamp) + 8 * 3600;
        let days = local / 86400;
        let in_day = local % 86400;
        let day_of_year = days % 365;
        zero_padded(1970 + days / 365, 4) + "-"@ + zero_padded(day_of_year / 30 + 1, 2) + "-"@
            + zero_padded(day_of_year % 30 + 1, 2) + " "@ + zero_padded(in_day / 3600, 2) + ":"@
            + zero_padded((in_day % 3600) / 60, 2)
    } else {
        decimal(timestamp as nat)
    }
}

/// Asks `std::time::SystemTime::checked_add` whether the instant `secs`
/// seconds after the Unix epoch can be represented. The range of representable
/// instants differs between platforms, so nothing is claimed of the answer.
#[verifier::external_body]
fn epoch_offset_representable(secs: u64) -> bool {
    std::time::UNIX_EPOCH.checked_add(std::time::Duration::from_secs(secs)).is_some()
}

/// Renders a timestamp, given whether its instant is representable.
pub fn render_timestamp(timestamp: u64, representable: bool) -> (text: String)
    ensures
        text@ == timestamp_text(timestamp, representable),
{
    if representable {
        let secs = if timestamp > 1_000_000_000_000 {
            timestamp / 1000
        } else {
            timestamp
        };
        let local: u64 = secs + 8 * 3600;
        let days: u64 = local / 86400;
        let in_day: u64 = local % 86400;
        let day_of_year: u64 = days % 365;
        let mut text = to_zero_padded(1970 + days / 365, 4);
        text.append("-");
        text.append(to_zero_padded(day_of_year / 30 + 1, 2).as_str());
        text.append("-");
        text.append(to_zero_padded(day_of_year % 30 + 1, 2).as_str());
        text.append(" ");
        text.append(to_zero_padded(in_day / 3600, 2).as_str());
        text.append(":");
        text.append(to_zero_padded((in_day % 3600) / 60, 2).as_str());
        text
    } else {
        to_decimal(timestamp)
    }
}

/// Renders a timestamp for display: `timestamp_text`, for whichever answer
/// this machine gives on whether the instant is representable.
pub fn format_timestamp(timestamp: u64) -> (text: String)
    ensures
        text@ == timestamp_text(timestamp, true) || text@ == timestamp_text(timestamp, false),
{
    let secs = if timestamp > 1_000_000_000_000 {
        timestamp / 1000
    } else {
        timestamp
    };
    render_timestamp(timestamp, epoch_offset_representable(secs))
}

/// How often a limit without a reset time is reset, as text: by its unit in
/// hours for a time limit, unknown for any other kind.
pub open spec fn reset_schedule_text(limit_type: Seq<char>, unit: u32) -> Seq<char> {
    if limit_type == "TIME_LIMIT"@ {
        if unit == 1 {
            "每小时重置"@
        } else if unit == 5 {
            "每5小时重置"@
        } else if unit == 24 {
            "每天重置"@
        } else {
            "每"@ + decimal(unit as nat) + "小时重置"@
        }
    } else {
        "重置时间: 未知"@
    }
}

/// The reset text of a limit whose reset time is known, given whether that
/// instant is representable.
pub open spec fn reset_time_text(timestamp: u64, representable: bool) -> Seq<char> {
    "重置时间: "@ + timestamp_text(timestamp, representable)
}

impl LimitItem {
    /// The kind of this limit.
    pub fn get_limit_type(&self) -> (kind: LimitType)
        ensures
            kind == LimitType::of_name(self.limit_type@),
    {
        LimitType::from_str(self.limit_type.as_str())
    }

    /// Describes when this limit is reset: at its reset time where it has
    /// one, else by its schedule.
    pub fn get_reset_time_text(&self) -> (text: String)
        ensures
            match self.next_reset_time {
                Some(timestamp) => text@ == reset_time_text(timestamp, true) || text@
                    == reset_time_text(timestamp, false),
                None => text@ == reset_schedule_text(self.limit_type@, self.unit),
            },
    {
        match self.next_reset_time {
            Some(timestamp) => {
                let mut text = String::from_str("重置时间: ");
                text.append(format_timestamp(timestamp).as_str());
                text
            },
            None => {
                if same_text(self.limit_type.as_str(), "TIME_LIMIT") {
                    if self.unit == 1 {
                        String::from_str("每小时重置")
                    } else if self.unit == 5 {
                        String::from_str("每5小时重置")
                    } else if self.unit == 24 {
                        String::from_str("每天重置")
                    } else {
                        let mut text = String::from_str("每");
                        text.append(to_decimal(self.unit as u64).as_str());
                        text.append("小时重置");
                        text
                    }
                } else {
                    String::from_str("重置时间: 未知")
                }
            },
        }
    }
}

} // verus!
