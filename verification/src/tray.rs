//! What the tray shows and what its menu entries mean. Drawing the tray and
//! receiving its events are the caller's part.

use crate::api::{same_text, LimitItem, LimitItemView, UsageData};
use crate::text::{decimal, to_decimal};
use vstd::prelude::*;
use vstd::string::*;

verus! {

/// What a menu entry asks for.
#[derive(Debug, Clone, Copy, PartialEq, Eq, Structural)]
pub enum MenuAction {
    /// Show the configuration window and focus it.
    ShowConfig,
    /// Start a manual refresh.
    Refresh,
    /// Leave the application.
    Quit,
    /// Not an entry of this menu.
    Ignore,
}

/// The action behind a menu entry's id.
pub open spec fn menu_action_of(id: Seq<char>) -> MenuAction {
    if id == "open"@ {
        MenuAction::ShowConfig
    } else if id == "refresh"@ {
        MenuAction::Refresh
    } else if id == "quit"@ {
        MenuAction::Quit
    } else {
        MenuAction::Ignore
    }
}

/// Decides what a menu event asks for, by the id of its entry.
pub fn menu_action(id: &str) -> (action: MenuAction)
    ensures
        action == menu_action_of(id@),
{
    if same_text(id, "open") {
        MenuAction::ShowConfig
    } else if same_text(id, "refresh") {
        MenuAction::Refresh
    } else if same_text(id, "quit") {
        MenuAction::Quit
    } else {
        MenuAction::Ignore
    }
}

/// Where the tray icon is taken from.
#[derive(Debug, Clone, Copy, PartialEq, Eq, Structural)]
pub enum IconSource {
    /// Beside the executable, as installed.
    Installed,
    /// In the source tree, two directories above the executable.
    Development,
}

/// Picks the icon file: the installed one where it exists, else the one of
/// the source tree where that exists, else none.
pub fn choose_icon(installed_exists: bool, development_exists: bool) -> (source: Option<IconSource>)
    ensures
        source == if installed_exists {
            Some(IconSource::Installed)
        } else if development_exists {
            Some(IconSource::Development)
        } else {
            None::<IconSource>
        },
{
    if installed_exists {
        Some(IconSource::Installed)
    } else if development_exists {
        Some(IconSource::Development)
    } else {
        None
    }
}

/// Whether `index` is the first limit of the token kind.
pub open spec fn is_first_token_limit(limits: Seq<LimitItemView>, index: int) -> bool {
    &&& 0 <= index < limits.len()
    &&& limits[index].limit_type == "TOKENS_LIMIT"@
    &&& forall|j: int| 0 <= j < index ==> limits[j].limit_type != "TOKENS_LIMIT"@
}

/// Whether no limit is of the token kind.
pub open spec fn no_token_limit(limits: Seq<LimitItemView>) -> bool {
    forall|j: int| 0 <= j < limits.len() ==> limits[j].limit_type != "TOKENS_LIMIT"@
}

/// Finds the limit that the tray title reports: the first of the token kind.
pub fn find_token_limit(usage: &UsageData) -> (found: Option<usize>)
    ensures
        match found {
            Some(index) => is_first_token_limit(usage@.limits, index as int),
            None => no_token_limit(usage@.limits),
        },
{
    let mut i: usize = 0;
    while i < usage.data.limits.len()
        invariant
            i <= usage.data.limits.len(),
            usage@.limits.len() == usage.data.limits.len(),
            forall|j: int| 0 <= j < i ==> usage@.limits[j].limit_type != "TOKENS_LIMIT"@,
        decreases usage.data.limits.len() - i,
    {
        if same_text(usage.data.limits[i].limit_type.as_str(), "TOKENS_LIMIT") {
            return Some(i);
        }
        i += 1;
    }
    None
}

/// The title for a token limit: consumed and total amounts as rendered by
/// the caller, and the consumed share in whole percent.
pub open spec fn token_title_text(consumed: Seq<char>, total: Seq<char>, percent: u32) -> Seq<
    char,
> {
    "GLM: "@ + consumed + "/"@ + total + " ("@ + decimal(percent as nat) + "%)"@
}

/// Words the tray title for a token limit.
pub fn token_title(consumed: &str, total: &str, percent: u32) -> (title: String)
    ensures
        title@ == token_title_text(consumed@, total@, percent),
{
    let mut title = String::from_str("GLM: ");
    title.append(consumed);
    title.append("/");
    title.append(total);
    title.append(" (");
    title.append(to_decimal(percent as u64).as_str());
    title.append("%)");
    title
}

/// The title for a reading without a token limit: how many limits it has.
pub open spec fn count_title_text(count: nat) -> Seq<char> {
    "GLM: "@ + decimal(count) + " 限额"@
}

/// Words the tray title for a reading without a token limit.
pub fn count_title(usage: &UsageData) -> (title: String)
    ensures
        title@ == count_title_text(usage@.limits.len()),
{
    let mut title = String::from_str("GLM: ");
    title.append(to_decimal(usage.data.limits.len() as u64).as_str());
    title.append(" 限额");
    title
}

} // verus!
