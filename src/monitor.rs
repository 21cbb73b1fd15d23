//! Dependency-update notices: how an update is graded, which updates a
//! publisher's filter lets through, and the message that lists them.

use vstd::prelude::*;
use vstd::string::*;
use crate::text::str_equal;

verus! {

/// How far a newer release moves from the one in use.
#[derive(Debug, Clone, Copy, PartialEq, Eq)]
pub enum UpdateType {
    Patch,
    Minor,
    Major,
}

/// The numeric core of a semantic version.
#[derive(Debug, Clone, Copy, PartialEq, Eq)]
pub struct SemanticVersion {
    pub major: u64,
    pub minor: u64,
    pub patch: u64,
}

/// A newer release of a dependency.
#[derive(Debug, Clone)]
pub struct UpdateInfo {
    pub contract_name: String,
    pub current_version: String,
    pub latest_version: String,
    pub update_type: UpdateType,
    pub is_security: bool,
}

/// The grade of a move from `current` to `latest`: a different major number
/// is major, else a different minor number is minor, else a patch.
pub open spec fn update_grade(current: SemanticVersion, latest: SemanticVersion) -> UpdateType {
    if current.major != latest.major {
        UpdateType::Major
    } else if current.minor != latest.minor {
        UpdateType::Minor
    } else {
        UpdateType::Patch
    }
}

/// Grades the move from `current` to `latest`.
pub fn determine_update_type(current: &SemanticVersion, latest: &SemanticVersion) -> (r: UpdateType)
    ensures
        r == update_grade(*current, *latest),
{
    if current.major != latest.major {
        UpdateType::Major
    } else if current.minor != latest.minor {
        UpdateType::Minor
    } else {
        UpdateType::Patch
    }
}

/// Whether a publisher whose filter level is `filter` hears of `update`:
/// `Security` passes security updates only, `Major` major ones, `Minor`
/// minor and major ones, and any other level passes all.
pub open spec fn passes_filter(update: UpdateInfo, filter: Seq<char>) -> bool {
    if filter == "Security"@ {
        update.is_security
    } else if filter == "Major"@ {
        update.update_type == UpdateType::Major
    } else if filter == "Minor"@ {
        update.update_type == UpdateType::Minor || update.update_type == UpdateType::Major
    } else {
        true
    }
}

/// Whether a publisher whose filter level is `filter` hears of `update`.
pub fn should_notify(update: &UpdateInfo, filter: &str) -> (r: bool)
    ensures
        r == passes_filter(*update, filter@),
{
    if str_equal(filter, "Security") {
        update.is_security
    } else if str_equal(filter, "Major") {
        match update.update_type {
            UpdateType::Major => true,
            _ => false,
        }
    } else if str_equal(filter, "Minor") {
        match update.update_type {
            UpdateType::Minor | UpdateType::Major => true,
            _ => false,
        }
    } else {
        true
    }
}

/// The name of an update grade.
pub open spec fn grade_name(t: UpdateType) -> Seq<char> {
    match t {
        UpdateType::Patch => "Patch"@,
        UpdateType::Minor => "Minor"@,
        UpdateType::Major => "Major"@,
    }
}

/// The badge shown beside a security update; empty for others.
pub open spec fn security_badge(is_security: bool) -> Seq<char> {
    if is_security {
        "<span style='color: red; font-weight: bold;'>\u{1f512} SECURITY UPDATE</span>"@
    } else {
        ""@
    }
}

/// The block of the message that describes one update.
pub open spec fn update_block(u: UpdateInfo) -> Seq<char> {
    "<div style='margin: 20px 0; padding: 15px; border-left: 4px solid #0066cc;'>\n                <h3>"@
        + u.contract_name@ + " "@ + security_badge(u.is_security) + "</h3>\n                <p>Current: "@
        + u.current_version@ + " \u{2192} Latest: "@ + u.latest_version@
        + "</p>\n                <p>Update Type: "@ + grade_name(u.update_type) + "</p>\n            </div>"@
}

/// The blocks of a list of updates, in order.
pub open spec fn update_blocks(us: Seq<UpdateInfo>) -> Seq<char>
    decreases us.len(),
{
    if us.len() == 0 {
        seq![]
    } else {
        update_blocks(us.drop_last()) + update_block(us.last())
    }
}

/// The notification message: a heading, then one block per update.
pub open spec fn notification_html(us: Seq<UpdateInfo>) -> Seq<char> {
    "<h1>Contract Dependency Updates</h1>"@ + update_blocks(us)
}

fn grade_text(t: UpdateType) -> (r: &'static str)
    ensures
        r@ == grade_name(t),
{
    match t {
        UpdateType::Patch => "Patch",
        UpdateType::Minor => "Minor",
        UpdateType::Major => "Major",
    }
}

fn badge_text(is_security: bool) -> (r: &'static str)
    ensures
        r@ == security_badge(is_security),
{
    if is_security {
        "<span style='color: red; font-weight: bold;'>\u{1f512} SECURITY UPDATE</span>"
    } else {
        ""
    }
}

/// The message that lists `updates` for a publisher.
pub fn format_notification_message(updates: &[UpdateInfo]) -> (r: String)
    ensures
        r@ == notification_html(updates@),
{
    let mut html = String::from_str("<h1>Contract Dependency Updates</h1>");
    let mut i: usize = 0;
    while i < updates.len()
        invariant
            i <= updates@.len(),
            html@ == "<h1>Contract Dependency Updates</h1>"@ + update_blocks(updates@.take(i as int)),
        decreases updates@.len() - i,
    {
        let u = &updates[i];
        let ghost start = html@;
        html.append("<div style='margin: 20px 0; padding: 15px; border-left: 4px solid #0066cc;'>\n                <h3>");
        html.append(u.contract_name.as_str());
        html.append(" ");
        html.append(badge_text(u.is_security));
        html.append("</h3>\n                <p>Current: ");
        html.append(u.current_version.as_str());
        html.append(" \u{2192} Latest: ");
        html.append(u.latest_version.as_str());
        html.append("</p>\n                <p>Update Type: ");
        html.append(grade_text(u.update_type));
        html.append("</p>\n            </div>");
        assert(html@ =~= start + update_block(updates@[i as int]));
        assert(updates@.take(i + 1).drop_last() =~= updates@.take(i as int));
        assert(html@ =~= "<h1>Contract Dependency Updates</h1>"@ + update_blocks(updates@.take(i + 1)));
        i += 1;
    }
    assert(updates@.take(updates@.len() as int) =~= updates@);
    html
}

} // verus!
