//! Translation of an abuse report into a plain-text message.
use crate::model::{OutboundMessage, OutboundView, SourceAbuseReport, SourceUser, user_mention};
use crate::note::mention;
use vstd::prelude::*;
use vstd::string::*;

verus! {

/// How a user of a report is named: `unknown_user` when absent.
pub open spec fn described_user(u: Option<SourceUser>) -> Seq<char> {
    match u {
        None => "unknown_user"@,
        Some(u) => user_mention(u),
    }
}

/// The text of the message announcing `report`.
pub open spec fn report_text(report: SourceAbuseReport) -> Seq<char> {
    "New abuse report created!\nReporter: "@ + described_user(report.reporter)
        + "\nTarget User: "@ + described_user(report.target_user) + "\nComment\n"@
        + report.comment@
}

/// The plain-text message announcing `report`.
pub open spec fn report_message(report: SourceAbuseReport) -> OutboundView {
    OutboundView { embeds: Seq::empty(), content: Some(report_text(report)) }
}

/// Names a user of a report: `@handle`, `@handle@host`, or `unknown_user`.
pub fn describe_user(u: &Option<SourceUser>) -> (r: String)
    ensures
        r@ == described_user(*u),
{
    match u {
        None => String::from_str("unknown_user"),
        Some(u) => mention(u),
    }
}

/// The text announcing `report`: reporter, target, and the comment verbatim.
pub fn translate_abuse_report(report: &SourceAbuseReport) -> (r: String)
    ensures
        r@ == report_text(*report),
{
    String::from_str("New abuse report created!\nReporter: ")
        .concat(describe_user(&report.reporter).as_str())
        .concat("\nTarget User: ")
        .concat(describe_user(&report.target_user).as_str())
        .concat("\nComment\n")
        .concat(report.comment.as_str())
}

/// The plain-text message announcing `report`.
pub fn abuse_report_message(report: &SourceAbuseReport) -> (r: OutboundMessage)
    ensures
        r@ == report_message(*report),
{
    let m = OutboundMessage { embeds: Vec::new(), content: Some(translate_abuse_report(report)) };
    assert(m@.embeds == Seq::<crate::model::EmbedView>::empty());
    m
}

} // verus!
