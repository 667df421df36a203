//! The notify stage: compare the aggregate supply against the operator's
//! minimum and, on a shortfall, build the one notification that reports it.
//! The comparison is strict, so a supply exactly at the minimum stays
//! silent. Dispatching the built request is a network call the host
//! performs.

use vstd::prelude::*;
use crate::bits::lt_via_bits;
use crate::bits::supply_below_minimum;

verus! {

/// The two operator-supplied inputs of a run: the topic the notification is
/// addressed to, and the minimum acceptable supply as the bit pattern of a
/// 64-bit float.
pub struct RunConfig {
    pub ntfy_topic: String,
    pub supply_min_bits: u64,
}

/// A push notification, ready for the host to dispatch.
pub struct NotificationRequest {
    pub topic: String,
    pub title: String,
    pub message: String,
    pub markdown: bool,
    pub tags: Vec<String>,
    pub click_url: String,
}

/// The title every shortfall notification carries.
pub open spec fn shortfall_title() -> Seq<char> {
    "USDT supply decreased"@
}

/// The message is the formatted current supply behind this prefix.
pub open spec fn message_prefix() -> Seq<char> {
    "Current supply: "@
}

/// The single tag every shortfall notification carries.
pub open spec fn warning_tag() -> Seq<char> {
    "warning"@
}

/// The dashboard the notification links to.
pub open spec fn dashboard_url() -> Seq<char> {
    "https://studio.glassnode.com/charts/supply.Current?a=USDT&category=Supply"@
}

/// Decides whether the aggregate supply calls for a notification: exactly
/// when it lies strictly below the configured minimum, under the ordering
/// of 64-bit floats.
pub fn notification_needed(supply_bits: u64, config: &RunConfig) -> (r: bool)
    ensures
        r == lt_via_bits(supply_bits, config.supply_min_bits),
{
    supply_below_minimum(supply_bits, config.supply_min_bits)
}

/// Builds the one notification that reports a shortfall: addressed to the
/// given topic, titled, carrying the formatted current supply in its
/// message, rendered as markdown, tagged `warning`, and linking to the
/// supply dashboard.
pub fn build_shortfall_notification(topic: String, supply_formatted: &str) -> (r:
    NotificationRequest)
    ensures
        r.topic == topic,
        r.title@ == shortfall_title(),
        r.message@ == message_prefix() + supply_formatted@,
        r.markdown == true,
        r.tags@.len() == 1 && r.tags@[0]@ == warning_tag(),
        r.click_url@ == dashboard_url(),
{
    let mut message = String::from_str("Current supply: ");
    message.append(supply_formatted);
    let mut tags: Vec<String> = Vec::new();
    tags.push(String::from_str("warning"));
    NotificationRequest {
        topic,
        title: String::from_str("USDT supply decreased"),
        message,
        markdown: true,
        tags,
        click_url: String::from_str(
            "https://studio.glassnode.com/charts/supply.Current?a=USDT&category=Supply",
        ),
    }
}

/// The notify stage's whole decision: hands back the one notification to
/// dispatch exactly when the supply lies strictly below the configured
/// minimum, and nothing otherwise, so a run dispatches at most one
/// notification and a supply at or above the minimum dispatches none.
pub fn shortfall_notification(supply_bits: u64, config: &RunConfig, supply_formatted: &str) -> (r:
    Option<NotificationRequest>)
    ensures
        r is Some <==> lt_via_bits(supply_bits, config.supply_min_bits),
        r matches Some(n) ==> {
            &&& n.topic@ == config.ntfy_topic@
            &&& n.title@ == shortfall_title()
            &&& n.message@ == message_prefix() + supply_formatted@
            &&& n.markdown
            &&& n.tags@.len() == 1 && n.tags@[0]@ == warning_tag()
            &&& n.click_url@ == dashboard_url()
        },
{
    if notification_needed(supply_bits, config) {
        Some(build_shortfall_notification(config.ntfy_topic.clone(), supply_formatted))
    } else {
        None
    }
}

} // verus!
