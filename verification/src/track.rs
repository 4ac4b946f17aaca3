//! The page view that is reported to Plausible Analytics when an object
//! was taken in. Sending it is left to the caller.

use crate::config::{plausible_endpoint, IhaCdnConfig};
use crate::notifier::{address_views, join_with, joined_with, USER_AGENT};
use crate::state::CDNData;
use vstd::prelude::*;
use vstd::string::StringExecFns;

verus! {

/// An event as Plausible Analytics takes it. Its properties are the kind
/// of the object and whether an administrator sent it.
#[derive(Debug, Clone)]
pub struct PlausibleEvent {
    pub name: String,
    pub url: String,
    pub kind: String,
    pub is_admin_upload: bool,
    pub domain: Option<String>,
    pub referrer: Option<String>,
    pub interactive: bool,
}

/// A report: the event, where it is posted, and the headers that go with
/// it.
#[derive(Debug, Clone)]
pub struct PlausibleReport {
    pub endpoint: String,
    pub event: PlausibleEvent,
    pub user_agent: String,
    pub forwarded_for: String,
}

/// The kind of an object, as it is reported.
pub open spec fn kind_of(record: CDNData) -> Seq<char> {
    match record {
        CDNData::Short { .. } => "short"@,
        CDNData::File { .. } => "file"@,
        CDNData::Code { .. } => "code"@,
    }
}

/// The domain that page views are reported for: the configured one, where
/// Plausible Analytics is switched on and the domain is set and not empty.
pub open spec fn reported_domain(config: IhaCdnConfig) -> Option<Seq<char>> {
    if !config.plausible.enable {
        None
    } else {
        match config.plausible.domain {
            Some(domain) => if domain@.len() == 0 {
                None
            } else {
                Some(domain@)
            },
            None => None,
        }
    }
}

/// A text that may be missing, as plain values.
pub open spec fn text_view(text: Option<String>) -> Option<Seq<char>> {
    match text {
        Some(t) => Some(t@),
        None => None,
    }
}

/// The report on `cdn_data`, which was given the public URL `final_url`
/// and was sent from `ip_address`; `None` where nothing is to be reported,
/// or no endpoint can be made of the configured one.
pub fn report_to_plausible(
    final_url: &str,
    cdn_data: &CDNData,
    config: &IhaCdnConfig,
    ip_address: &Vec<String>,
    referrer: Option<String>,
    user_agent: Option<String>,
) -> (r: Option<PlausibleReport>)
    ensures
        r is Some <==> reported_domain(*config) is Some && plausible_endpoint(
            config.plausible.named_endpoint(),
        ) is Some,
        r matches Some(report) ==> {
            &&& report.endpoint@ == plausible_endpoint(config.plausible.named_endpoint())->0
            &&& report.event.name@ == "pageview"@
            &&& report.event.url@ == final_url@
            &&& report.event.kind@ == kind_of(*cdn_data)
            &&& report.event.is_admin_upload == cdn_data.admin()
            &&& text_view(report.event.domain) == reported_domain(*config)
            &&& text_view(report.event.referrer) == text_view(referrer)
            &&& !report.event.interactive
            &&& report.user_agent@ == match user_agent {
                Some(agent) => agent@,
                None => USER_AGENT@,
            }
            &&& report.forwarded_for@ == joined_with(address_views(ip_address@), ", "@)
        },
{
    if !config.plausible.is_enabled() {
        return None;
    }
    let domain = match &config.plausible.domain {
        Some(domain) => {
            if domain.as_str().unicode_len() == 0 {
                return None;
            }
            domain.clone()
        },
        None => {
            return None;
        },
    };
    let endpoint = match config.plausible.endpoint_url() {
        Some(endpoint) => endpoint,
        None => {
            return None;
        },
    };
    let kind = match cdn_data {
        CDNData::Short { .. } => "short",
        CDNData::File { .. } => "file",
        CDNData::Code { .. } => "code",
    };
    let event = PlausibleEvent {
        name: String::from_str("pageview"),
        url: String::from_str(final_url),
        kind: String::from_str(kind),
        is_admin_upload: cdn_data.is_admin(),
        domain: Some(domain),
        referrer,
        interactive: false,
    };
    let user_agent = match user_agent {
        Some(agent) => agent,
        None => String::from_str(USER_AGENT),
    };
    Some(
        PlausibleReport { endpoint, event, user_agent, forwarded_for: join_with(ip_address, ", ") },
    )
}

} // verus!
