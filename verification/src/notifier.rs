//! The notice that goes to a chat webhook when an object was taken in.
//! Sending it is left to the caller.

use crate::config::IhaCdnConfig;
use crate::state::CDNData;
use vstd::prelude::*;
use vstd::string::StringExecFns;

verus! {

/// The name under which the server makes itself known to other servers.
pub const USER_AGENT: &'static str =
    "ihacdn-rs/0.1.0 (+https://github.com/ihateani-me/ihacdn-server-rs)";

/// A notice: where it is posted, and what it holds.
#[derive(Debug, Clone)]
pub struct Notice {
    pub webhook_url: String,
    pub content: String,
    pub avatar_url: String,
    pub username: String,
    pub tts: bool,
}

/// `parts`, with `separator` between each two.
pub open spec fn joined_with(parts: Seq<Seq<char>>, separator: Seq<char>) -> Seq<char>
    decreases parts.len(),
{
    if parts.len() == 0 {
        Seq::empty()
    } else if parts.len() == 1 {
        parts[0]
    } else {
        joined_with(parts.drop_last(), separator) + separator + parts.last()
    }
}

/// The uploader's addresses as the notice names them.
pub open spec fn uploader_text(addresses: Seq<Seq<char>>) -> Seq<char> {
    let listed = joined_with(addresses, ", "@);
    if listed.len() == 0 {
        "Unknown IP"@
    } else {
        listed
    }
}

/// The text of the notice on `record`, which was given the public URL
/// `final_url`: the uploader's addresses, the URL, and whether an
/// administrator sent it, one to a line.
pub open spec fn notice_text(
    final_url: Seq<char>,
    record: CDNData,
    addresses: Seq<Seq<char>>,
) -> Seq<char> {
    "Uploader IPs: **"@ + uploader_text(addresses) + "**"@ + "\n"@ + (if record is Short {
        "Short URL: **<"@
    } else {
        "File: **<"@
    }) + final_url + ">**"@ + "\n"@ + "Is Admin? **"@ + (if record.admin() {
        "Yes"@
    } else {
        "No"@
    }) + "**"@
}

/// The webhook that notices go to: the configured one, where the notifier
/// is switched on and the webhook is set and not empty.
pub open spec fn webhook_of(config: IhaCdnConfig) -> Option<Seq<char>> {
    if !config.notifier.enable {
        None
    } else {
        match config.notifier.discord_webhook {
            Some(url) => if url@.len() == 0 {
                None
            } else {
                Some(url@)
            },
            None => None,
        }
    }
}

/// The views of `addresses`.
pub open spec fn address_views(addresses: Seq<String>) -> Seq<Seq<char>> {
    crate::text::views(addresses)
}

/// `parts`, with `separator` between each two.
pub fn join_with(parts: &Vec<String>, separator: &str) -> (r: String)
    ensures
        r@ == joined_with(crate::text::views(parts@), separator@),
{
    let ghost all = crate::text::views(parts@);
    let mut r = String::new();
    let mut i: usize = 0;
    assert(all.take(0) =~= Seq::<Seq<char>>::empty());
    while i < parts.len()
        invariant
            i <= parts.len(),
            all == crate::text::views(parts@),
            r@ == joined_with(all.take(i as int), separator@),
        decreases parts.len() - i,
    {
        let ghost upto = all.take(i + 1);
        assert(upto.drop_last() =~= all.take(i as int));
        assert(upto.last() == parts@[i as int]@);
        if i > 0 {
            r.append(separator);
        }
        r.append(parts[i].as_str());
        assert(r@ =~= joined_with(upto, separator@));
        i += 1;
    }
    assert(all.take(i as int) =~= all);
    r
}

/// The notice on `cdn_data`, which was given the public URL `final_url`,
/// and was sent from `ip_address`; `None` where no notice is to be sent.
pub fn notify_discord(
    final_url: &str,
    cdn_data: &CDNData,
    config: &IhaCdnConfig,
    ip_address: &Vec<String>,
) -> (r: Option<Notice>)
    ensures
        r is Some <==> webhook_of(*config) is Some,
        r matches Some(notice) ==> {
            &&& notice.webhook_url@ == webhook_of(*config)->0
            &&& notice.content@ == notice_text(final_url@, *cdn_data, address_views(ip_address@))
            &&& notice.avatar_url@ == "https://p.ihateani.me/static/img/favicon.png"@
            &&& notice.username@ == "ihaCDN Notificator"@
            &&& !notice.tts
        },
{
    if !config.notifier.enable {
        return None;
    }
    let webhook_url = match &config.notifier.discord_webhook {
        Some(url) => {
            if url.as_str().unicode_len() == 0 {
                return None;
            }
            url.clone()
        },
        None => {
            return None;
        },
    };
    let listed = join_with(ip_address, ", ");
    let mut content = String::from_str("Uploader IPs: **");
    if listed.as_str().unicode_len() == 0 {
        content.append("Unknown IP");
    } else {
        content.append(listed.as_str());
    }
    content.append("**");
    content.append("\n");
    match cdn_data {
        CDNData::Short { .. } => {
            content.append("Short URL: **<");
        },
        _ => {
            content.append("File: **<");
        },
    }
    content.append(final_url);
    content.append(">**");
    content.append("\n");
    content.append("Is Admin? **");
    if cdn_data.is_admin() {
        content.append("Yes");
    } else {
        content.append("No");
    }
    content.append("**");
    Some(
        Notice {
            webhook_url,
            content,
            avatar_url: String::from_str("https://p.ihateani.me/static/img/favicon.png"),
            username: String::from_str("ihaCDN Notificator"),
            tts: false,
        },
    )
}

/// An address of the internet, as a number: the 32 bits of an IPv4
/// address, or the 128 bits of an IPv6 address, the first byte on top.
#[derive(Debug, Clone, Copy, PartialEq, Eq, Structural)]
pub enum IpAddress {
    V4(u32),
    V6(u128),
}

/// The IPv4 addresses that name no host of the public internet, as ranges
/// from a first to a last address.
pub open spec fn reserved_v4() -> Seq<(u128, u128)> {
    seq![
        // 10.0.0.0/8, private
        (0x0A000000u128, 0x0AFFFFFFu128),
        // 172.16.0.0/12, private
        (0xAC100000u128, 0xAC1FFFFFu128),
        // 192.168.0.0/16, private
        (0xC0A80000u128, 0xC0A8FFFFu128),
        // 127.0.0.0/8, loopback
        (0x7F000000u128, 0x7FFFFFFFu128),
        // 169.254.0.0/16, link-local
        (0xA9FE0000u128, 0xA9FEFFFFu128),
        // 0.0.0.0/32, unspecified
        (0x00000000u128, 0x00000000u128),
        // 255.255.255.255/32, broadcast
        (0xFFFFFFFFu128, 0xFFFFFFFFu128),
        // 192.0.2.0/24, documentation
        (0xC0000200u128, 0xC00002FFu128),
        // 198.51.100.0/24, documentation
        (0xC6336400u128, 0xC63364FFu128),
        // 203.0.113.0/24, documentation
        (0xCB007100u128, 0xCB0071FFu128),
        // 224.0.0.0/4, multicast
        (0xE0000000u128, 0xEFFFFFFFu128),
    ]
}

/// The IPv6 addresses that name no host of the public internet.
pub open spec fn reserved_v6() -> Seq<(u128, u128)> {
    seq![
        // ::1/128, loopback
        (0x00000000000000000000000000000001u128, 0x00000000000000000000000000000001u128),
        // ff00::/8, multicast
        (0xFF000000000000000000000000000000u128, 0xFFFFFFFFFFFFFFFFFFFFFFFFFFFFFFFFu128),
        // ::/128, unspecified
        (0x00000000000000000000000000000000u128, 0x00000000000000000000000000000000u128),
        // fe80::/10, link-local unicast
        (0xFE800000000000000000000000000000u128, 0xFEBFFFFFFFFFFFFFFFFFFFFFFFFFFFFFu128),
        // fc00::/7, unique local
        (0xFC000000000000000000000000000000u128, 0xFDFFFFFFFFFFFFFFFFFFFFFFFFFFFFFFu128),
    ]
}

/// The IPv4 networks of the reverse proxy that stands before the server.
pub open spec fn proxy_v4() -> Seq<(u128, u128)> {
    seq![
        // 173.245.48.0/20
        (0xADF53000u128, 0xADF53FFFu128),
        // 103.21.244.0/22
        (0x6715F400u128, 0x6715F7FFu128),
        // 103.22.200.0/22
        (0x6716C800u128, 0x6716CBFFu128),
        // 103.31.4.0/22
        (0x671F0400u128, 0x671F07FFu128),
        // 141.101.64.0/18
        (0x8D654000u128, 0x8D657FFFu128),
        // 108.162.192.0/18
        (0x6CA2C000u128, 0x6CA2FFFFu128),
        // 190.93.240.0/20
        (0xBE5DF000u128, 0xBE5DFFFFu128),
        // 188.114.96.0/20
        (0xBC726000u128, 0xBC726FFFu128),
        // 197.234.240.0/22
        (0xC5EAF000u128, 0xC5EAF3FFu128),
        // 198.41.128.0/17
        (0xC6298000u128, 0xC629FFFFu128),
        // 162.158.0.0/15
        (0xA29E0000u128, 0xA29FFFFFu128),
        // 104.16.0.0/13
        (0x68100000u128, 0x6817FFFFu128),
        // 104.24.0.0/14
        (0x68180000u128, 0x681BFFFFu128),
        // 172.64.0.0/13
        (0xAC400000u128, 0xAC47FFFFu128),
        // 131.0.72.0/22
        (0x83004800u128, 0x83004BFFu128),
    ]
}

/// The IPv6 networks of the reverse proxy that stands before the server.
pub open spec fn proxy_v6() -> Seq<(u128, u128)> {
    seq![
        // 2400:cb00::/32
        (0x2400CB00000000000000000000000000u128, 0x2400CB00FFFFFFFFFFFFFFFFFFFFFFFFu128),
        // 2606:4700::/32
        (0x26064700000000000000000000000000u128, 0x26064700FFFFFFFFFFFFFFFFFFFFFFFFu128),
        // 2803:f800::/32
        (0x2803F800000000000000000000000000u128, 0x2803F800FFFFFFFFFFFFFFFFFFFFFFFFu128),
        // 2405:b500::/32
        (0x2405B500000000000000000000000000u128, 0x2405B500FFFFFFFFFFFFFFFFFFFFFFFFu128),
        // 2405:8100::/32
        (0x24058100000000000000000000000000u128, 0x24058100FFFFFFFFFFFFFFFFFFFFFFFFu128),
        // 2a06:98c0::/29
        (0x2A0698C0000000000000000000000000u128, 0x2A0698C7FFFFFFFFFFFFFFFFFFFFFFFFu128),
        // 2c0f:f248::/32
        (0x2C0FF248000000000000000000000000u128, 0x2C0FF248FFFFFFFFFFFFFFFFFFFFFFFFu128),
    ]
}

/// Whether `value` lies in one of `ranges`.
pub open spec fn covers(ranges: Seq<(u128, u128)>, value: u128) -> bool {
    exists|i: int| 0 <= i < ranges.len() && (#[trigger] ranges[i]).0 <= value <= ranges[i].1
}

/// Whether `ip` names no host of the public internet.
pub open spec fn is_private(ip: IpAddress) -> bool {
    match ip {
        IpAddress::V4(a) => covers(reserved_v4(), a as u128),
        IpAddress::V6(a) => covers(reserved_v6(), a),
    }
}

/// Whether `ip` belongs to the reverse proxy.
pub open spec fn is_proxy(ip: IpAddress) -> bool {
    match ip {
        IpAddress::V4(a) => covers(proxy_v4(), a as u128),
        IpAddress::V6(a) => covers(proxy_v6(), a),
    }
}

/// Those of `addresses` that are public and not the reverse proxy's, in
/// their order.
pub open spec fn public_only(addresses: Seq<IpAddress>) -> Seq<IpAddress>
    decreases addresses.len(),
{
    if addresses.len() == 0 {
        Seq::empty()
    } else if is_private(addresses.last()) || is_proxy(addresses.last()) {
        public_only(addresses.drop_last())
    } else {
        public_only(addresses.drop_last()).push(addresses.last())
    }
}

/// Whether `value` lies in one of `ranges`.
fn in_ranges(ranges: &Vec<(u128, u128)>, value: u128) -> (r: bool)
    ensures
        r == covers(ranges@, value),
{
    let mut i: usize = 0;
    while i < ranges.len()
        invariant
            i <= ranges.len(),
            forall|j: int| 0 <= j < i ==> !((#[trigger] ranges@[j]).0 <= value <= ranges@[j].1),
        decreases ranges.len() - i,
    {
        if ranges[i].0 <= value && value <= ranges[i].1 {
            return true;
        }
        i += 1;
    }
    false
}

/// Whether `ip` names no host of the public internet: it is private, the
/// loopback, link-local, unspecified, the broadcast address, kept for
/// documentation or multicast; or, of an IPv6 address, the loopback,
/// multicast, unspecified, link-local unicast or unique local.
pub fn is_private_ip(ip: IpAddress) -> (r: bool)
    ensures
        r == is_private(ip),
{
    match ip {
        IpAddress::V4(a) => {
            let ranges = vec![
        // 10.0.0.0/8, private
        (0x0A000000u128, 0x0AFFFFFFu128),
        // 172.16.0.0/12, private
        (0xAC100000u128, 0xAC1FFFFFu128),
        // 192.168.0.0/16, private
        (0xC0A80000u128, 0xC0A8FFFFu128),
        // 127.0.0.0/8, loopback
        (0x7F000000u128, 0x7FFFFFFFu128),
        // 169.254.0.0/16, link-local
        (0xA9FE0000u128, 0xA9FEFFFFu128),
        // 0.0.0.0/32, unspecified
        (0x00000000u128, 0x00000000u128),
        // 255.255.255.255/32, broadcast
        (0xFFFFFFFFu128, 0xFFFFFFFFu128),
        // 192.0.2.0/24, documentation
        (0xC0000200u128, 0xC00002FFu128),
        // 198.51.100.0/24, documentation
        (0xC6336400u128, 0xC63364FFu128),
        // 203.0.113.0/24, documentation
        (0xCB007100u128, 0xCB0071FFu128),
        // 224.0.0.0/4, multicast
        (0xE0000000u128, 0xEFFFFFFFu128),
            ];
            assert(ranges@ =~= reserved_v4());
            in_ranges(&ranges, a as u128)
        },
        IpAddress::V6(a) => {
            let ranges = vec![
        // ::1/128, loopback
        (0x00000000000000000000000000000001u128, 0x00000000000000000000000000000001u128),
        // ff00::/8, multicast
        (0xFF000000000000000000000000000000u128, 0xFFFFFFFFFFFFFFFFFFFFFFFFFFFFFFFFu128),
        // ::/128, unspecified
        (0x00000000000000000000000000000000u128, 0x00000000000000000000000000000000u128),
        // fe80::/10, link-local unicast
        (0xFE800000000000000000000000000000u128, 0xFEBFFFFFFFFFFFFFFFFFFFFFFFFFFFFFu128),
        // fc00::/7, unique local
        (0xFC000000000000000000000000000000u128, 0xFDFFFFFFFFFFFFFFFFFFFFFFFFFFFFFFu128),
            ];
            assert(ranges@ =~= reserved_v6());
            in_ranges(&ranges, a)
        },
    }
}

/// Whether `ip` belongs to the reverse proxy.
pub fn is_in_blocked_ranges(ip: IpAddress) -> (r: bool)
    ensures
        r == is_proxy(ip),
{
    match ip {
        IpAddress::V4(a) => {
            let ranges = vec![
        // 173.245.48.0/20
        (0xADF53000u128, 0xADF53FFFu128),
        // 103.21.244.0/22
        (0x6715F400u128, 0x6715F7FFu128),
        // 103.22.200.0/22
        (0x6716C800u128, 0x6716CBFFu128),
        // 103.31.4.0/22
        (0x671F0400u128, 0x671F07FFu128),
        // 141.101.64.0/18
        (0x8D654000u128, 0x8D657FFFu128),
        // 108.162.192.0/18
        (0x6CA2C000u128, 0x6CA2FFFFu128),
        // 190.93.240.0/20
        (0xBE5DF000u128, 0xBE5DFFFFu128),
        // 188.114.96.0/20
        (0xBC726000u128, 0xBC726FFFu128),
        // 197.234.240.0/22
        (0xC5EAF000u128, 0xC5EAF3FFu128),
        // 198.41.128.0/17
        (0xC6298000u128, 0xC629FFFFu128),
        // 162.158.0.0/15
        (0xA29E0000u128, 0xA29FFFFFu128),
        // 104.16.0.0/13
        (0x68100000u128, 0x6817FFFFu128),
        // 104.24.0.0/14
        (0x68180000u128, 0x681BFFFFu128),
        // 172.64.0.0/13
        (0xAC400000u128, 0xAC47FFFFu128),
        // 131.0.72.0/22
        (0x83004800u128, 0x83004BFFu128),
            ];
            assert(ranges@ =~= proxy_v4());
            in_ranges(&ranges, a as u128)
        },
        IpAddress::V6(a) => {
            let ranges = vec![
        // 2400:cb00::/32
        (0x2400CB00000000000000000000000000u128, 0x2400CB00FFFFFFFFFFFFFFFFFFFFFFFFu128),
        // 2606:4700::/32
        (0x26064700000000000000000000000000u128, 0x26064700FFFFFFFFFFFFFFFFFFFFFFFFu128),
        // 2803:f800::/32
        (0x2803F800000000000000000000000000u128, 0x2803F800FFFFFFFFFFFFFFFFFFFFFFFFu128),
        // 2405:b500::/32
        (0x2405B500000000000000000000000000u128, 0x2405B500FFFFFFFFFFFFFFFFFFFFFFFFu128),
        // 2405:8100::/32
        (0x24058100000000000000000000000000u128, 0x24058100FFFFFFFFFFFFFFFFFFFFFFFFu128),
        // 2a06:98c0::/29
        (0x2A0698C0000000000000000000000000u128, 0x2A0698C7FFFFFFFFFFFFFFFFFFFFFFFFu128),
        // 2c0f:f248::/32
        (0x2C0FF248000000000000000000000000u128, 0x2C0FF248FFFFFFFFFFFFFFFFFFFFFFFFu128),
            ];
            assert(ranges@ =~= proxy_v6());
            in_ranges(&ranges, a)
        },
    }
}

/// Adds to `out` those of `addresses` that are public and not the reverse
/// proxy's.
fn keep_public(out: &mut Vec<IpAddress>, addresses: &Vec<IpAddress>)
    ensures
        final(out)@ == old(out)@ + public_only(addresses@),
{
    let mut i: usize = 0;
    assert(addresses@.take(0) =~= Seq::<IpAddress>::empty());
    assert(out@ + Seq::<IpAddress>::empty() =~= out@);
    while i < addresses.len()
        invariant
            i <= addresses.len(),
            out@ == old(out)@ + public_only(addresses@.take(i as int)),
        decreases addresses.len() - i,
    {
        let ghost upto = addresses@.take(i + 1);
        assert(upto.drop_last() =~= addresses@.take(i as int));
        assert(upto.last() == addresses@[i as int]);
        let ip = addresses[i];
        if !is_private_ip(ip) && !is_in_blocked_ranges(ip) {
            out.push(ip);
        }
        assert(out@ =~= old(out)@ + public_only(upto));
        i += 1;
    }
    assert(addresses@.take(i as int) =~= addresses@);
}

/// The addresses that a request names as its sender's, by the header they
/// were found in, put in one list: first those of `cf-connecting-ip` and
/// `cf-connecting-ipv6`, then those of `x-forwarded-for`, `forwarded` and
/// `x-real-ip`. Addresses that are not public, or are the reverse proxy's,
/// are left out.
pub fn extract_ip_address(
    cf_connecting_ip: &Vec<IpAddress>,
    cf_connecting_ipv6: &Vec<IpAddress>,
    x_forwarded_for: &Vec<IpAddress>,
    forwarded: &Vec<IpAddress>,
    x_real_ip: &Vec<IpAddress>,
) -> (r: Vec<IpAddress>)
    ensures
        r@ == public_only(
            cf_connecting_ip@ + cf_connecting_ipv6@ + x_forwarded_for@ + forwarded@ + x_real_ip@,
        ),
{
    let mut r: Vec<IpAddress> = Vec::new();
    keep_public(&mut r, cf_connecting_ip);
    keep_public(&mut r, cf_connecting_ipv6);
    keep_public(&mut r, x_forwarded_for);
    keep_public(&mut r, forwarded);
    keep_public(&mut r, x_real_ip);
    proof {
        let a = cf_connecting_ip@;
        let b = a + cf_connecting_ipv6@;
        let c = b + x_forwarded_for@;
        let d = c + forwarded@;
        lemma_public_only_of_joined(a, cf_connecting_ipv6@);
        lemma_public_only_of_joined(b, x_forwarded_for@);
        lemma_public_only_of_joined(c, forwarded@);
        lemma_public_only_of_joined(d, x_real_ip@);
        assert(Seq::<IpAddress>::empty() + public_only(a) =~= public_only(a));
    }
    r
}

/// Leaving addresses out goes list by list: what is kept of two lists put
/// together is what is kept of the first, followed by what is kept of the
/// second.
pub proof fn lemma_public_only_of_joined(a: Seq<IpAddress>, b: Seq<IpAddress>)
    ensures
        public_only(a + b) == public_only(a) + public_only(b),
    decreases b.len(),
{
    if b.len() == 0 {
        assert(a + b =~= a);
        assert(public_only(a) + public_only(b) =~= public_only(a));
    } else {
        assert((a + b).drop_last() =~= a + b.drop_last());
        assert((a + b).last() == b.last());
        lemma_public_only_of_joined(a, b.drop_last());
        assert(public_only(a + b) =~= public_only(a) + public_only(b));
    }
}

} // verus!
