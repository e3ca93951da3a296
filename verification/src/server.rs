//! What starting a share computes: its password hash, its mDNS address, and
//! what the desktop app shows about it.
use vstd::prelude::*;

use crate::auth::{is_password_hash, password_hash_for, stored_password_hash};
use crate::mdns::{mdns_hostname, MdnsPublisher};
use crate::portal::opt_view;
use crate::text::{decimal, u64_to_decimal};

verus! {

/// What starting a share reports.
#[derive(Debug, PartialEq, Eq)]
pub struct StartServerResult {
    /// The password hash, empty for a share without password.
    pub password_hash: String,
    /// The share's address under its mDNS host name.
    pub mdns_url: String,
}

/// The host label asked for when none is chosen.
pub const DEFAULT_MDNS_HOST: &'static str = "thlauh";

/// `http://<host>:<port>`.
pub open spec fn http_url(host: Seq<char>, port: nat) -> Seq<char> {
    "http://"@ + host + ":"@ + decimal(port)
}

/// Writes `http://<host>:<port>`.
pub fn http_url_for(host: &str, port: u16) -> (u: String)
    ensures
        u@ == http_url(host@, port as nat),
{
    let mut u = "http://".to_string();
    u.append(host);
    u.append(":");
    u.append(u64_to_decimal(port as u64).as_str());
    u
}

/// `<host>:<port>`, the address the server listens on.
pub fn listen_address(host_address: &str, port: u16) -> (a: String)
    ensures
        a@ == host_address@ + ":"@ + decimal(port as nat),
{
    let mut a = host_address.to_string();
    a.append(":");
    a.append(u64_to_decimal(port as u64).as_str());
    a
}

/// The host label requested for a share: the chosen one, or `thlauh`.
pub open spec fn requested_host(custom_mdns_host: Option<Seq<char>>) -> Seq<char> {
    match custom_mdns_host {
        Some(h) => h,
        None => DEFAULT_MDNS_HOST@,
    }
}

/// Publishes a share over mDNS, in place of any share published before, and
/// computes what starting it reports: the hash of a non-empty password (empty
/// otherwise) and the share's URL under its mDNS host name.
pub fn prepare_start(
    publisher: &mut MdnsPublisher,
    host_address: &str,
    port: u16,
    password: Option<&str>,
    custom_mdns_host: Option<&str>,
) -> (r: StartServerResult)
    ensures
        r.password_hash@ == stored_password_hash(opt_view(password)),
        r.password_hash@.len() == 0 || is_password_hash(r.password_hash@),
        r.mdns_url@ == http_url(
            mdns_hostname(requested_host(opt_view(custom_mdns_host))),
            port as nat,
        ),
        MdnsPublisher::publishes(
            *old(publisher),
            *final(publisher),
            requested_host(opt_view(custom_mdns_host)),
            host_address@,
            port,
        ),
{
    let password_hash = password_hash_for(password);
    let host = match custom_mdns_host {
        Some(h) => h,
        None => DEFAULT_MDNS_HOST,
    };
    let mdns_host = publisher.publish_service(host, host_address, port);
    let mdns_url = http_url_for(mdns_host.as_str(), port);
    StartServerResult { password_hash, mdns_url }
}

/// What the desktop app shows about a running share.
#[derive(Debug, PartialEq, Eq)]
pub struct ServerInfo {
    /// The shared folder.
    pub path: String,
    /// The share's address under the chosen IP.
    pub server_url: String,
    /// The share's address under its mDNS host name.
    pub mdns_url: String,
    /// The password hash, when the share has a password.
    pub password_hash: Option<String>,
}

/// The port the desktop app starts shares on.
pub const SHARE_PORT: u16 = 4000;

/// Describes a started share for the desktop app: its folder, its URLs, and
/// its password hash when it has one.
pub fn server_info(folder_path: &str, chosen_ip: &str, result: StartServerResult) -> (i: ServerInfo)
    ensures
        i.path@ == folder_path@,
        i.server_url@ == http_url(chosen_ip@, SHARE_PORT as nat),
        i.mdns_url@ == result.mdns_url@,
        result.password_hash@.len() == 0 ==> i.password_hash is None,
        result.password_hash@.len() > 0 ==> (i.password_hash matches Some(h) && h@
            == result.password_hash@),
{
    let password_hash = if result.password_hash.as_str().is_empty() {
        None
    } else {
        Some(result.password_hash)
    };
    ServerInfo {
        path: folder_path.to_string(),
        server_url: http_url_for(chosen_ip, SHARE_PORT),
        mdns_url: result.mdns_url,
        password_hash,
    }
}

} // verus!
