//! Publishing the share on the local network as `<host>.local` over mDNS.
use vstd::prelude::*;

use crate::text::{chars_of, is_whitespace, lemma_trim_ends, lemma_trim_identity, string_of_range, trim, trim_range};

verus! {

/// The mDNS responder of the `mdns-sd` crate.
#[verifier::external_type_specification]
#[verifier::external_body]
pub struct ExServiceDaemon(mdns_sd::ServiceDaemon);

/// A service description of the `mdns-sd` crate.
#[verifier::external_type_specification]
#[verifier::external_body]
pub struct ExServiceInfo(mdns_sd::ServiceInfo);

/// The error type of the `mdns-sd` crate.
#[verifier::external_type_specification]
#[verifier::external_body]
pub struct ExMdnsError(mdns_sd::Error);

// ─── Responder ────────────────────────────────────────────────────────

/// What a service was described with when it was made: its type, instance
/// name, host name, address text and port.
pub struct ServiceDescription {
    pub service_type: Seq<char>,
    pub instance_name: Seq<char>,
    pub host_name: Seq<char>,
    pub address: Seq<char>,
    pub port: u16,
}

/// A request made of an mDNS responder.
pub enum MdnsRequest {
    /// Announce the service so described.
    Register(ServiceDescription),
    /// Withdraw the service of this full name.
    Unregister(Seq<char>),
    /// Stop the responder.
    Shutdown,
}

/// A running mDNS responder, with the requests made of it so far, in order.
/// Whether the responder accepted each request is not recorded.
pub struct Responder {
    daemon: mdns_sd::ServiceDaemon,
    log: Ghost<Seq<MdnsRequest>>,
}

impl Responder {
    /// The requests made of this responder, oldest first.
    pub closed spec fn requests(&self) -> Seq<MdnsRequest> {
        self.log@
    }
}

/// A service, ready to be announced, with what it was described with.
pub struct Service {
    info: mdns_sd::ServiceInfo,
    described: Ghost<ServiceDescription>,
}

impl Service {
    /// What the service was described with.
    pub closed spec fn description(&self) -> ServiceDescription {
        self.described@
    }
}

/// `ServiceDaemon::new`: starts a responder thread. Whether it starts depends
/// on the machine (a poller, a thread), so the outcome is left free; a
/// responder that starts has had no requests.
#[verifier::external_body]
fn start_responder() -> (r: Result<Responder, mdns_sd::Error>)
    ensures
        r matches Ok(d) ==> d.requests() == Seq::<MdnsRequest>::empty(),
{
    match mdns_sd::ServiceDaemon::new() {
        Ok(daemon) => Ok(Responder { daemon, log: Ghost(Seq::empty()) }),
        Err(e) => Err(e),
    }
}

/// Whether `ServiceInfo::new` accepts an address text: it is empty, or each
/// of its `,`-separated pieces, trimmed, parses as an IPv4 or IPv6 address.
pub uninterp spec fn address_list_parses(text: Seq<char>) -> bool;

/// `ServiceInfo::new` for a web service without TXT properties, its address
/// given as text. The service keeps what it was described with. Without TXT
/// properties the only way it fails is an address text that does not parse;
/// that parse is named, not written out. Only the web service type is
/// admitted: `register` reads the service name out of the full name and
/// would panic on a type whose last label is empty.
#[verifier::external_body]
fn new_service(
    service_type: &str,
    instance_name: &str,
    host_name: &str,
    host_address: &str,
    port: u16,
) -> (r: Result<Service, mdns_sd::Error>)
    requires
        service_type@ == HTTP_SERVICE_TYPE@,
    ensures
        r is Ok <==> address_list_parses(host_address@),
        r matches Ok(s) ==> s.description() == (ServiceDescription {
            service_type: service_type@,
            instance_name: instance_name@,
            host_name: host_name@,
            address: host_address@,
            port,
        }),
{
    let described = Ghost(ServiceDescription {
        service_type: service_type@,
        instance_name: instance_name@,
        host_name: host_name@,
        address: host_address@,
        port,
    });
    let no_properties = None::<std::collections::HashMap<String, String>>;
    match mdns_sd::ServiceInfo::new(service_type, instance_name, host_name, host_address, port, no_properties) {
        Ok(info) => Ok(Service { info, described }),
        Err(e) => Err(e),
    }
}

/// An instance name as it stands in a full service name: each `.` and `\`
/// preceded by a `\`.
pub open spec fn escape_instance_name(name: Seq<char>) -> Seq<char>
    decreases name.len(),
{
    if name.len() == 0 {
        seq![]
    } else {
        let c = name[0];
        let head = if c == '.' || c == '\\' {
            seq!['\\', c]
        } else {
            seq![c]
        };
        head + escape_instance_name(name.drop_first())
    }
}

/// The full name a service of this description is registered under: the
/// escaped instance name, `.`, and the service type (for a type without a
/// `._sub.` subtype part).
pub open spec fn service_full_name(d: ServiceDescription) -> Seq<char> {
    escape_instance_name(d.instance_name) + "."@ + d.service_type
}

/// `ServiceInfo::get_fullname`: the name the service is registered under,
/// which `ServiceInfo::new` builds from the escaped instance name and the
/// service type.
#[verifier::external_body]
fn service_fullname(service: &Service) -> (name: String)
    ensures
        service.description().service_type == HTTP_SERVICE_TYPE@ ==> name@ == service_full_name(
            service.description(),
        ),
{
    service.info.get_fullname().to_string()
}

/// `ServiceDaemon::register`: asks the responder to announce the service.
/// The request is recorded; whether it is accepted (it is refused on an
/// invalid name or a full command queue) is not stated.
#[verifier::external_body]
fn register_service(responder: &mut Responder, service: Service) -> (r: Result<(), mdns_sd::Error>)
    ensures
        final(responder).requests() == old(responder).requests().push(
            MdnsRequest::Register(service.description()),
        ),
{
    responder.daemon.register(service.info)
}

/// `ServiceDaemon::unregister`: asks the responder to withdraw the service of
/// a full name. The request is recorded; the status channel it returns is
/// not waited on.
#[verifier::external_body]
fn unregister_service(responder: &mut Responder, fullname: &str)
    ensures
        final(responder).requests() == old(responder).requests().push(
            MdnsRequest::Unregister(fullname@),
        ),
{
    let _ = responder.daemon.unregister(fullname);
}

/// `ServiceDaemon::shutdown`: asks the responder thread to exit. The request
/// is recorded; the status channel it returns is not waited on.
#[verifier::external_body]
fn shutdown_responder(responder: &mut Responder)
    ensures
        final(responder).requests() == old(responder).requests().push(MdnsRequest::Shutdown),
{
    let _ = responder.daemon.shutdown();
}

// ─── Host names ───────────────────────────────────────────────────────

/// `c` with ASCII uppercase letters lowered.
pub open spec fn ascii_lower(c: char) -> char {
    if 'A' <= c <= 'Z' {
        ((c as u32) + 32) as char
    } else {
        c
    }
}

/// `s` ends in `.local`, letters in any case. (Lowercasing `s` with Unicode
/// case mapping and testing for the suffix decides the same: no other
/// character lowercases to the characters of `.local`.)
pub open spec fn ends_with_local(s: Seq<char>) -> bool {
    &&& s.len() >= 6
    &&& ascii_lower(s[s.len() - 6]) == '.'
    &&& ascii_lower(s[s.len() - 5]) == 'l'
    &&& ascii_lower(s[s.len() - 4]) == 'o'
    &&& ascii_lower(s[s.len() - 3]) == 'c'
    &&& ascii_lower(s[s.len() - 2]) == 'a'
    &&& ascii_lower(s[s.len() - 1]) == 'l'
}

/// The host label a share is published under: the requested name trimmed,
/// `thlauh` when that leaves nothing, and without a trailing `.local`.
pub open spec fn clean_host(hostname: Seq<char>) -> Seq<char> {
    let t = trim(hostname);
    let h = if t.len() == 0 {
        "thlauh"@
    } else {
        t
    };
    if ends_with_local(h) {
        h.take(h.len() - 6)
    } else {
        h
    }
}

/// The mDNS host name of a share: its host label followed by `.local`.
pub open spec fn mdns_hostname(hostname: Seq<char>) -> Seq<char> {
    clean_host(hostname) + ".local"@
}

/// Lowers an ASCII uppercase letter.
fn ascii_lower_exec(c: char) -> (r: char)
    ensures
        r == ascii_lower(c),
{
    if 'A' <= c && c <= 'Z' {
        ((c as u32) + 32) as u8 as char
    } else {
        c
    }
}

/// Computes the host label a share is published under.
pub fn clean_hostname(hostname: &str) -> (r: String)
    ensures
        r@ == clean_host(hostname@),
{
    let c = chars_of(hostname);
    let (lo, hi) = trim_range(&c, 0, c.len());
    assert(c@.subrange(0, c@.len() as int) =~= hostname@);
    let h: Vec<char> = if lo == hi {
        proof {
            reveal_strlit("thlauh");
        }
        chars_of("thlauh")
    } else {
        let mut v: Vec<char> = Vec::new();
        let mut i = lo;
        while i < hi
            invariant
                lo <= i <= hi <= c@.len(),
                v@ == c@.subrange(lo as int, i as int),
            decreases hi - i,
        {
            v.push(c[i]);
            i = i + 1;
        }
        v
    };
    let n = h.len();
    if n >= 6 && ascii_lower_exec(h[n - 6]) == '.' && ascii_lower_exec(h[n - 5]) == 'l'
        && ascii_lower_exec(h[n - 4]) == 'o' && ascii_lower_exec(h[n - 3]) == 'c'
        && ascii_lower_exec(h[n - 2]) == 'a' && ascii_lower_exec(h[n - 1]) == 'l' {
        string_of_range(&h, 0, n - 6)
    } else {
        assert(h@.subrange(0, n as int) =~= h@);
        string_of_range(&h, 0, n)
    }
}

/// Asking for a share's mDNS host name publishes that same name: the host
/// label of `<label>.local` is `<label>` again.
pub proof fn law_mdns_hostname_stable(hostname: Seq<char>)
    ensures
        mdns_hostname(mdns_hostname(hostname)) == mdns_hostname(hostname),
{
    reveal_strlit("thlauh");
    reveal_strlit(".local");
    let t = trim(hostname);
    lemma_trim_ends(hostname);
    let h = if t.len() == 0 {
        "thlauh"@
    } else {
        t
    };
    assert(h.len() > 0 && !is_whitespace(h[0]));
    let c = clean_host(hostname);
    let y = c + ".local"@;
    assert(y.len() == c.len() + 6);
    assert(c.len() > 0 ==> c[0] == h[0]);
    assert(!is_whitespace(y[0]));
    assert(y.last() == 'l');
    lemma_trim_identity(y);
    assert(ends_with_local(y));
    assert(y.take(y.len() - 6) =~= c);
}

/// The service type of a web server announced over mDNS.
pub const HTTP_SERVICE_TYPE: &'static str = "_http._tcp.local.";

// ─── Publisher ────────────────────────────────────────────────────────

/// The service a share is published as: a web service named after the
/// share's host label, on the host `<label>.local.`, at the given address and
/// port.
pub open spec fn share_service(hostname: Seq<char>, host_address: Seq<char>, port: u16) -> ServiceDescription {
    ServiceDescription {
        service_type: HTTP_SERVICE_TYPE@,
        instance_name: clean_host(hostname),
        host_name: mdns_hostname(hostname) + "."@,
        address: host_address,
        port,
    }
}

/// A running responder and the full name of the service it announces.
struct Announcement {
    responder: Responder,
    fullname: String,
    service: Ghost<ServiceDescription>,
}

/// Publishes at most one share at a time, each on a responder of its own.
pub struct MdnsPublisher {
    state: Option<Announcement>,
    retired: Ghost<Seq<Seq<MdnsRequest>>>,
}

impl MdnsPublisher {
    /// A service is being announced.
    pub closed spec fn active(&self) -> bool {
        self.state is Some
    }

    /// The requests made of the running responder, when a service is
    /// announced.
    pub closed spec fn requests(&self) -> Seq<MdnsRequest> {
        self.state->0.responder.requests()
    }

    /// The service announced, when one is.
    pub closed spec fn service(&self) -> ServiceDescription {
        self.state->0.service@
    }

    /// The full name of the service announced, when one is.
    pub closed spec fn fullname(&self) -> Seq<char> {
        self.state->0.fullname@
    }

    /// The requests made of each responder this publisher has shut down, in
    /// the order they were shut down.
    pub closed spec fn retired(&self) -> Seq<Seq<MdnsRequest>> {
        self.retired@
    }

    /// The shut-down responders' requests once the announced service, if
    /// any, is withdrawn: its responder was asked to unregister it under its
    /// full name and then to shut down.
    pub open spec fn retired_after_unpublish(&self) -> Seq<Seq<MdnsRequest>> {
        if self.active() {
            self.retired().push(
                self.requests().push(MdnsRequest::Unregister(self.fullname())).push(
                    MdnsRequest::Shutdown,
                ),
            )
        } else {
            self.retired()
        }
    }

    /// `after` is `before` once the share `hostname` was published at
    /// `host_address:port`: any earlier service was withdrawn and its
    /// responder shut down; when a service is announced, it is the share's
    /// web service, under the full name made of its escaped host label and
    /// the service type, on a fresh responder that was asked to register it
    /// and nothing else. A service is announced only when `host_address`
    /// parses as a list of IP addresses.
    pub open spec fn publishes(
        before: MdnsPublisher,
        after: MdnsPublisher,
        hostname: Seq<char>,
        host_address: Seq<char>,
        port: u16,
    ) -> bool {
        &&& after.retired() == before.retired_after_unpublish()
        &&& after.active() ==> {
            &&& address_list_parses(host_address)
            &&& after.service() == share_service(hostname, host_address, port)
            &&& after.fullname() == escape_instance_name(clean_host(hostname)) + "."@
                + HTTP_SERVICE_TYPE@
            &&& after.requests() == seq![MdnsRequest::Register(after.service())]
        }
    }

    /// A publisher that announces nothing and has run no responder.
    pub fn new() -> (p: Self)
        ensures
            !p.active(),
            p.retired() == Seq::<Seq<MdnsRequest>>::empty(),
    {
        MdnsPublisher { state: None, retired: Ghost(Seq::empty()) }
    }

    /// Whether a service is being announced.
    pub fn is_publishing(&self) -> (b: bool)
        ensures
            b == self.active(),
    {
        self.state.is_some()
    }

    /// Unpublishes (stops) the announced service, if any: asks its responder
    /// to withdraw it under its full name, then to shut down. Without an
    /// announced service no responder is asked anything.
    pub fn unpublish_service(&mut self)
        ensures
            !final(self).active(),
            final(self).retired() == old(self).retired_after_unpublish(),
    {
        let state = self.state.take();
        if let Some(a) = state {
            let mut responder = a.responder;
            unregister_service(&mut responder, a.fullname.as_str());
            shutdown_responder(&mut responder);
            proof {
                self.retired@ = self.retired@.push(responder.requests());
            }
        }
    }

    /// Publishes an HTTP service so the share is discoverable as
    /// `<host>.local`, after unpublishing any earlier one, and returns that
    /// host name. The host name is returned whether or not a responder could
    /// be started and the service described; the publisher announces the
    /// service exactly when both were.
    pub fn publish_service(&mut self, hostname: &str, host_address: &str, port: u16) -> (r: String)
        ensures
            r@ == mdns_hostname(hostname@),
            Self::publishes(*old(self), *final(self), hostname@, host_address@, port),
    {
        let clean_host = clean_hostname(hostname);
        let mut mdns_host = clean_host.clone();
        mdns_host.append(".local");
        self.unpublish_service();
        let responder = match start_responder() {
            Ok(d) => d,
            Err(_) => return mdns_host,
        };
        let mut host_fqdn = mdns_host.clone();
        host_fqdn.append(".");
        let service = new_service(
            HTTP_SERVICE_TYPE,
            clean_host.as_str(),
            host_fqdn.as_str(),
            host_address,
            port,
        );
        self.install(responder, service);
        mdns_host
    }

    /// Announces `service` on a freshly started `responder` when the service
    /// could be made: the responder is asked to register it and kept, with
    /// the service's full name. When the service could not be made nothing is
    /// announced and the responder is dropped.
    fn install(&mut self, responder: Responder, service: Result<Service, mdns_sd::Error>)
        requires
            !old(self).active(),
            responder.requests() == Seq::<MdnsRequest>::empty(),
            service matches Ok(s) ==> s.description().service_type == HTTP_SERVICE_TYPE@,
        ensures
            final(self).retired() == old(self).retired(),
            final(self).active() == service is Ok,
            service matches Ok(s) ==> {
                &&& final(self).service() == s.description()
                &&& final(self).fullname() == service_full_name(s.description())
                &&& final(self).requests() == seq![MdnsRequest::Register(s.description())]
            },
    {
        let mut responder = responder;
        match service {
            Ok(s) => {
                let fullname = service_fullname(&s);
                let ghost described = s.description();
                let _ = register_service(&mut responder, s);
                self.state = Some(Announcement { responder, fullname, service: Ghost(described) });
            },
            Err(_) => {},
        }
    }
}

/// A published share's service is registered under the host name that
/// publishing returns followed by a `.`: a fully qualified name ending in
/// `.local.`, the form `mdns-sd` accepts for registration.
pub proof fn law_registered_host_is_qualified(
    before: MdnsPublisher,
    after: MdnsPublisher,
    hostname: Seq<char>,
    host_address: Seq<char>,
    port: u16,
)
    requires
        MdnsPublisher::publishes(before, after, hostname, host_address, port),
        after.active(),
    ensures
        after.service().host_name == mdns_hostname(hostname) + "."@,
        after.service().host_name.len() >= 7,
        after.service().host_name.skip(after.service().host_name.len() - 7) == ".local."@,
        after.requests() == seq![MdnsRequest::Register(after.service())],
{
    reveal_strlit(".local");
    reveal_strlit(".");
    reveal_strlit(".local.");
    let h = after.service().host_name;
    assert(h.skip(h.len() - 7) =~= ".local."@);
}

/// Unpublishing twice has the effect of unpublishing once: the second call
/// asks no responder anything.
pub proof fn law_unpublish_twice(first: MdnsPublisher, once: MdnsPublisher, twice: MdnsPublisher)
    requires
        !once.active(),
        once.retired() == first.retired_after_unpublish(),
        !twice.active(),
        twice.retired() == once.retired_after_unpublish(),
    ensures
        twice.retired() == once.retired(),
{
}

/// Publishing a share in place of an announced one withdraws the earlier
/// service first: its responder, which had been asked only to register it, is
/// asked to unregister it under its full name and then to shut down.
pub proof fn law_republish_withdraws_earlier(
    before: MdnsPublisher,
    first: MdnsPublisher,
    second: MdnsPublisher,
    hostname: Seq<char>,
    host_address: Seq<char>,
    port: u16,
    next_hostname: Seq<char>,
    next_address: Seq<char>,
    next_port: u16,
)
    requires
        MdnsPublisher::publishes(before, first, hostname, host_address, port),
        first.active(),
        MdnsPublisher::publishes(first, second, next_hostname, next_address, next_port),
    ensures
        second.retired() == before.retired_after_unpublish().push(
            seq![
                MdnsRequest::Register(share_service(hostname, host_address, port)),
                MdnsRequest::Unregister(
                    escape_instance_name(clean_host(hostname)) + "."@ + HTTP_SERVICE_TYPE@,
                ),
                MdnsRequest::Shutdown,
            ],
        ),
{
    assert(first.requests().push(MdnsRequest::Unregister(first.fullname())).push(
        MdnsRequest::Shutdown,
    ) =~= seq![
        MdnsRequest::Register(share_service(hostname, host_address, port)),
        MdnsRequest::Unregister(first.fullname()),
        MdnsRequest::Shutdown,
    ]);
}

} // verus!
