//! How the hook meets a new peer.
use vstd::prelude::*;

use crate::client;
use crate::client::{AuthOnRegisterRequest, AuthOnRegisterResponse, CallOutcome, HookClient};
use crate::error;
use crate::error::HookError;
use crate::interceptor;
use crate::interceptor::{GrpcHookEgressInterceptor, GrpcHookInterceptor, PeerMeta};
use crate::rewrite;
use crate::rewrite::ReverseRewriteTable;

verus! {

/// What a link tells of the peer at its other end. A common name comes with a certificate.
#[derive(Debug, PartialEq, Eq)]
pub enum LinkAuthId {
    Tls(Option<String>),
    Quic(Option<String>),
    Tcp,
    Udp,
    Serial,
    Unixpipe,
    UnixsockStream,
    Vsock,
    Ws,
}

/// The label of a kind of link.
pub open spec fn protocol_label(link: LinkAuthId) -> Seq<char> {
    match link {
        LinkAuthId::Tls(_) => "tls"@,
        LinkAuthId::Quic(_) => "quic"@,
        LinkAuthId::Tcp => "tcp"@,
        LinkAuthId::Udp => "udp"@,
        LinkAuthId::Serial => "serial"@,
        LinkAuthId::Unixpipe => "unixpipe"@,
        LinkAuthId::UnixsockStream => "unixsock_stream"@,
        LinkAuthId::Vsock => "vsock"@,
        LinkAuthId::Ws => "ws"@,
    }
}

/// The text in `s`, or the empty text.
pub open spec fn string_or_empty(s: Option<String>) -> Seq<char> {
    match s {
        Some(s) => s@,
        None => Seq::empty(),
    }
}

/// The protocol of the last link; nothing without a link.
pub open spec fn link_protocol_of(links: Seq<LinkAuthId>) -> Seq<char> {
    if links.len() == 0 {
        Seq::empty()
    } else {
        protocol_label(links.last())
    }
}

/// The common name on the last link that has certificates; nothing without such a link.
pub open spec fn cert_cn_of(links: Seq<LinkAuthId>) -> Seq<char>
    decreases links.len(),
{
    if links.len() == 0 {
        Seq::empty()
    } else {
        match links.last() {
            LinkAuthId::Tls(cn) => string_or_empty(cn),
            LinkAuthId::Quic(cn) => string_or_empty(cn),
            _ => cert_cn_of(links.drop_last()),
        }
    }
}

/// The common name is that of the last link with a certificate, whatever comes behind that link;
/// without such a link, and where that link has none, it is empty.
pub proof fn lemma_cert_cn(links: Seq<LinkAuthId>)
    ensures
        forall|i: int|
            0 <= i < links.len() && (forall|j: int|
                i < j < links.len() ==> !(#[trigger] links[j] is Tls) && !(links[j] is Quic))
                ==> match #[trigger] links[i] {
                LinkAuthId::Tls(Some(cn)) => cert_cn_of(links) == cn@,
                LinkAuthId::Quic(Some(cn)) => cert_cn_of(links) == cn@,
                LinkAuthId::Tls(None) => cert_cn_of(links).len() == 0,
                LinkAuthId::Quic(None) => cert_cn_of(links).len() == 0,
                _ => true,
            },
        (forall|j: int|
            0 <= j < links.len() ==> !(#[trigger] links[j] is Tls) && !(links[j] is Quic))
            ==> cert_cn_of(links).len() == 0,
{
    assert forall|i: int|
        0 <= i < links.len() && (forall|j: int|
            i < j < links.len() ==> !(#[trigger] links[j] is Tls) && !(
            links[j] is Quic)) implies match #[trigger] links[i] {
        LinkAuthId::Tls(Some(cn)) => cert_cn_of(links) == cn@,
        LinkAuthId::Quic(Some(cn)) => cert_cn_of(links) == cn@,
        LinkAuthId::Tls(None) => cert_cn_of(links).len() == 0,
        LinkAuthId::Quic(None) => cert_cn_of(links).len() == 0,
        _ => true,
    } by {
        lemma_cert_cn_up_to(links, i + 1);
        assert(links.take(i + 1).last() == links[i]);
    }
    if forall|j: int|
        0 <= j < links.len() ==> !(#[trigger] links[j] is Tls) && !(links[j] is Quic) {
        lemma_cert_cn_up_to(links, 0);
    }
}

/// Links without certificates at the end do not change the common name.
proof fn lemma_cert_cn_up_to(links: Seq<LinkAuthId>, n: int)
    requires
        0 <= n <= links.len(),
        forall|j: int| n <= j < links.len() ==> !(#[trigger] links[j] is Tls) && !(links[j] is Quic),
    ensures
        cert_cn_of(links) == cert_cn_of(links.take(n)),
    decreases links.len() - n,
{
    if n < links.len() {
        assert(!(links[links.len() - 1] is Tls) && !(links[links.len() - 1] is Quic));
        let shorter = links.drop_last();
        assert forall|j: int| n <= j < shorter.len() implies !(#[trigger] shorter[j] is Tls) && !(
        shorter[j] is Quic) by {
            assert(shorter[j] == links[j]);
        }
        lemma_cert_cn_up_to(shorter, n);
        assert(shorter.take(n) =~= links.take(n));
    } else {
        assert(links.take(n) =~= links);
    }
}

/// What a transport tells of who the peer is.
#[derive(Debug, PartialEq, Eq)]
pub struct AuthIds {
    /// The user name of a user-and-password login.
    pub username: Option<String>,
    /// What each link tells.
    pub link_auth_ids: Vec<LinkAuthId>,
    /// The signature with which the peer met the challenge of the login.
    pub usrpwd_hmac: Option<Vec<u8>>,
    /// The challenge of the login.
    pub usrpwd_nonce: Option<u64>,
}

/// A link of a transport.
#[derive(Debug, PartialEq, Eq)]
pub struct Link {
    /// The network interfaces that the link goes over.
    pub interfaces: Vec<String>,
}

/// A transport to a single peer, by what the hook reads of it.
#[derive(Debug, PartialEq, Eq)]
pub struct TransportUnicast {
    /// The identifier of the peer in words, if the transport knows it.
    pub zid: Option<String>,
    /// Who the peer is, or why that cannot be told.
    pub auth_ids: Result<AuthIds, String>,
    /// The links, if the transport tells them.
    pub links: Option<Vec<Link>>,
}

/// The first interface of the first link; nothing where there is none.
pub open spec fn interface_of(links: Option<Vec<Link>>) -> Seq<char> {
    match links {
        Some(links) => if links@.len() > 0 && links@[0].interfaces@.len() > 0 {
            links@[0].interfaces@[0]@
        } else {
            Seq::empty()
        },
        None => Seq::empty(),
    }
}

/// What the hook is asked about a peer that told who it is.
pub open spec fn register_request(
    transport: TransportUnicast,
    ids: AuthIds,
) -> client::RegisterRequestView {
    client::RegisterRequestView {
        peer_id: string_or_empty(transport.zid),
        cert_cn: cert_cn_of(ids.link_auth_ids@),
        username: string_or_empty(ids.username),
        link_protocol: link_protocol_of(ids.link_auth_ids@),
        interface: interface_of(transport.links),
        hmac: match ids.usrpwd_hmac {
            Some(hmac) => hmac@,
            None => Seq::empty(),
        },
        nonce: match ids.usrpwd_nonce {
            Some(nonce) => nonce,
            None => 0,
        },
    }
}

/// What the request about a peer tells of it for good.
pub open spec fn meta_of(request: client::RegisterRequestView) -> interceptor::PeerMetaView {
    interceptor::PeerMetaView {
        peer_id: request.peer_id,
        username: request.username,
        cert_cn: request.cert_cn,
        link_protocol: request.link_protocol,
        interface: request.interface,
    }
}

/// What to do with a new transport.
#[derive(Debug, PartialEq, Eq)]
pub enum Registration {
    /// Open it without gates.
    Ungated,
    /// Ask the hook first.
    Ask(AuthOnRegisterRequest),
}

/// The gates of a peer, with the table that they share.
#[derive(Debug)]
pub struct Gates {
    pub ingress: GrpcHookInterceptor,
    pub egress: GrpcHookEgressInterceptor,
    pub reverse_table: ReverseRewriteTable,
}

/// The label of the kind of `link`, and the common name on it where it has certificates.
fn describe_link(link: &LinkAuthId) -> (described: (&'static str, Option<String>))
    ensures
        described.0@ == protocol_label(*link),
        link matches LinkAuthId::Tls(cn) ==> client::text_of(described.1) == Some(
            string_or_empty(*cn),
        ),
        link matches LinkAuthId::Quic(cn) ==> client::text_of(described.1) == Some(
            string_or_empty(*cn),
        ),
        !(link is Tls) && !(link is Quic) ==> described.1 is None,
{
    match link {
        LinkAuthId::Tls(cn) => ("tls", Some(or_empty(cn))),
        LinkAuthId::Quic(cn) => ("quic", Some(or_empty(cn))),
        LinkAuthId::Tcp => ("tcp", None),
        LinkAuthId::Udp => ("udp", None),
        LinkAuthId::Serial => ("serial", None),
        LinkAuthId::Unixpipe => ("unixpipe", None),
        LinkAuthId::UnixsockStream => ("unixsock_stream", None),
        LinkAuthId::Vsock => ("vsock", None),
        LinkAuthId::Ws => ("ws", None),
    }
}

/// The text in `s`, or the empty text.
fn or_empty(s: &Option<String>) -> (text: String)
    ensures
        text@ == string_or_empty(*s),
{
    match s {
        Some(s) => s.clone(),
        None => String::new(),
    }
}

/// The common name and the protocol that `links` tell.
pub fn describe_links(links: &Vec<LinkAuthId>) -> (described: (String, String))
    ensures
        described.0@ == cert_cn_of(links@),
        described.1@ == link_protocol_of(links@),
{
    let mut cert_cn = String::new();
    let mut link_protocol = String::new();
    let mut i: usize = 0;
    while i < links.len()
        invariant
            i <= links@.len(),
            cert_cn@ == cert_cn_of(links@.take(i as int)),
            link_protocol@ == link_protocol_of(links@.take(i as int)),
        decreases links@.len() - i,
    {
        let (label, cn) = describe_link(&links[i]);
        link_protocol = label.to_owned();
        if let Some(cn) = cn {
            cert_cn = cn;
        }
        assert(links@.take(i + 1).drop_last() =~= links@.take(i as int));
        assert(links@.take(i + 1).last() == links@[i as int]);
        i = i + 1;
    }
    assert(links@.take(links@.len() as int) =~= links@);
    (cert_cn, link_protocol)
}

/// The first interface of the first link.
fn first_interface(links: &Option<Vec<Link>>) -> (interface: String)
    ensures
        interface@ == interface_of(*links),
{
    match links {
        Some(links) => if links.len() > 0 && links[0].interfaces.len() > 0 {
            links[0].interfaces[0].clone()
        } else {
            String::new()
        },
        None => String::new(),
    }
}

/// Makes the gates of every new peer.
#[derive(Debug, PartialEq, Eq)]
pub struct GrpcHookInterceptorFactory {
    /// How the hook server is called.
    pub hook: HookClient,
    /// Where the hook server is.
    pub endpoint: String,
}

impl GrpcHookInterceptorFactory {
    /// What to do with a new transport. Where the peer does not tell who it is, only a hook that
    /// fails open lets it in, and then without gates.
    pub fn register(&self, transport: &TransportUnicast) -> (registration: Result<
        Registration,
        HookError,
    >)
        ensures
            match transport.auth_ids {
                Ok(ids) => {
                    &&& registration is Ok
                    &&& registration->Ok_0 is Ask
                    &&& registration->Ok_0->0@ == register_request(*transport, ids)
                },
                Err(reason) => if self.hook.fail_open {
                    registration is Ok && registration->Ok_0 is Ungated
                } else {
                    &&& registration is Err
                    &&& registration->Err_0@ == (error::HookErrorView::AuthIdsUnavailable {
                        peer_id: string_or_empty(transport.zid),
                        reason: reason@,
                    })
                },
            },
            transport.auth_ids is Ok <==> registration is Ok && registration->Ok_0 is Ask,
            match (transport.auth_ids, registration) {
                (Ok(ids), Ok(Registration::Ask(request))) => {
                    let links = ids.link_auth_ids@;
                    &&& transport.zid matches Some(zid) ==> request.peer_id@ == zid@
                    &&& transport.zid is None ==> request.peer_id@.len() == 0
                    &&& ids.username matches Some(username) ==> request.username@ == username@
                    &&& ids.username is None ==> request.username@.len() == 0
                    &&& ids.usrpwd_hmac matches Some(hmac) ==> request.hmac@ == hmac@
                    &&& ids.usrpwd_hmac is None ==> request.hmac@.len() == 0
                    &&& ids.usrpwd_nonce matches Some(nonce) ==> request.nonce == nonce
                    &&& ids.usrpwd_nonce is None ==> request.nonce == 0
                    &&& forall|i: int|
                        0 <= i < links.len() && (forall|j: int|
                            i < j < links.len() ==> !(#[trigger] links[j] is Tls) && !(
                            links[j] is Quic)) ==> match #[trigger] links[i] {
                            LinkAuthId::Tls(Some(cn)) => request.cert_cn@ == cn@,
                            LinkAuthId::Quic(Some(cn)) => request.cert_cn@ == cn@,
                            LinkAuthId::Tls(None) => request.cert_cn@.len() == 0,
                            LinkAuthId::Quic(None) => request.cert_cn@.len() == 0,
                            _ => true,
                        }
                    &&& (forall|j: int|
                        0 <= j < links.len() ==> !(#[trigger] links[j] is Tls) && !(
                        links[j] is Quic)) ==> request.cert_cn@.len() == 0
                    &&& links.len() == 0 ==> request.link_protocol@.len() == 0
                    &&& links.len() > 0 ==> request.link_protocol@ == protocol_label(
                        links[links.len() - 1],
                    )
                    &&& match transport.links {
                        Some(told) => if told@.len() > 0 && told@[0].interfaces@.len() > 0 {
                            request.interface@ == told@[0].interfaces@[0]@
                        } else {
                            request.interface@.len() == 0
                        },
                        None => request.interface@.len() == 0,
                    }
                },
                _ => true,
            },
    {
        let peer_id = or_empty(&transport.zid);
        match &transport.auth_ids {
            Ok(ids) => {
                let username = or_empty(&ids.username);
                let (cert_cn, link_protocol) = describe_links(&ids.link_auth_ids);
                proof {
                    lemma_cert_cn(ids.link_auth_ids@);
                }
                let interface = first_interface(&transport.links);
                let hmac = match &ids.usrpwd_hmac {
                    Some(hmac) => hmac.clone(),
                    None => Vec::new(),
                };
                let nonce: u64 = match ids.usrpwd_nonce {
                    Some(nonce) => nonce,
                    None => 0,
                };
                Ok(
                    Registration::Ask(
                        AuthOnRegisterRequest {
                            peer_id,
                            cert_cn,
                            username,
                            link_protocol,
                            interface,
                            hmac,
                            nonce,
                        },
                    ),
                )
            },
            Err(reason) => {
                if self.hook.fail_open {
                    Ok(Registration::Ungated)
                } else {
                    Err(HookError::AuthIdsUnavailable { peer_id, reason: reason.clone() })
                }
            },
        }
    }

    /// The gates of a peer that the hook was asked about, given how the call ended: none for a
    /// peer that may not connect.
    pub fn new_transport_unicast(
        &self,
        request: &AuthOnRegisterRequest,
        outcome: CallOutcome<AuthOnRegisterResponse>,
    ) -> (gates: Result<Gates, HookError>)
        ensures
            gates is Ok <==> self.hook.register_decision(outcome),
            outcome matches CallOutcome::Answered(response) ==> (gates is Ok <==> response.allow),
            !(outcome is Answered) ==> (gates is Ok <==> self.hook.fail_open),
            gates matches Ok(gates) ==> {
                &&& gates.ingress.hook.timeout_ms == self.hook.timeout_ms
                &&& gates.ingress.hook.fail_open == self.hook.fail_open
                &&& gates.ingress.hook.max_payload_bytes == self.hook.max_payload_bytes
                &&& gates.ingress.meta.peer_id@ == request.peer_id@
                &&& gates.ingress.meta.username@ == request.username@
                &&& gates.ingress.meta.cert_cn@ == request.cert_cn@
                &&& gates.ingress.meta.link_protocol@ == request.link_protocol@
                &&& gates.ingress.meta.interface@ == request.interface@
            },
            gates matches Ok(gates) ==> {
                &&& gates.ingress.hook == self.hook
                &&& gates.ingress.meta@ == meta_of(request@)
                &&& gates.reverse_table@ == rewrite::RewriteMap::empty()
                &&& gates.reverse_table@.well_formed()
            },
            gates matches Err(e) ==> e@ == (error::HookErrorView::RegisterDenied {
                peer_id: request.peer_id@,
            }),
    {
        if !self.hook.auth_on_register(outcome) {
            return Err(HookError::RegisterDenied { peer_id: request.peer_id.clone() });
        }
        let meta = PeerMeta {
            peer_id: request.peer_id.clone(),
            username: request.username.clone(),
            cert_cn: request.cert_cn.clone(),
            link_protocol: request.link_protocol.clone(),
            interface: request.interface.clone(),
        };
        Ok(
            Gates {
                ingress: GrpcHookInterceptor { hook: self.hook, meta },
                egress: GrpcHookEgressInterceptor,
                reverse_table: ReverseRewriteTable::default(),
            },
        )
    }
}

} // verus!
