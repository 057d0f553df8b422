//! What the hook is asked about a peer, and what it remembers of it.
use vstd::prelude::*;

use crate::client;
use crate::factory;

verus! {

/// The request about a peer names it by what its transport tells, each part in full; what the
/// transport does not tell is empty.
pub proof fn request_names_the_peer(transport: factory::TransportUnicast, ids: factory::AuthIds)
    ensures
        ({
            let asked = factory::register_request(transport, ids);
            &&& match transport.zid {
                Some(zid) => asked.peer_id == zid@,
                None => asked.peer_id.len() == 0,
            }
            &&& match ids.username {
                Some(username) => asked.username == username@,
                None => asked.username.len() == 0,
            }
            &&& match ids.usrpwd_hmac {
                Some(hmac) => asked.hmac == hmac@,
                None => asked.hmac.len() == 0,
            }
            &&& match ids.usrpwd_nonce {
                Some(nonce) => asked.nonce == nonce,
                None => asked.nonce == 0,
            }
        }),
{
}

/// A peer is named by the certificate of the last link that can have one: links behind it do not
/// matter, and links before it do not either.
pub proof fn last_certificate_counts(
    transport: factory::TransportUnicast,
    ids: factory::AuthIds,
    i: int,
)
    requires
        0 <= i < ids.link_auth_ids@.len(),
        forall|j: int|
            i < j < ids.link_auth_ids@.len() ==> !(#[trigger] ids.link_auth_ids@[j] is Tls) && !(
            ids.link_auth_ids@[j] is Quic),
    ensures
        match ids.link_auth_ids@[i] {
            factory::LinkAuthId::Tls(Some(cn)) => factory::register_request(transport, ids).cert_cn
                == cn@,
            factory::LinkAuthId::Quic(Some(cn)) => factory::register_request(transport, ids).cert_cn
                == cn@,
            factory::LinkAuthId::Tls(None) => factory::register_request(
                transport,
                ids,
            ).cert_cn.len() == 0,
            factory::LinkAuthId::Quic(None) => factory::register_request(
                transport,
                ids,
            ).cert_cn.len() == 0,
            _ => true,
        },
{
    factory::lemma_cert_cn(ids.link_auth_ids@);
}

/// A peer none of whose links can have a certificate is asked about without one.
pub proof fn no_certificate_no_name(transport: factory::TransportUnicast, ids: factory::AuthIds)
    requires
        forall|j: int|
            0 <= j < ids.link_auth_ids@.len() ==> !(#[trigger] ids.link_auth_ids@[j] is Tls) && !(
            ids.link_auth_ids@[j] is Quic),
    ensures
        factory::register_request(transport, ids).cert_cn.len() == 0,
{
    factory::lemma_cert_cn(ids.link_auth_ids@);
}

/// The protocol of a peer is that of its last link, whatever the links before it are.
pub proof fn last_link_gives_the_protocol(
    transport: factory::TransportUnicast,
    ids: factory::AuthIds,
)
    ensures
        ids.link_auth_ids@.len() == 0 ==> factory::register_request(
            transport,
            ids,
        ).link_protocol.len() == 0,
        ids.link_auth_ids@.len() > 0 ==> {
            let protocol = factory::register_request(transport, ids).link_protocol;
            match ids.link_auth_ids@[ids.link_auth_ids@.len() - 1] {
                factory::LinkAuthId::Tls(_) => protocol == "tls"@,
                factory::LinkAuthId::Quic(_) => protocol == "quic"@,
                factory::LinkAuthId::Tcp => protocol == "tcp"@,
                factory::LinkAuthId::Udp => protocol == "udp"@,
                factory::LinkAuthId::Serial => protocol == "serial"@,
                factory::LinkAuthId::Unixpipe => protocol == "unixpipe"@,
                factory::LinkAuthId::UnixsockStream => protocol == "unixsock_stream"@,
                factory::LinkAuthId::Vsock => protocol == "vsock"@,
                factory::LinkAuthId::Ws => protocol == "ws"@,
            }
        },
{
}

/// The interface of a peer is the first one of its first link; without one it is empty.
pub proof fn first_interface_counts(transport: factory::TransportUnicast, ids: factory::AuthIds)
    ensures
        match transport.links {
            None => factory::register_request(transport, ids).interface.len() == 0,
            Some(links) => {
                &&& links@.len() == 0 ==> factory::register_request(transport, ids).interface.len()
                    == 0
                &&& links@.len() > 0 && links@[0].interfaces@.len() == 0
                    ==> factory::register_request(transport, ids).interface.len() == 0
                &&& links@.len() > 0 && links@[0].interfaces@.len() > 0
                    ==> factory::register_request(transport, ids).interface
                    == links@[0].interfaces@[0]@
            },
        },
{
}

/// What is remembered of a peer is what the hook was asked about it.
pub proof fn peer_is_remembered_as_asked_about(request: client::RegisterRequestView)
    ensures
        factory::meta_of(request).peer_id == request.peer_id,
        factory::meta_of(request).username == request.username,
        factory::meta_of(request).cert_cn == request.cert_cn,
        factory::meta_of(request).link_protocol == request.link_protocol,
        factory::meta_of(request).interface == request.interface,
{
}

} // verus!
