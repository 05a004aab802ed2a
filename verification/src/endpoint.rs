//! Where requests go: the server's address, worked out from the host of the
//! page that shows the widget.

use crate::text::{
    before_first, lemma_position_of_at, lemma_position_of_is_first, position_of, same_text,
    take_before,
};
use vstd::prelude::*;
use vstd::string::StringExecFns;

verus! {

/// The host name the development setup is served under.
pub const LOCAL_NAME: &'static str = "localhost";

/// The address the development setup is served under.
pub const LOCAL_ADDRESS: &'static str = "127.0.0.1";

/// The origin of the development server.
pub const DEVELOPMENT_ORIGIN: &'static str = "http://localhost:3000";

/// The path of the message endpoint.
pub const MESSAGES_PATH: &'static str = "/api/messages";

/// The name in a host: the host without its port, that is, what stands
/// before its first colon.
pub open spec fn host_name(host: Seq<char>) -> Seq<char> {
    before_first(host, ':')
}

/// A page is served locally when the name of its host is `localhost` or
/// `127.0.0.1`, whatever the port.
pub open spec fn is_local_host(host: Seq<char>) -> bool {
    host_name(host) == LOCAL_NAME@ || host_name(host) == LOCAL_ADDRESS@
}

/// The origin requests are sent to: the development server for a locally
/// served page, and nothing, which makes the request same-origin, for any
/// other page.
pub open spec fn base_url(host: Seq<char>) -> Seq<char> {
    if is_local_host(host) {
        DEVELOPMENT_ORIGIN@
    } else {
        Seq::empty()
    }
}

/// The address of the message endpoint for a page served by `host`.
pub open spec fn messages_url(host: Seq<char>) -> Seq<char> {
    base_url(host) + MESSAGES_PATH@
}

/// Whether `host` is `name`, alone or followed by a colon and anything.
pub open spec fn names_host(host: Seq<char>, name: Seq<char>) -> bool {
    ||| host == name
    ||| host.len() > name.len() && host.take(name.len() as int) == name && host[name.len() as int]
        == ':'
}

/// The locally served pages are those whose host is `localhost` or
/// `127.0.0.1`, alone or with a port behind a colon; for those, and for no
/// others, requests go to the development server.
pub proof fn law_local_hosts(host: Seq<char>)
    ensures
        is_local_host(host) <==> names_host(host, LOCAL_NAME@) || names_host(host, LOCAL_ADDRESS@),
        base_url(host) == DEVELOPMENT_ORIGIN@ || base_url(host) == Seq::<char>::empty(),
        base_url(host) == DEVELOPMENT_ORIGIN@ <==> is_local_host(host),
{
    reveal_strlit("localhost");
    reveal_strlit("127.0.0.1");
    reveal_strlit("http://localhost:3000");
    lemma_position_of_is_first(host, ':');
    assert(position_of(host, ':') == host.len() ==> host_name(host) =~= host);
    lemma_names_host(host, LOCAL_NAME@);
    lemma_names_host(host, LOCAL_ADDRESS@);
    assert(DEVELOPMENT_ORIGIN@.len() > 0);
}

/// For a `name` without a colon, the hosts of that name are `name` itself and
/// `name` with a colon behind it.
proof fn lemma_names_host(host: Seq<char>, name: Seq<char>)
    requires
        forall|i: int| 0 <= i < name.len() ==> #[trigger] name[i] != ':',
    ensures
        names_host(host, name) ==> host_name(host) == name,
{
    if names_host(host, name) {
        assert forall|i: int| 0 <= i < name.len() implies #[trigger] host[i] != ':' by {
            assert(host.take(name.len() as int)[i] == host[i]);
        }
        lemma_position_of_at(host, ':', name.len() as int);
    }
}

/// Computes [`base_url`] for a page served by `host`, which is a host name
/// or address, followed or not by a colon and a port.
pub fn resolve_base_url(host: &str) -> (base: &'static str)
    ensures
        base@ == base_url(host@),
{
    let name = take_before(host, ':');
    if same_text(name, LOCAL_NAME) || same_text(name, LOCAL_ADDRESS) {
        DEVELOPMENT_ORIGIN
    } else {
        proof {
            reveal_strlit("");
        }
        ""
    }
}

/// Computes [`messages_url`].
pub fn messages_endpoint(host: &str) -> (url: String)
    ensures
        url@ == messages_url(host@),
{
    let mut url = String::from_str(resolve_base_url(host));
    url.append(MESSAGES_PATH);
    url
}

} // verus!
