//! The target of the logical connection: from a `host:port` address to the
//! URI that every transport link of the connection is opened against.

use vstd::prelude::*;
use vstd::string::*;

verus! {

/// How many transport links one logical connection is balanced over.
pub const LINKS: usize = 3;

/// Why no connection could be set up. Either is fatal to the run.
#[derive(Clone, Copy, Debug, PartialEq, Eq, Structural)]
pub enum ConnectError {
    /// The address does not give a well-formed URI.
    Malformed,
    /// The transport could not be set up towards the address.
    Unreachable,
}

/// The URI text for an address: the plain-text scheme in front of it.
pub open spec fn uri_text(host: Seq<char>) -> Seq<char> {
    "http://"@ + host
}

/// Whether a text is accepted as a URI by the parser of the transport.
pub uninterp spec fn uri_well_formed(text: Seq<char>) -> bool;

/// Trusted, not proved: the call of `Uri::from_str` (the `Uri` of the
/// `http` crate, which `tonic::transport` hands on), made through
/// `str::parse`. The contract claims one thing: that acceptance depends on
/// the text alone, so that it can be named. The result is `true` exactly
/// when the parser returns `Ok`. The parser reads the bytes of its
/// argument and nothing else, and answers a text it cannot take with an
/// error, never with a panic.
#[verifier::external_body]
fn parses_as_uri(text: &str) -> (accepted: bool)
    ensures
        accepted == uri_well_formed(text@),
{
    text.parse::<tonic::transport::Uri>().is_ok()
}

/// Builds the URI text for an address.
pub fn endpoint_uri(host: &str) -> (uri: String)
    ensures
        uri@ == uri_text(host@),
{
    String::from_str("http://").concat(host)
}

/// The description of one logical connection to the control-plane service:
/// the URI it targets and the number of transport links it is balanced
/// over. It holds no socket: whoever drives the transport opens the links
/// from it.
#[derive(Debug)]
pub struct RpcClient {
    uri: String,
    links: usize,
}

/// What an `RpcClient` stands for.
pub struct RpcClientView {
    pub uri: Seq<char>,
    pub links: nat,
}

impl View for RpcClient {
    type V = RpcClientView;

    closed spec fn view(&self) -> RpcClientView {
        RpcClientView { uri: self.uri@, links: self.links as nat }
    }
}

/// The connection that an address gives, once it is known whether its URI
/// text is well formed.
pub open spec fn connection_for(host: Seq<char>, well_formed: bool) -> Result<
    RpcClientView,
    ConnectError,
> {
    if well_formed {
        Ok(RpcClientView { uri: uri_text(host), links: LINKS as nat })
    } else {
        Err(ConnectError::Malformed)
    }
}

/// A result with the client replaced by what it stands for.
pub open spec fn connection_view(result: Result<RpcClient, ConnectError>) -> Result<
    RpcClientView,
    ConnectError,
> {
    match result {
        Ok(client) => Ok(client@),
        Err(error) => Err(error),
    }
}

impl RpcClient {
    /// Describes the connection to `host`, given the parser's verdict on
    /// the URI text of `host`. A rejected text is a malformed endpoint.
    pub fn from_verdict(host: &String, well_formed: bool) -> (result: Result<
        RpcClient,
        ConnectError,
    >)
        ensures
            connection_view(result) == connection_for(host@, well_formed),
    {
        if well_formed {
            Ok(RpcClient { uri: endpoint_uri(host.as_str()), links: LINKS })
        } else {
            Err(ConnectError::Malformed)
        }
    }

    /// Describes the connection to `host`. Nothing is opened here: the
    /// links are established lazily by whoever drives the transport.
    pub fn new(host: &String) -> (result: Result<RpcClient, ConnectError>)
        ensures
            connection_view(result) == connection_for(
                host@,
                uri_well_formed(uri_text(host@)),
            ),
    {
        let uri = endpoint_uri(host.as_str());
        let accepted = parses_as_uri(uri.as_str());
        RpcClient::from_verdict(host, accepted)
    }

    /// The URI that every link targets.
    pub fn uri(&self) -> (uri: &String)
        ensures
            uri@ == self@.uri,
    {
        &self.uri
    }

    /// The number of transport links.
    pub fn links(&self) -> (links: usize)
        ensures
            links == self@.links,
    {
        self.links
    }

    /// The target of each transport link, one entry per link: all the same
    /// URI.
    pub fn targets(&self) -> (targets: Vec<String>)
        ensures
            targets@.len() == self@.links,
            forall|i: int| 0 <= i < targets@.len() ==> (#[trigger] targets@[i])@ == self@.uri,
    {
        let mut targets: Vec<String> = Vec::new();
        let mut i: usize = 0;
        while i < self.links
            invariant
                i <= self.links,
                targets@.len() == i,
                forall|k: int| 0 <= k < targets@.len() ==> (#[trigger] targets@[k])@ == self.uri@,
            decreases self.links - i,
        {
            targets.push(self.uri.clone());
            i = i + 1;
        }
        targets
    }
}

} // verus!
