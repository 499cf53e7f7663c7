//! The handle on the time-series sink: the credentials it was made from and
//! the current client, which can be rebuilt from them.

use crate::urls::{parse_url, url_scheme};
use vstd::prelude::*;

verus! {

#[verifier::external_type_specification]
#[verifier::external_body]
pub struct ExClient(influxdb2::Client);

#[verifier::external_type_specification]
#[verifier::external_body]
pub struct ExClientBuilder(influxdb2::ClientBuilder);

#[verifier::external_type_specification]
#[verifier::external_body]
pub struct ExBuildError(influxdb2::BuildError);

/// Relies on `influxdb2::ClientBuilder::new`, which panics unless `url`
/// parses as a URL (it calls `url::Url::parse` on it).
#[verifier::external_body]
fn client_builder(url: &str, org: &str, token: &str) -> (r: influxdb2::ClientBuilder)
    requires
        url_scheme(url@) is Some,
{
    influxdb2::ClientBuilder::new(url, org, token)
}

/// Relies on `influxdb2::ClientBuilder::build`, which fails when the HTTP
/// client cannot be set up.
#[verifier::external_body]
fn build_client(builder: influxdb2::ClientBuilder) -> (r: Result<influxdb2::Client, influxdb2::BuildError>) {
    builder.build()
}

/// Why no sink client could be made.
#[derive(Clone, Copy, Debug, PartialEq, Eq, Structural)]
pub enum SinkError {
    /// The sink URL does not parse.
    InvalidUrl,
    /// The HTTP client behind the sink client could not be built.
    ClientBuild,
}

/// The sink's URL, organisation, token and bucket.
pub struct Output {
    client: influxdb2::Client,
    bucket: String,
    url: String,
    token: String,
    org: String,
}

impl View for Output {
    /// `(url, token, org, bucket)`
    type V = (Seq<char>, Seq<char>, Seq<char>, Seq<char>);

    closed spec fn view(&self) -> Self::V {
        (self.url@, self.token@, self.org@, self.bucket@)
    }
}

fn fresh_client(url: &str, org: &str, token: &str) -> (r: Result<influxdb2::Client, SinkError>)
    requires
        url_scheme(url@) is Some,
    ensures
        r is Err ==> r == Err::<influxdb2::Client, SinkError>(SinkError::ClientBuild),
{
    match build_client(client_builder(url, org, token)) {
        Ok(client) => Ok(client),
        Err(_) => Err(SinkError::ClientBuild),
    }
}

impl Output {
    #[verifier::type_invariant]
    closed spec fn inv(self) -> bool {
        url_scheme(self.url@) is Some
    }

    /// A handle on the sink at `url`. A URL that does not parse is refused;
    /// otherwise the handle is made unless the HTTP client cannot be set up.
    pub fn new(url: &str, token: &str, org: &str, bucket: &str) -> (r: Result<Output, SinkError>)
        ensures
            url_scheme(url@) is None ==> r == Err::<Output, SinkError>(SinkError::InvalidUrl),
            url_scheme(url@) is Some ==> (r is Ok || r == Err::<Output, SinkError>(
                SinkError::ClientBuild,
            )),
            r matches Ok(o) ==> o@ == (url@, token@, org@, bucket@),
    {
        match parse_url(url) {
            Err(_) => Err(SinkError::InvalidUrl),
            Ok(_) => match fresh_client(url, org, token) {
                Err(e) => Err(e),
                Ok(client) => Ok(
                    Output {
                        client,
                        bucket: bucket.to_owned(),
                        url: url.to_owned(),
                        token: token.to_owned(),
                        org: org.to_owned(),
                    },
                ),
            },
        }
    }

    /// Replaces the client by one made afresh from the stored credentials; on
    /// failure the old client stays.
    pub fn rebuild_client(&mut self) -> (r: Result<(), SinkError>)
        ensures
            final(self)@ == old(self)@,
            r is Err ==> r == Err::<(), SinkError>(SinkError::ClientBuild),
    {
        proof {
            use_type_invariant(&*self);
        }
        match fresh_client(self.url.as_str(), self.org.as_str(), self.token.as_str()) {
            Err(e) => Err(e),
            Ok(client) => {
                self.client = client;
                Ok(())
            },
        }
    }

    /// The current client.
    pub fn client(&self) -> &influxdb2::Client {
        &self.client
    }

    pub fn bucket(&self) -> (r: &str)
        ensures
            r@ == self@.3,
    {
        self.bucket.as_str()
    }

    pub fn url(&self) -> (r: &str)
        ensures
            r@ == self@.0,
    {
        self.url.as_str()
    }
}

/// A handle on the sink, made from its host, token, organisation and bucket.
pub fn connect_influxdb(host: &str, token: &str, org: &str, bucket: &str) -> (r: Result<Output, SinkError>)
    ensures
        url_scheme(host@) is None ==> r == Err::<Output, SinkError>(SinkError::InvalidUrl),
        url_scheme(host@) is Some ==> (r is Ok || r == Err::<Output, SinkError>(
            SinkError::ClientBuild,
        )),
        r matches Ok(o) ==> o@ == (host@, token@, org@, bucket@),
{
    Output::new(host, token, org, bucket)
}

} // verus!
