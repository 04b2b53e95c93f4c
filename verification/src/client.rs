//! The client: an API key, and the transport that requests are sent with.

use vstd::prelude::*;
use crate::error::option_text;

verus! {

/// The Alpha Vantage API client. `Client` is the transport; the library never
/// calls it, it only keeps it for the code that sends the requests.
#[derive(Debug, Clone)]
pub struct AlphaVantage<Client> {
    client: Client,
    api_key: Option<String>,
}

impl<Client> AlphaVantage<Client> {
    /// The transport.
    pub closed spec fn transport(&self) -> Client {
        self.client
    }

    /// The characters of the API key, where one is set.
    pub closed spec fn key(&self) -> Option<Seq<char>> {
        option_text(self.api_key)
    }

    /// A client on the given transport, with no API key set.
    pub fn new(client: Client) -> (r: Self)
        ensures
            r.transport() == client,
            r.key() is None,
    {
        AlphaVantage { client, api_key: None }
    }

    /// The same client on another transport.
    pub fn with_client(self, client: Client) -> (r: Self)
        ensures
            r.transport() == client,
            r.key() == self.key(),
    {
        AlphaVantage { client, api_key: self.api_key }
    }

    /// The same client with the API key `api_key`.
    pub fn with_key(self, api_key: &str) -> (r: Self)
        ensures
            r.transport() == self.transport(),
            r.key() == Some(api_key@),
    {
        AlphaVantage { client: self.client, api_key: Some(api_key.to_owned()) }
    }

    /// The API key, where one is set.
    pub fn api_key(&self) -> (r: Option<&str>)
        ensures
            match r {
                Some(key) => self.key() == Some(key@),
                None => self.key() is None,
            },
    {
        match &self.api_key {
            Some(key) => Some(key.as_str()),
            None => None,
        }
    }

    /// The transport.
    pub fn client(&self) -> (r: &Client)
        ensures
            *r == self.transport(),
    {
        &self.client
    }
}

impl<Client: Default> Default for AlphaVantage<Client> {
    /// A client on the transport's default, with no API key set.
    fn default() -> (r: Self)
        ensures
            call_ensures(Client::default, (), r.transport()),
            r.key() is None,
    {
        AlphaVantage { client: Client::default(), api_key: None }
    }
}

} // verus!
