//! A client for the IndexNow protocol, which lets a site tell search engines
//! that some of its URLs have changed.
//!
//! The crate decides what is sent and what an answer means; it performs no
//! network exchange itself. `IndexNowApi::request` builds the one POST request
//! of a notification, and `HttpClient::outcome` turns the way the exchange
//! ended into the notification's result.

pub mod error;
pub mod http;
pub mod json;

pub use error::GoogleApiError;

use crate::http::{request_for, HttpClient, HttpRequest, RequestView};
use crate::json::{
    array_of, array_text, encode_string, encode_strings, has_member, json_string, json_strings,
    member_views, object_of, object_text, Member, MemberView,
};
use vstd::prelude::*;

verus! {

/// A notification as a value of the model.
pub struct Payload {
    /// The changed URLs, in the caller's order.
    pub url_list: Seq<Seq<char>>,
    /// The site that notifies.
    pub host: Seq<char>,
    /// The key that proves ownership of the site.
    pub key: Seq<char>,
    /// Where the key is published, if the client was told.
    pub key_location: Option<Seq<char>>,
}

impl Payload {
    /// The three members that every notification has.
    pub open spec fn fixed_members(self) -> Seq<MemberView> {
        seq![
            MemberView { name: "urlList"@, text: array_text(json_strings(self.url_list)) },
            MemberView { name: "host"@, text: json_string(self.host) },
            MemberView { name: "key"@, text: json_string(self.key) },
        ]
    }

    /// The members of the notification's JSON object, in the order in which
    /// they are written. `keyLocation` is a member only where a key location
    /// is set.
    pub open spec fn members(self) -> Seq<MemberView> {
        match self.key_location {
            Some(location) => self.fixed_members().push(
                MemberView { name: "keyLocation"@, text: json_string(location) },
            ),
            None => self.fixed_members(),
        }
    }

    /// The notification as JSON text.
    pub open spec fn json_text(self) -> Seq<char> {
        object_text(self.members())
    }
}

/// The body of a notification.
#[derive(Debug)]
pub struct SendData {
    url_list: Vec<String>,
    host: String,
    key: String,
    key_location: Option<String>,
}

impl View for SendData {
    type V = Payload;

    closed spec fn view(&self) -> Payload {
        Payload {
            url_list: self.url_list.deep_view(),
            host: self.host@,
            key: self.key@,
            key_location: self.key_location.deep_view(),
        }
    }
}

impl Clone for SendData {
    /// A copy with the same URLs, host, key and key location.
    fn clone(&self) -> (copy: SendData)
        ensures
            copy@ == self@,
    {
        let url_list = self.url_list.clone();
        proof {
            assert(url_list.deep_view() =~= self.url_list.deep_view());
        }
        let key_location = self.key_location.clone();
        SendData { url_list, host: self.host.clone(), key: self.key.clone(), key_location }
    }
}

impl Default for SendData {
    /// A notification of no URLs, with an empty host and key and no key
    /// location.
    fn default() -> (data: SendData)
        ensures
            data@ == (Payload {
                url_list: Seq::empty(),
                host: Seq::empty(),
                key: Seq::empty(),
                key_location: None,
            }),
    {
        let data = SendData {
            url_list: Vec::new(),
            host: String::new(),
            key: String::new(),
            key_location: None,
        };
        assert(data.url_list.deep_view() =~= Seq::empty());
        data
    }
}

impl SendData {
    /// A notification with the given parts.
    pub fn new(
        url_list: Vec<String>,
        host: String,
        key: String,
        key_location: Option<String>,
    ) -> (data: SendData)
        ensures
            data@ == (Payload {
                url_list: url_list.deep_view(),
                host: host@,
                key: key@,
                key_location: key_location.deep_view(),
            }),
    {
        SendData { url_list, host, key, key_location }
    }

    /// The changed URLs, in the caller's order.
    pub fn url_list(&self) -> (url_list: &Vec<String>)
        ensures
            url_list.deep_view() == self@.url_list,
    {
        &self.url_list
    }

    /// The site that notifies.
    pub fn host(&self) -> (host: &String)
        ensures
            host@ == self@.host,
    {
        &self.host
    }

    /// The key that proves ownership of the site.
    pub fn key(&self) -> (key: &String)
        ensures
            key@ == self@.key,
    {
        &self.key
    }

    /// Where the key is published, if the client was told.
    pub fn key_location(&self) -> (key_location: &Option<String>)
        ensures
            key_location.deep_view() == self@.key_location,
    {
        &self.key_location
    }

    /// Writes the notification as JSON text.
    pub fn to_json(&self) -> (text: String)
        ensures
            text@ == self@.json_text(),
    {
        let url_texts = encode_strings(&self.url_list);
        let mut members: Vec<Member> = Vec::new();
        members.push(Member { name: String::from_str("urlList"), text: array_of(&url_texts) });
        members.push(Member { name: String::from_str("host"), text: encode_string(self.host.as_str()) });
        members.push(Member { name: String::from_str("key"), text: encode_string(self.key.as_str()) });
        match &self.key_location {
            Some(location) => {
                members.push(
                    Member {
                        name: String::from_str("keyLocation"),
                        text: encode_string(location.as_str()),
                    },
                );
            },
            None => {},
        }
        proof {
            assert(member_views(members@) =~= self@.members());
        }
        object_of(&members)
    }
}

/// The configuration of a client as a value of the model.
pub struct Config {
    /// The base URL of the search engine.
    pub search_engine: Seq<char>,
    /// The site that notifies.
    pub host: Seq<char>,
    /// The key that proves ownership of the site.
    pub key: Seq<char>,
    /// Where the key is published, if the client was told.
    pub key_location: Option<Seq<char>>,
}

impl Config {
    /// The configuration of a new client: the default search engine and no
    /// key location.
    pub open spec fn fresh(host: Seq<char>, key: Seq<char>) -> Config {
        Config { search_engine: "https://api.indexnow.org"@, host, key, key_location: None }
    }

    /// This configuration with another search engine.
    pub open spec fn with_search_engine(self, search_engine: Seq<char>) -> Config {
        Config { search_engine, ..self }
    }

    /// This configuration with a key location.
    pub open spec fn with_key_location(self, key_location: Seq<char>) -> Config {
        Config { key_location: Some(key_location), ..self }
    }

    /// The address that notifications are posted to.
    pub open spec fn endpoint(self) -> Seq<char> {
        self.search_engine + "/IndexNow"@
    }

    /// The notification of `urls` under this configuration.
    pub open spec fn payload(self, urls: Seq<Seq<char>>) -> Payload {
        Payload { url_list: urls, host: self.host, key: self.key, key_location: self.key_location }
    }

    /// The request that notifies the search engine of `urls`.
    pub open spec fn request(self, urls: Seq<Seq<char>>) -> RequestView {
        request_for(self.endpoint(), self.payload(urls))
    }
}

/// A client: the search engine to notify, the site, and its key.
pub struct IndexNowApi {
    search_engine: String,
    host: String,
    key: String,
    key_location: Option<String>,
}

impl View for IndexNowApi {
    type V = Config;

    closed spec fn view(&self) -> Config {
        Config {
            search_engine: self.search_engine@,
            host: self.host@,
            key: self.key@,
            key_location: self.key_location.deep_view(),
        }
    }
}

impl IndexNowApi {
    /// A client for the site `host` with the key `key`. It notifies
    /// `https://api.indexnow.org` and names no key location.
    pub fn new(host: &str, key: &str) -> (api: IndexNowApi)
        ensures
            api@ == Config::fresh(host@, key@),
    {
        IndexNowApi {
            search_engine: String::from_str("https://api.indexnow.org"),
            host: String::from_str(host),
            key: String::from_str(key),
            key_location: None,
        }
    }

    /// Notifies another search engine from now on. Nothing else changes.
    pub fn set_search_engine(&mut self, search_engine: &str)
        ensures
            final(self)@ == old(self)@.with_search_engine(search_engine@),
    {
        self.search_engine = String::from_str(search_engine);
    }

    /// Names the place where the key is published. Nothing else changes.
    pub fn set_key_location(&mut self, key_location: &str)
        ensures
            final(self)@ == old(self)@.with_key_location(key_location@),
    {
        self.key_location = Some(String::from_str(key_location));
    }

    /// The address that notifications are posted to: the search engine's
    /// base URL followed by `/IndexNow`.
    pub fn endpoint(&self) -> (url: String)
        ensures
            url@ == self@.endpoint(),
    {
        let mut url = self.search_engine.clone();
        url.append("/IndexNow");
        url
    }

    /// The notification of `urls`: the URLs as given, in their order, with
    /// the client's host, key and key location.
    pub fn payload(&self, urls: Vec<String>) -> (data: SendData)
        ensures
            data@ == self@.payload(urls.deep_view()),
    {
        let key_location = self.key_location.clone();
        SendData::new(urls, self.host.clone(), self.key.clone(), key_location)
    }

    /// The request that notifies the search engine of `urls`. An empty list
    /// is sent as it is.
    pub fn request(&self, urls: Vec<String>) -> (request: HttpRequest)
        ensures
            request@ == self@.request(urls.deep_view()),
    {
        let url = self.endpoint();
        let data = self.payload(urls);
        HttpClient::request(url.as_str(), &data)
    }
}

/// Every notification is a JSON object whose first member is `urlList`. Its
/// value is an array with one element for each given URL, in the given order:
/// the URL as a JSON string. No other member has that name.
pub proof fn lemma_url_list_in_order(config: Config, urls: Seq<Seq<char>>)
    ensures
        config.request(urls).body == object_text(config.payload(urls).members()),
        config.payload(urls).members()[0] == (MemberView {
            name: "urlList"@,
            text: array_text(json_strings(urls)),
        }),
        json_strings(urls).len() == urls.len(),
        forall|i: int| 0 <= i < urls.len() ==> json_strings(urls)[i] == json_string(urls[i]),
        forall|j: int|
            0 < j < config.payload(urls).members().len() ==> config.payload(
                urls,
            ).members()[j].name != "urlList"@,
{
    lemma_member_names_differ();
}

/// A notification has a member `keyLocation` exactly where the configuration
/// holds a key location. It is then the last member, and its value is the
/// location as a JSON string.
pub proof fn lemma_key_location_member(config: Config, urls: Seq<Seq<char>>)
    ensures
        has_member(config.payload(urls).members(), "keyLocation"@)
            <==> config.key_location is Some,
        config.key_location matches Some(location) ==> {
            &&& config.payload(urls).members().len() == 4
            &&& config.payload(urls).members()[3] == (MemberView {
                name: "keyLocation"@,
                text: json_string(location),
            })
        },
        forall|j: int| 0 <= j < 3 ==> config.payload(urls).members()[j].name != "keyLocation"@,
{
    lemma_member_names_differ();
    let members = config.payload(urls).members();
    if config.key_location is Some {
        assert(members[3].name == "keyLocation"@);
    }
}

/// A client names a key location only once it was told one: a new client
/// writes no `keyLocation` member, another search engine does not add one,
/// and after `set_key_location` the member holds the location that was set.
pub proof fn lemma_key_location_only_once_set(
    config: Config,
    host: Seq<char>,
    key: Seq<char>,
    search_engine: Seq<char>,
    location: Seq<char>,
    urls: Seq<Seq<char>>,
)
    ensures
        !has_member(Config::fresh(host, key).payload(urls).members(), "keyLocation"@),
        has_member(config.with_search_engine(search_engine).payload(urls).members(), "keyLocation"@)
            == has_member(config.payload(urls).members(), "keyLocation"@),
        config.with_key_location(location).payload(urls).members().last() == (MemberView {
            name: "keyLocation"@,
            text: json_string(location),
        }),
{
    lemma_key_location_member(Config::fresh(host, key), urls);
    lemma_key_location_member(config, urls);
    lemma_key_location_member(config.with_search_engine(search_engine), urls);
    lemma_key_location_member(config.with_key_location(location), urls);
}

/// After the search engine was changed, notifications are posted to the new
/// base URL followed by `/IndexNow`, and carry what they carried before. A
/// request that was built earlier is a value of its own and keeps its
/// address.
pub proof fn lemma_search_engine_moves_target(
    config: Config,
    search_engine: Seq<char>,
    urls: Seq<Seq<char>>,
)
    ensures
        config.with_search_engine(search_engine).request(urls).url == search_engine
            + "/IndexNow"@,
        config.with_search_engine(search_engine).request(urls).body == config.request(urls).body,
        config.with_search_engine(search_engine).request(urls).method == config.request(
            urls,
        ).method,
        config.with_search_engine(search_engine).request(urls).host == config.request(urls).host,
        config.with_search_engine(search_engine).request(urls).content_type == config.request(
            urls,
        ).content_type,
{
}

/// The four member names are different from one another.
proof fn lemma_member_names_differ()
    ensures
        "urlList"@ != "host"@,
        "urlList"@ != "key"@,
        "urlList"@ != "keyLocation"@,
        "host"@ != "key"@,
        "host"@ != "keyLocation"@,
        "key"@ != "keyLocation"@,
{
    reveal_strlit("urlList");
    reveal_strlit("host");
    reveal_strlit("key");
    reveal_strlit("keyLocation");
    assert("urlList"@.len() == 7);
    assert("host"@.len() == 4);
    assert("key"@.len() == 3);
    assert("keyLocation"@.len() == 11);
}

} // verus!
