//! The client: a transport, a base URL and an optional token, put together
//! by a builder. The client says which request an endpoint needs and what a
//! reply to it means; sending the request is left to the caller.

use crate::errors::{DecodeFault, Error, TransportError};
use crate::http::{
    builder_headers, default_headers_of, header_map_append, header_map_len, header_map_model,
    header_map_new, header_value, header_value_byte, http_builder, http_builder_build,
    http_builder_default_headers, http_builder_user_agent, http_client_clone, is_header_name,
    is_header_value, url_clone, url_join, url_joined, url_parse, url_parsed, url_text,
    HeaderValues, Headers,
};
use crate::json::Json;
use crate::models::codec::{decoded, json_envelope};
use crate::models::YmApiResponse;
use reqwest::header::{HeaderMap, HeaderValue};
use reqwest::{Client as HttpClient, ClientBuilder as HttpClientBuilder};
use reqwest::Error as HttpError;
use url::Url;
use vstd::prelude::*;
use vstd::string::StringExecFns;
use vstd::utf8::{encode_utf8, is_ascii_chars, is_ascii_chars_encode_utf8};

verus! {

/// The product identifier that the default transport sends as user agent.
pub const USER_AGENT: &'static str = "Yandex-Music-API";

/// The name of the header that carries the version of the mobile client.
pub const CLIENT_HEADER: &'static str = "x-yandex-music-client";

/// The version of the mobile client that the default transport claims.
pub const CLIENT_VERSION: &'static str = "YandexMusicAndroid/24023621";

/// The name of the header that carries the token.
pub const AUTHORIZATION_HEADER: &'static str = "authorization";

/// The service that a client talks to unless it is told otherwise.
pub const DEFAULT_BASE_URL: &'static str = "https://api.music.yandex.net";

/// The path of the account-status endpoint.
pub const ACCOUNT_STATUS_PATH: &'static str = "/account/status";

/// The value of the authorization header for a token.
pub open spec fn authorization_text(token: Seq<char>) -> Seq<char> {
    "OAuth "@ + token
}

/// Whether a token can be sent: the authorization header made of it must be
/// a header value.
pub open spec fn valid_token(token: Seq<char>) -> bool {
    is_header_value(authorization_text(token))
}

/// The headers that the default transport adds to every request: the
/// `accept` header of every transport, the user agent, the client version,
/// and the authorization header if and only if there is a token.
pub open spec fn default_headers(token: Option<Seq<char>>) -> Headers {
    let anonymous = Map::<Seq<char>, Seq<u8>>::empty().insert(
        "accept"@,
        seq![42u8, 47u8, 42u8],
    ).insert("user-agent"@, encode_utf8(USER_AGENT@)).insert(
        CLIENT_HEADER@,
        encode_utf8(CLIENT_VERSION@),
    );
    match token {
        Some(t) => anonymous.insert(AUTHORIZATION_HEADER@, encode_utf8(authorization_text(t))),
        None => anonymous,
    }
}

/// Whether headers carry a name with a text as its value.
pub open spec fn carries(headers: Headers, name: Seq<char>, value: Seq<char>) -> bool {
    headers.dom().contains(name) && headers[name] == encode_utf8(value)
}

/// What the default transport owes to every request: the user agent, the
/// client version, and the authorization header with `OAuth <token>` if and
/// only if there is a token.
pub open spec fn carries_defaults(headers: Headers, token: Option<Seq<char>>) -> bool {
    &&& carries(headers, "user-agent"@, USER_AGENT@)
    &&& carries(headers, CLIENT_HEADER@, CLIENT_VERSION@)
    &&& match token {
        Some(t) => carries(headers, AUTHORIZATION_HEADER@, authorization_text(t)),
        None => !headers.dom().contains(AUTHORIZATION_HEADER@),
    }
}

/// A text of printable ASCII characters is a header value.
proof fn lemma_printable_is_header_value(text: Seq<char>)
    requires
        forall|i: int| 0 <= i < text.len() ==> ' ' <= #[trigger] text[i] <= '~',
    ensures
        is_header_value(text),
{
    assert(is_ascii_chars(text));
    is_ascii_chars_encode_utf8(text);
    assert forall|i: int| 0 <= i < encode_utf8(text).len() implies header_value_byte(
        #[trigger] encode_utf8(text)[i],
    ) by {
        assert(text[i] as u8 == encode_utf8(text)[i]);
        assert(' ' <= text[i] <= '~');
    }
}

/// The fixed texts of the protocol are what the HTTP layer asks for.
proof fn lemma_protocol_constants()
    ensures
        is_header_value(USER_AGENT@),
        is_header_value(CLIENT_VERSION@),
        is_header_name(CLIENT_HEADER@),
        is_header_name(AUTHORIZATION_HEADER@),
        "accept"@.len() == 6,
        "user-agent"@.len() == 10,
        CLIENT_HEADER@.len() == 21,
        AUTHORIZATION_HEADER@.len() == 13,
{
    reveal_strlit("Yandex-Music-API");
    reveal_strlit("YandexMusicAndroid/24023621");
    reveal_strlit("x-yandex-music-client");
    reveal_strlit("authorization");
    reveal_strlit("accept");
    reveal_strlit("user-agent");
    lemma_printable_is_header_value(USER_AGENT@);
    lemma_printable_is_header_value(CLIENT_VERSION@);
}

/// The text `OAuth <token>`.
fn authorization_value(token: &str) -> (r: String)
    ensures
        r@ == authorization_text(token@),
{
    String::from_str("OAuth ").concat(token)
}

/// Whether a text can be the value of a header.
fn check_header_value(text: &str) -> (r: bool)
    ensures
        r == is_header_value(text@),
{
    let bytes = text.as_bytes();
    let mut i: usize = 0;
    while i < bytes.len()
        invariant
            i <= bytes.len(),
            bytes@ == encode_utf8(text@),
            forall|j: int| 0 <= j < i ==> header_value_byte(#[trigger] bytes@[j]),
        decreases bytes.len() - i,
    {
        let b: u8 = bytes[i];
        if !((b >= 32 && b != 127) || b == 9) {
            return false;
        }
        i += 1;
    }
    true
}

/// Whether a token can be sent. A token with a line break or another control
/// character in it cannot.
pub fn is_valid_token(token: &str) -> (r: bool)
    ensures
        r == valid_token(token@),
{
    let text = authorization_value(token);
    check_header_value(text.as_str())
}

/// The characters of an optional text.
pub open spec fn text_of(text: Option<String>) -> Option<Seq<char>> {
    match text {
        Some(t) => Some(t@),
        None => None,
    }
}

/// Builds the default transport: the user agent, the client version, and the
/// authorization header where there is a token. Whether a transport can be
/// built at all is up to the machine.
pub fn create_http_client(token: &Option<String>) -> (r: Result<HttpClient, HttpError>)
    requires
        token matches Some(t) ==> valid_token(t@),
    ensures
        r matches Ok(client) ==> default_headers_of(client) == default_headers(text_of(*token)),
        r matches Ok(client) ==> carries_defaults(default_headers_of(client), text_of(*token)),
{
    proof {
        lemma_default_headers_carry(text_of(*token));
    }
    http_builder_build(default_transport(token))
}

/// Configures the default transport: a builder whose default headers are
/// the user agent, the client version, the authorization header where there
/// is a token, and nothing else but what every builder starts with. This is
/// what is handed to the HTTP layer to build the transport from.
pub fn default_transport(token: &Option<String>) -> (r: HttpClientBuilder)
    requires
        token matches Some(t) ==> valid_token(t@),
    ensures
        builder_headers(r) == default_headers(text_of(*token)),
{
    proof {
        lemma_protocol_constants();
    }
    let headers = default_header_map(token);
    let user_agent = header_value(USER_AGENT).unwrap();
    let builder = http_builder_user_agent(http_builder(), user_agent);
    let r = http_builder_default_headers(builder, headers);
    assert(builder_headers(r) =~= default_headers(text_of(*token)));
    r
}

/// The header map that the default transport is given: the client version
/// and, if and only if there is a token, the authorization header with the
/// value `OAuth <token>`, the token as it stands. Each name has one value.
pub open spec fn default_header_values(token: Option<Seq<char>>) -> HeaderValues {
    let anonymous = HeaderValues::empty().insert(
        CLIENT_HEADER@,
        seq![encode_utf8(CLIENT_VERSION@)],
    );
    match token {
        Some(t) => anonymous.insert(
            AUTHORIZATION_HEADER@,
            seq![encode_utf8(authorization_text(t))],
        ),
        None => anonymous,
    }
}

/// The same said name by name: the client version has exactly one value;
/// the authorization header is there if and only if there is a token, and
/// then with exactly the value `OAuth <token>`; no other name is there.
pub open spec fn is_default_header_map(values: HeaderValues, token: Option<Seq<char>>) -> bool {
    &&& values.dom().contains(CLIENT_HEADER@)
    &&& values[CLIENT_HEADER@] == seq![encode_utf8(CLIENT_VERSION@)]
    &&& match token {
        Some(t) => values.dom().contains(AUTHORIZATION_HEADER@) && values[AUTHORIZATION_HEADER@]
            == seq![encode_utf8(authorization_text(t))],
        None => !values.dom().contains(AUTHORIZATION_HEADER@),
    }
    &&& forall|name: Seq<char>| #[trigger]
        values.dom().contains(name) ==> name == CLIENT_HEADER@ || name == AUTHORIZATION_HEADER@
}

/// Fills the header map of the default transport.
pub fn default_header_map(token: &Option<String>) -> (r: HeaderMap<HeaderValue>)
    requires
        token matches Some(t) ==> valid_token(t@),
    ensures
        header_map_model(r) == default_header_values(text_of(*token)),
        is_default_header_map(header_map_model(r), text_of(*token)),
        header_map_len(r) == if token is Some { 2nat } else { 1nat },
{
    proof {
        lemma_protocol_constants();
    }
    let mut headers = header_map_new();
    match token {
        Some(tok) => {
            let text = authorization_value(tok.as_str());
            let value = header_value(text.as_str()).unwrap();
            header_map_append(&mut headers, AUTHORIZATION_HEADER, value);
        },
        None => (),
    }
    let version = header_value(CLIENT_VERSION).unwrap();
    header_map_append(&mut headers, CLIENT_HEADER, version);
    assert(header_map_model(headers) =~= default_header_values(text_of(*token)));
    headers
}

/// What a [`ClientBuilder`] has been told so far.
pub struct ClientBuilderView {
    pub token: Option<Seq<char>>,
    pub custom_client: Option<HttpClient>,
    pub base_url: Option<Url>,
}

impl ClientBuilderView {
    /// The configuration after the token has been set.
    pub open spec fn with_token(self, token: Seq<char>) -> Self {
        ClientBuilderView { token: Some(token), ..self }
    }

    /// The configuration after a transport has been handed in.
    pub open spec fn with_custom_client(self, client: HttpClient) -> Self {
        ClientBuilderView { custom_client: Some(client), ..self }
    }

    /// The configuration after the base URL has been set.
    pub open spec fn with_base_url(self, url: Url) -> Self {
        ClientBuilderView { base_url: Some(url), ..self }
    }

    /// Whether a client can be built from this configuration without the
    /// HTTP layer refusing the token: the token counts only where the
    /// builder has to make the transport itself.
    pub open spec fn buildable(self) -> bool {
        self.custom_client is None ==> (self.token matches Some(t) ==> valid_token(t))
    }
}

/// Collects what a [`Client`] is made of: a token, a transport to use in
/// place of the default one, and a base URL in place of the default one.
pub struct ClientBuilder {
    token: Option<String>,
    custom_client: Option<HttpClient>,
    base_url: Option<Url>,
}

impl View for ClientBuilder {
    type V = ClientBuilderView;

    closed spec fn view(&self) -> ClientBuilderView {
        ClientBuilderView {
            token: text_of(self.token),
            custom_client: self.custom_client,
            base_url: self.base_url,
        }
    }
}

impl Default for ClientBuilder {
    fn default() -> (r: Self)
        ensures
            r@ == (ClientBuilderView { token: None, custom_client: None, base_url: None }),
    {
        ClientBuilder { token: None, custom_client: None, base_url: None }
    }
}

/// What a [`Client`] is made of.
pub struct ClientView {
    pub token: Option<Seq<char>>,
    pub http_client: HttpClient,
    pub base_url: Url,
}

/// A handle on the service: a transport, the base URL of the service, and
/// the token that the transport was made with, if any.
pub struct Client {
    token: Option<String>,
    http_client: HttpClient,
    base_url: Url,
}

impl View for Client {
    type V = ClientView;

    closed spec fn view(&self) -> ClientView {
        ClientView {
            token: text_of(self.token),
            http_client: self.http_client,
            base_url: self.base_url,
        }
    }
}

/// The client that is made of a token, a transport and a base URL, where
/// the outside gave both of the latter. A missing transport is the failure
/// that is reported, before a missing base URL.
pub open spec fn assembled(
    token: Option<Seq<char>>,
    http_client: Result<HttpClient, HttpError>,
    base_url: Result<Url, String>,
) -> Result<ClientView, Error> {
    match http_client {
        Err(failure) => Err(Error::Reqwest(TransportError::Http(failure))),
        Ok(http_client) => match base_url {
            Err(message) => Err(Error::Other(message)),
            Ok(base_url) => Ok(ClientView { token, http_client, base_url }),
        },
    }
}

/// The client that a configuration asks for, given the transport that was
/// made for it where it brings none, and the parsed default URL where it
/// brings none.
pub open spec fn built(
    config: ClientBuilderView,
    transport: Result<HttpClient, HttpError>,
    default_url: Result<Url, String>,
) -> Result<ClientView, Error> {
    assembled(
        config.token,
        match config.custom_client {
            Some(custom) => Ok(custom),
            None => transport,
        },
        match config.base_url {
            Some(url) => Ok(url),
            None => default_url,
        },
    )
}

impl ClientBuilder {
    /// Sets the token. The last token set is the one that counts.
    pub fn token(&mut self, token: &str) -> (r: &mut Self)
        ensures
            r@ == old(self)@.with_token(token@),
            *final(self) == *final(r),
    {
        self.token = Some(token.to_owned());
        self
    }

    /// Hands in a transport. The client will use it as it is, and the
    /// builder will make none of its own.
    pub fn custom_client(&mut self, client: HttpClient) -> (r: &mut Self)
        ensures
            r@ == old(self)@.with_custom_client(client),
            *final(self) == *final(r),
    {
        self.custom_client = Some(client);
        self
    }

    /// Sets the base URL of the service.
    pub fn base_url(&mut self, url: Url) -> (r: &mut Self)
        ensures
            r@ == old(self)@.with_base_url(url),
            *final(self) == *final(r),
    {
        self.base_url = Some(url);
        self
    }

    /// Whether [`ClientBuilder::build`] may be called: it may unless the
    /// builder has to make the transport itself from a token that cannot be
    /// sent.
    pub fn is_buildable(&self) -> (r: bool)
        ensures
            r == self@.buildable(),
    {
        match (&self.custom_client, &self.token) {
            (None, Some(token)) => is_valid_token(token.as_str()),
            _ => true,
        }
    }

    /// Builds the client. A transport that was handed in is used as it is;
    /// otherwise the default transport is made, with the user agent, the
    /// client version, and the token if there is one. Without a base URL of
    /// its own the client talks to the default service.
    ///
    /// Making the default transport can fail for reasons of the machine, and
    /// that failure is handed on. With a transport and a base URL handed in,
    /// building cannot fail.
    pub fn build(&mut self) -> (r: Result<Client, Error>)
        requires
            old(self)@.buildable(),
        ensures
            *final(self) == *old(self),
            match r {
                Ok(client) => {
                    &&& client@.token == old(self)@.token
                    &&& match old(self)@.custom_client {
                        Some(custom) => client@.http_client == custom,
                        None => default_headers_of(client@.http_client) == default_headers(
                            old(self)@.token,
                        ) && carries_defaults(
                            default_headers_of(client@.http_client),
                            old(self)@.token,
                        ),
                    }
                    &&& match old(self)@.base_url {
                        Some(url) => client@.base_url == url,
                        None => url_parsed(DEFAULT_BASE_URL@) == Some(url_text(client@.base_url)),
                    }
                },
                Err(Error::Reqwest(TransportError::Http(_))) => old(self)@.custom_client is None,
                Err(Error::Other(_)) => old(self)@.base_url is None && url_parsed(
                    DEFAULT_BASE_URL@,
                ) is None,
                Err(_) => false,
            },
            exists|transport: Result<HttpClient, HttpError>, default_url: Result<Url, String>|
                match r {
                    Ok(client) => #[trigger] built(old(self)@, transport, default_url) == Ok::<
                        ClientView,
                        Error,
                    >(client@),
                    Err(failure) => built(old(self)@, transport, default_url) == Err::<
                        ClientView,
                        Error,
                    >(failure),
                },
    {
        let http_client = match &self.custom_client {
            Some(custom) => Ok(http_client_clone(custom)),
            None => create_http_client(&self.token),
        };
        let base_url = match &self.base_url {
            Some(url) => Ok(url_clone(url)),
            None => url_parse(DEFAULT_BASE_URL),
        };
        let ghost transport = http_client;
        let ghost default_url = base_url;
        let r = Client::assemble(self.token.clone(), http_client, base_url);
        assert(r matches Ok(client) ==> built(old(self)@, transport, default_url) == Ok::<
            ClientView,
            Error,
        >(client@));
        assert(r matches Err(failure) ==> built(old(self)@, transport, default_url) == Err::<
            ClientView,
            Error,
        >(failure));
        r
    }
}

/// The method of a request.
#[derive(Debug, Clone, Copy, PartialEq, Eq, Structural)]
pub enum Method {
    Get,
}

/// A request that an endpoint needs: the transport adds its default headers
/// when it sends it. No endpoint sends a body yet.
#[derive(Debug)]
pub struct Request {
    pub method: Method,
    pub url: Url,
}

/// What came back for a request: the status, and the body as it was read.
#[derive(Debug)]
pub struct HttpReply {
    pub status: u16,
    pub body: Vec<u8>,
}

/// What a reply to an endpoint means: a failure of the transport is handed
/// on; a body that is no envelope is a failure of the transport too, and
/// keeps the status it came with; every envelope is handed out, also one
/// that carries an error of the service.
pub open spec fn reply_meaning(reply: Result<HttpReply, HttpError>) -> Option<
    Result<crate::models::EnvelopeView<Json>, Error>,
> {
    match reply {
        Err(failure) => Some(Err(Error::Reqwest(TransportError::Http(failure)))),
        Ok(reply) => match decoded(reply.body@) {
            None => None,
            Some(Ok(envelope)) => Some(Ok(envelope)),
            Some(Err(fault)) => Some(
                Err(Error::Reqwest(TransportError::Decode { status: reply.status, fault })),
            ),
        },
    }
}

impl Client {
    /// Puts a client together from a token and what the outside gave: a
    /// transport, unless none could be made, and a base URL, unless none
    /// could be read.
    pub fn assemble(
        token: Option<String>,
        http_client: Result<HttpClient, HttpError>,
        base_url: Result<Url, String>,
    ) -> (r: Result<Client, Error>)
        ensures
            match r {
                Ok(client) => assembled(text_of(token), http_client, base_url) == Ok::<
                    ClientView,
                    Error,
                >(client@),
                Err(failure) => assembled(text_of(token), http_client, base_url) == Err::<
                    ClientView,
                    Error,
                >(failure),
            },
    {
        match http_client {
            Err(failure) => Err(Error::from(failure)),
            Ok(http_client) => match base_url {
                Err(message) => Err(Error::Other(message)),
                Ok(base_url) => Ok(Client { token, http_client, base_url }),
            },
        }
    }

    /// A builder that has been told nothing yet.
    pub fn builder() -> (r: ClientBuilder)
        ensures
            r@ == (ClientBuilderView { token: None, custom_client: None, base_url: None }),
    {
        ClientBuilder::default()
    }

    /// The token that the client was built with.
    pub fn token(&self) -> (r: Option<&str>)
        ensures
            match r {
                Some(t) => self@.token == Some(t@),
                None => self@.token is None,
            },
    {
        match &self.token {
            Some(t) => Some(t.as_str()),
            None => None,
        }
    }

    /// The transport that requests are to be sent with.
    pub fn http_client(&self) -> (r: &HttpClient)
        ensures
            *r == self@.http_client,
    {
        &self.http_client
    }

    /// The base URL of the service.
    pub fn base_url(&self) -> (r: &Url)
        ensures
            *r == self@.base_url,
    {
        &self.base_url
    }

    /// The URL of an endpoint: its path resolved against the base URL, as a
    /// browser resolves a link. `None` where the base URL admits no such
    /// resolution.
    pub fn endpoint(&self, path: &str) -> (r: Option<Url>)
        ensures
            match r {
                Some(url) => url_joined(url_text(self@.base_url), path@) == Some(url_text(url)),
                None => url_joined(url_text(self@.base_url), path@) is None,
            },
    {
        url_join(&self.base_url, path)
    }

    /// The request that asks for the status of the account: a `GET` of the
    /// account-status path under the base URL.
    pub fn account_status_request(&self) -> (r: Option<Request>)
        ensures
            match r {
                Some(request) => request.method == Method::Get && url_joined(
                    url_text(self@.base_url),
                    ACCOUNT_STATUS_PATH@,
                ) == Some(url_text(request.url)),
                None => url_joined(url_text(self@.base_url), ACCOUNT_STATUS_PATH@) is None,
            },
    {
        match self.endpoint(ACCOUNT_STATUS_PATH) {
            Some(url) => Some(Request { method: Method::Get, url }),
            None => None,
        }
    }

    /// The status of the account, read off what came back for
    /// [`Client::account_status_request`]. The payload is the JSON value of
    /// the `result` member as it stands.
    pub fn account_status(&self, reply: Result<HttpReply, HttpError>) -> (r: Result<
        YmApiResponse<serde_json::Value>,
        Error,
    >)
        ensures
            match reply_meaning(reply) {
                Some(Ok(envelope)) => r matches Ok(e) && json_envelope(e) == envelope,
                Some(Err(failure)) => r == Err::<YmApiResponse<serde_json::Value>, Error>(failure),
                None => r matches Err(
                    Error::Reqwest(
                        TransportError::Decode { status, fault: DecodeFault::Syntax(_) },
                    ),
                ) && reply matches Ok(got) && status == got.status,
            },
    {
        match reply {
            Err(failure) => Err(Error::from(failure)),
            Ok(got) => match YmApiResponse::decode(got.body.as_slice()) {
                Ok(envelope) => Ok(envelope),
                Err(fault) => Err(
                    Error::Reqwest(TransportError::Decode { status: got.status, fault }),
                ),
            },
        }
    }
}

/// A token of printable ASCII characters can be sent.
pub proof fn lemma_printable_token_is_valid(token: Seq<char>)
    requires
        forall|i: int| 0 <= i < token.len() ==> ' ' <= #[trigger] token[i] <= '~',
    ensures
        valid_token(token),
{
    reveal_strlit("OAuth ");
    lemma_printable_is_header_value(authorization_text(token));
}

/// The headers of the default transport carry what it owes to every
/// request, for every token and without one.
pub proof fn lemma_default_headers_carry(token: Option<Seq<char>>)
    ensures
        carries_defaults(default_headers(token), token),
{
    lemma_protocol_constants();
}

/// Every default transport sends the user agent and the client version,
/// with or without a token.
pub proof fn lemma_mandatory_headers(token: Option<Seq<char>>)
    ensures
        default_headers(token).dom().contains("user-agent"@),
        default_headers(token)["user-agent"@] == encode_utf8(USER_AGENT@),
        default_headers(token).dom().contains(CLIENT_HEADER@),
        default_headers(token)[CLIENT_HEADER@] == encode_utf8(CLIENT_VERSION@),
{
    lemma_protocol_constants();
}

/// The default transport sends the authorization header if and only if a
/// token was set, and then with the value `OAuth <token>`.
pub proof fn lemma_authorization_iff_token(token: Option<Seq<char>>)
    ensures
        default_headers(token).dom().contains(AUTHORIZATION_HEADER@) <==> token is Some,
        token matches Some(t) ==> default_headers(token)[AUTHORIZATION_HEADER@] == encode_utf8(
            "OAuth "@ + t,
        ),
{
    lemma_protocol_constants();
}

/// The last token set is the one that counts: setting a token twice leaves
/// the configuration that setting the second one alone would leave, and a
/// client built from it carries the second token.
pub proof fn lemma_token_last_write_wins(
    config: ClientBuilderView,
    first: Seq<char>,
    second: Seq<char>,
    transport: Result<HttpClient, HttpError>,
    default_url: Result<Url, String>,
)
    ensures
        config.with_token(first).with_token(second) == config.with_token(second),
        built(config.with_token(first).with_token(second), transport, default_url) matches Ok(
            client,
        ) ==> client.token == Some(second),
{
}

/// A transport that was handed in is used as it is: the client holds that
/// transport, and what the builder would have made in its place plays no
/// part.
pub proof fn lemma_custom_transport_verbatim(
    config: ClientBuilderView,
    custom: HttpClient,
    transport: Result<HttpClient, HttpError>,
    other: Result<HttpClient, HttpError>,
    default_url: Result<Url, String>,
)
    ensures
        built(config.with_custom_client(custom), transport, default_url) matches Ok(client)
            ==> client.http_client == custom,
        built(config.with_custom_client(custom), transport, default_url) == built(
            config.with_custom_client(custom),
            other,
            default_url,
        ),
{
}

} // verus!
