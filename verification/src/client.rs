//! The web client to consume SoftENGINE's WEBSERVICES.
//!
//! A session starts unauthenticated. Registration either adopts credentials
//! supplied at construction (no network exchange) or stores the service
//! pass a REGISTER response carries; deregistration clears the credentials
//! again. While authenticated, every request is signed: header construction
//! computes a fresh signature, advances the request counter, and reports
//! the pagination cursor when one is open and not suspended. The functions
//! here compute URLs, headers and request bodies and track the session
//! state; sending the requests over HTTP is the embedding application's
//! part.

use vstd::prelude::*;

use crate::app_hash::{now_http_date, signature_hash, AppHash};
use crate::credentials::Credentials;
use crate::cursor::{spec_closed, Cursor};
use crate::decimal::{spec_decimal, u32_to_decimal};
use crate::error::WWSVCError;
use crate::params::{lemma_last_value_append, pairs_view, spec_last_value, Parameters};
use crate::requests::{ExecJsonRequest, SignedRequest, ToServiceFunctionParameters};
use crate::responses::RegisterResponse;

verus! {

/// The URL that resolving a relative reference against a base URL yields,
/// as `url::Url::parse` followed by `url::Url::join` computes it; `None`
/// when the base does not parse or the reference does not resolve.
pub uninterp spec fn url_join_of(base: Seq<char>, rel: Seq<char>) -> Option<Seq<char>>;

/// Relies on `url::Url::parse` and `url::Url::join`: parses `base` and
/// resolves `rel` against it, a function of the two strings alone.
/// Returns `None` exactly when parsing or joining fails.
#[verifier::external_body]
fn url_join(base: &str, rel: &str) -> (r: Option<String>)
    ensures
        r is Some <==> url_join_of(base@, rel@) is Some,
        r is Some ==> r.unwrap()@ == url_join_of(base@, rel@).unwrap(),
{
    match url::Url::parse(base) {
        Ok(u) => match u.join(rel) {
            Ok(j) => Some(String::from(j)),
            Err(_) => None,
        },
        Err(_) => None,
    }
}

/// Resolving a further reference against an already-chained join.
pub open spec fn spec_join_next(base: Option<Seq<char>>, rel: Seq<char>) -> Option<Seq<char>> {
    match base {
        None => None,
        Some(b) => url_join_of(b, rel),
    }
}

/// The web client to consume SoftENGINE's WEBSERVICES.
///
/// The connection configuration is fixed at construction; the credentials,
/// the request counter, the cursor and the suspend flag mutate as the
/// session is driven.
#[derive(Clone, Debug)]
pub struct WebwareClient {
    /// Full URL to the WEBWARE instance, already resolved to its
    /// WEBSERVICES root.
    pub webware_url: String,
    /// Vendor hash of the application.
    pub vendor_hash: String,
    /// Application hash of the application.
    pub app_hash: String,
    /// Application secret, assigned by the WEBWARE instance.
    pub secret: String,
    /// Revision of the application.
    pub revision: u32,
    /// Credentials of the client; present exactly while authenticated.
    pub credentials: Option<Credentials>,
    /// Maximum amount of objects that are returned in a request.
    pub result_max_lines: u32,
    /// Request cursor for pagination.
    pub cursor: Option<Cursor>,
    /// Current request ID.
    pub current_request: u32,
    /// Whether the cursor is suspended for the next requests.
    pub suspend_cursor: bool,
    /// Allow invalid TLS certificates (transport setting, read by the
    /// embedding application).
    pub allow_insecure: bool,
    /// Timeout for requests, in seconds (transport setting, read by the
    /// embedding application).
    pub timeout_seconds: u64,
}

impl WebwareClient {
    /// Whether the session is authenticated: credentials are present.
    pub open spec fn authenticated(&self) -> bool {
        self.credentials is Some
    }

    /// Whether the next request reports the cursor: the session is
    /// authenticated and holds an open cursor that is not suspended.
    pub open spec fn spec_uses_cursor(&self) -> bool {
        &&& self.authenticated()
        &&& !self.suspend_cursor
        &&& self.cursor is Some
        &&& !spec_closed(self.cursor.unwrap())
    }

    /// The page size the next request announces: the cursor's page size
    /// while the cursor is in use, the session default otherwise.
    pub open spec fn spec_effective_max_lines(&self) -> u32 {
        if self.spec_uses_cursor() {
            self.cursor.unwrap().max_lines
        } else {
            self.result_max_lines
        }
    }

    /// The REGISTER endpoint for this client's configuration.
    pub open spec fn spec_register_url(&self) -> Option<Seq<char>> {
        spec_join_next(
            spec_join_next(
                spec_join_next(
                    spec_join_next(
                        spec_join_next(
                            url_join_of(self.webware_url@, "WWSERVICE/"@),
                            "REGISTER/"@,
                        ),
                        self.vendor_hash@ + "/"@,
                    ),
                    self.app_hash@ + "/"@,
                ),
                self.secret@ + "/"@,
            ),
            spec_decimal(self.revision as nat) + "/"@,
        )
    }

    /// The DEREGISTER endpoint for this client's credentials.
    pub open spec fn spec_deregister_url(&self) -> Option<Seq<char>> {
        spec_join_next(
            spec_join_next(
                url_join_of(self.webware_url@, "WWSERVICE/"@),
                "DEREGISTER/"@,
            ),
            self.credentials.unwrap().service_pass@ + "/"@,
        )
    }

    /// The EXECJSON endpoint for this client's configuration.
    pub open spec fn spec_execjson_url(&self) -> Option<Seq<char>> {
        url_join_of(self.webware_url@, "EXECJSON"@)
    }

    /// Creates a builder for the client.
    pub fn builder() -> (r: ClientBuilder)
        ensures
            r.spec_is_default(),
    {
        ClientBuilder::new()
    }

    /// Returns whether the session is authenticated.
    pub fn is_authenticated(&self) -> (r: bool)
        ensures
            r == self.authenticated(),
    {
        self.credentials.is_some()
    }

    /// Generates a set of credentials from the current client.
    pub fn credentials(&self) -> (r: &Credentials)
        requires
            self.authenticated(),
        ensures
            *r == self.credentials.unwrap(),
    {
        self.credentials.as_ref().unwrap()
    }

    /// The REGISTER URL to contact for network registration.
    pub fn register_url(&self) -> (r: Result<String, WWSVCError>)
        ensures
            r is Ok <==> (self.spec_register_url() is Some),
            r is Ok ==> r.unwrap()@ == self.spec_register_url().unwrap(),
            r is Err ==> r == Err::<String, WWSVCError>(WWSVCError::UrlParseError),
    {
        let u1 = match url_join(self.webware_url.as_str(), "WWSERVICE/") {
            Some(u) => u,
            None => {
                return Err(WWSVCError::UrlParseError);
            },
        };
        let u2 = match url_join(u1.as_str(), "REGISTER/") {
            Some(u) => u,
            None => {
                return Err(WWSVCError::UrlParseError);
            },
        };
        let vendor_seg = self.vendor_hash.clone().concat("/");
        let u3 = match url_join(u2.as_str(), vendor_seg.as_str()) {
            Some(u) => u,
            None => {
                return Err(WWSVCError::UrlParseError);
            },
        };
        let app_seg = self.app_hash.clone().concat("/");
        let u4 = match url_join(u3.as_str(), app_seg.as_str()) {
            Some(u) => u,
            None => {
                return Err(WWSVCError::UrlParseError);
            },
        };
        let secret_seg = self.secret.clone().concat("/");
        let u5 = match url_join(u4.as_str(), secret_seg.as_str()) {
            Some(u) => u,
            None => {
                return Err(WWSVCError::UrlParseError);
            },
        };
        let revision_seg = u32_to_decimal(self.revision).concat("/");
        let u6 = match url_join(u5.as_str(), revision_seg.as_str()) {
            Some(u) => u,
            None => {
                return Err(WWSVCError::UrlParseError);
            },
        };
        Ok(u6)
    }

    /// The DEREGISTER URL to contact for invalidating the service pass.
    pub fn deregister_url(&self) -> (r: Result<String, WWSVCError>)
        ensures
            !self.authenticated() ==> r == Err::<String, WWSVCError>(
                WWSVCError::NotAuthenticated,
            ),
            self.authenticated() ==> {
                &&& (r is Ok <==> (self.spec_deregister_url() is Some))
                &&& (r is Ok ==> r.unwrap()@ == self.spec_deregister_url().unwrap())
                &&& (r is Err ==> r == Err::<String, WWSVCError>(WWSVCError::UrlParseError))
            },
    {
        let credentials = match &self.credentials {
            Some(c) => c,
            None => {
                return Err(WWSVCError::NotAuthenticated);
            },
        };
        let u1 = match url_join(self.webware_url.as_str(), "WWSERVICE/") {
            Some(u) => u,
            None => {
                return Err(WWSVCError::UrlParseError);
            },
        };
        let u2 = match url_join(u1.as_str(), "DEREGISTER/") {
            Some(u) => u,
            None => {
                return Err(WWSVCError::UrlParseError);
            },
        };
        let pass_seg = credentials.service_pass.clone().concat("/");
        let u3 = match url_join(u2.as_str(), pass_seg.as_str()) {
            Some(u) => u,
            None => {
                return Err(WWSVCError::UrlParseError);
            },
        };
        Ok(u3)
    }

    /// Stores the service pass a REGISTER response carries: the session is
    /// authenticated with exactly the returned pass id and app id.
    pub fn apply_register_response(&mut self, response: RegisterResponse)
        ensures
            (final(self).credentials is Some),
            final(self).credentials.unwrap().service_pass@
                == response.service_pass.pass_id@,
            final(self).credentials.unwrap().app_id@ == response.service_pass.app_id@,
            *final(self) == (WebwareClient { credentials: final(self).credentials, ..*old(self) }),
    {
        self.credentials = Some(
            Credentials {
                service_pass: response.service_pass.pass_id,
                app_id: response.service_pass.app_id,
            },
        );
    }

    /// Clears the credentials locally: the session is unauthenticated
    /// afterwards, whatever the outcome of the best-effort DEREGISTER
    /// exchange was.
    pub fn deregister_local(&mut self)
        ensures
            (final(self).credentials is None),
            *final(self) == (WebwareClient { credentials: None, ..*old(self) }),
    {
        self.credentials = None;
    }

    /// Creates a new pagination cursor and makes it available for the next
    /// requests (until it is closed).
    pub fn create_cursor(&mut self, max_lines: u32)
        ensures
            (final(self).cursor is Some),
            final(self).cursor.unwrap().cursor_id@ == crate::cursor::created_id(),
            final(self).cursor.unwrap().max_lines == max_lines,
            !spec_closed(final(self).cursor.unwrap()),
            final(self).result_max_lines == max_lines,
            *final(self) == (WebwareClient {
                cursor: final(self).cursor,
                result_max_lines: max_lines,
                ..*old(self)
            }),
    {
        let cursor = Cursor::new(max_lines);
        self.cursor = Some(cursor);
        self.result_max_lines = max_lines;
    }

    /// Closes the current cursor, if any, and removes it from the client.
    pub fn close_cursor(&mut self)
        ensures
            (final(self).cursor is None),
            *final(self) == (WebwareClient { cursor: None, ..*old(self) }),
    {
        self.cursor = None;
    }

    /// Returns whether the client currently has a cursor.
    pub fn has_cursor(&self) -> (r: bool)
        ensures
            r == ((self.cursor is Some)),
    {
        self.cursor.is_some()
    }

    /// Sets the maximum amount of results that are returned in a response.
    pub fn set_result_max_lines(&mut self, max_lines: u32)
        ensures
            *final(self) == (WebwareClient { result_max_lines: max_lines, ..*old(self) }),
    {
        self.result_max_lines = max_lines;
    }

    /// Suspends the cursor, so that it is not used for the next request.
    pub fn suspend_cursor(&mut self)
        ensures
            *final(self) == (WebwareClient { suspend_cursor: true, ..*old(self) }),
    {
        self.suspend_cursor = true;
    }

    /// Resumes the cursor, so that it is used for the next request.
    pub fn resume_cursor(&mut self)
        ensures
            *final(self) == (WebwareClient { suspend_cursor: false, ..*old(self) }),
    {
        self.suspend_cursor = false;
    }

    /// Returns whether the current cursor is closed.
    ///
    /// Returns true if no cursor exists or if the cursor is closed.
    pub fn cursor_closed(&self) -> (r: bool)
        ensures
            r == (self.cursor is None || spec_closed(self.cursor.unwrap())),
    {
        match &self.cursor {
            None => true,
            Some(c) => c.closed(),
        }
    }

    /// Advances the cursor from a response: when the session holds an open,
    /// non-suspended cursor and the response carried a cursor header, the
    /// cursor takes the server-supplied id; nothing else changes.
    pub fn apply_response_cursor(&mut self, response_cursor: Option<&String>)
        ensures
            old(self).spec_uses_cursor() && response_cursor is Some ==> {
                &&& (final(self).cursor is Some)
                &&& final(self).cursor.unwrap().cursor_id@ == response_cursor.unwrap()@
                &&& final(self).cursor.unwrap().max_lines
                    == old(self).cursor.unwrap().max_lines
                &&& *final(self) == (WebwareClient {
                    cursor: final(self).cursor,
                    ..*old(self)
                })
            },
            !(old(self).spec_uses_cursor() && response_cursor is Some) ==> *final(self)
                == *old(self),
    {
        if self.credentials.is_some() && !self.suspend_cursor {
            let open_cursor = match &self.cursor {
                Some(c) => !c.closed(),
                None => false,
            };
            if open_cursor {
                if let Some(new_id) = response_cursor {
                    if let Some(cursor) = &mut self.cursor {
                        cursor.set_cursor_id(new_id.clone());
                    }
                }
            }
        }
    }
}

/// The views of caller-supplied extra headers; empty when none were given.
pub open spec fn spec_extras(additional: Option<&Vec<(String, String)>>) -> Seq<
    (Seq<char>, Seq<char>),
> {
    match additional {
        None => Seq::empty(),
        Some(v) => pairs_view(v@),
    }
}

/// The authentication headers of a request signed at timestamp `ts`: the
/// advanced request id in decimal, the timestamp itself, the signature
/// hash, and — while the cursor is in use — the cursor id. Empty for an
/// unauthenticated session.
pub open spec fn spec_auth_headers(c: WebwareClient, ts: Seq<char>) -> Seq<
    (Seq<char>, Seq<char>),
> {
    if c.authenticated() {
        seq![
            ("WWSVC-REQID"@, spec_decimal((c.current_request + 1) as nat)),
            ("WWSVC-TS"@, ts),
            ("WWSVC-HASH"@, signature_hash(c.credentials.unwrap().app_id@, ts)),
        ] + (if c.spec_uses_cursor() {
            seq![("WWSVC-CURSOR"@, c.cursor.unwrap().cursor_id@)]
        } else {
            Seq::empty()
        })
    } else {
        Seq::empty()
    }
}

/// The headers every request carries: the execute mode, the accepted
/// result type and the announced page size.
pub open spec fn spec_common_headers(c: WebwareClient, result_type: Seq<char>) -> Seq<
    (Seq<char>, Seq<char>),
> {
    seq![
        ("WWSVC-EXECUTE-MODE"@, "SYNCHRON"@),
        ("WWSVC-ACCEPT-RESULT-TYPE"@, result_type),
        ("WWSVC-ACCEPT-RESULT-MAX-LINES"@, spec_decimal(c.spec_effective_max_lines() as nat)),
    ]
}

/// The full header list of a request: authentication headers, common
/// headers, then the caller's extra headers, which win on conflicts.
pub open spec fn spec_default_headers(
    c: WebwareClient,
    ts: Seq<char>,
    result_type: Seq<char>,
    extras: Seq<(Seq<char>, Seq<char>)>,
) -> Seq<(Seq<char>, Seq<char>)> {
    spec_auth_headers(c, ts) + spec_common_headers(c, result_type) + extras
}

/// Whether the dynamic header values are transmittable: the cursor id when
/// the cursor is in use, and every extra header's name and value, consist
/// of ASCII characters. The generated values (decimals, the timestamp, the
/// hexadecimal hash) are ASCII by construction.
pub open spec fn spec_header_values_ok(
    c: WebwareClient,
    extras: Seq<(Seq<char>, Seq<char>)>,
) -> bool {
    &&& (c.spec_uses_cursor() ==> vstd::utf8::is_ascii_chars(c.cursor.unwrap().cursor_id@))
    &&& forall|i: int|
        0 <= i < extras.len() ==> vstd::utf8::is_ascii_chars((#[trigger] extras[i]).0)
            && vstd::utf8::is_ascii_chars(extras[i].1)
}

/// The value stored under `name` in a header list, or `None`; the last
/// entry under the name wins, matching `spec_last_value`.
pub fn header_value(headers: &Vec<(String, String)>, name: &str) -> (r: Option<String>)
    ensures
        r is Some <==> (spec_last_value(pairs_view(headers@), name@) is Some),
        r is Some ==> r.unwrap()@ == spec_last_value(pairs_view(headers@), name@).unwrap(),
{
    let ghost s = pairs_view(headers@);
    let name_string: String = name.to_owned();
    let mut i: usize = headers.len();
    proof {
        assert(s.take(headers@.len() as int) =~= s);
    }
    while i > 0
        invariant
            i <= headers@.len(),
            s == pairs_view(headers@),
            name_string@ == name@,
            spec_last_value(s, name@) == spec_last_value(s.take(i as int), name@),
        decreases i,
    {
        i = i - 1;
        if headers[i].0 == name_string {
            proof {
                assert(s.take(i as int + 1).last() == s[i as int]);
            }
            return Some(headers[i].1.clone());
        }
        proof {
            assert(s.take(i as int + 1).last() == s[i as int]);
            assert(s.take(i as int + 1).drop_last() =~= s.take(i as int));
        }
    }
    proof {
        assert(s.take(0) =~= Seq::<(Seq<char>, Seq<char>)>::empty());
    }
    None
}

impl WebwareClient {
    /// Builds the header list of one request signed at `timestamp`:
    /// validates the dynamic values, computes the signature, advances the
    /// request counter, and reports the cursor while it is in use. Returns
    /// the headers together with the signature hash and the timestamp that
    /// went into it.
    fn build_headers_core(
        &mut self,
        timestamp: String,
        additional: Option<&Vec<(String, String)>>,
        result_type: &str,
    ) -> (r: Result<(Vec<(String, String)>, String, String), WWSVCError>)
        requires
            old(self).authenticated() ==> old(self).current_request < u32::MAX,
        ensures
            r is Ok <==> spec_header_values_ok(*old(self), spec_extras(additional)),
            r is Err ==> *final(self) == *old(self) && r == Err::<
                (Vec<(String, String)>, String, String),
                WWSVCError,
            >(WWSVCError::InvalidHeader),
            r is Ok ==> pairs_view(r.unwrap().0@) == spec_default_headers(
                *old(self),
                timestamp@,
                result_type@,
                spec_extras(additional),
            ),
            r is Ok ==> r.unwrap().2@ == timestamp@,
            r is Ok && old(self).authenticated() ==> {
                &&& final(self).current_request == old(self).current_request + 1
                &&& *final(self) == (WebwareClient {
                    current_request: final(self).current_request,
                    ..*old(self)
                })
                &&& r.unwrap().1@ == signature_hash(
                    old(self).credentials.unwrap().app_id@,
                    timestamp@,
                )
            },
            r is Ok && !old(self).authenticated() ==> *final(self) == *old(self),
    {
        // Validate the dynamic values first, so that a rejected request
        // leaves the session untouched.
        let use_cursor = self.credentials.is_some() && !self.suspend_cursor && (match &self
            .cursor {
            Some(c) => !c.closed(),
            None => false,
        });
        proof {
            assert(use_cursor == old(self).spec_uses_cursor());
        }
        if use_cursor {
            let ok = match &self.cursor {
                Some(c) => c.cursor_id.as_str().is_ascii(),
                None => false,
            };
            if !ok {
                return Err(WWSVCError::InvalidHeader);
            }
        }
        if let Some(extra) = additional {
            let ghost ex = spec_extras(additional);
            let m = extra.len();
            let mut j: usize = 0;
            while j < m
                invariant
                    j <= m,
                    m == extra@.len(),
                    ex == pairs_view(extra@),
                    ex == spec_extras(additional),
                    *self == *old(self),
                    forall|q: int|
                        0 <= q < j ==> vstd::utf8::is_ascii_chars((#[trigger] ex[q]).0)
                            && vstd::utf8::is_ascii_chars(ex[q].1),
                decreases m - j,
            {
                if !extra[j].0.as_str().is_ascii() || !extra[j].1.as_str().is_ascii() {
                    proof {
                        assert(ex[j as int] == (extra@[j as int].0@, extra@[j as int].1@));
                        assert(!spec_header_values_ok(*old(self), spec_extras(additional)));
                    }
                    return Err(WWSVCError::InvalidHeader);
                }
                j = j + 1;
            }
        }
        // Build the list.
        let mut headers: Vec<(String, String)> = Vec::new();
        let mut max_lines = self.result_max_lines;
        let mut hash: String = String::new();
        let mut ts_out: String = timestamp;
        if self.credentials.is_some() {
            let app_id = match &self.credentials {
                Some(c) => c.app_id.clone(),
                None => String::new(),
            };
            let app_hash = AppHash::from_parts(self.current_request, app_id.as_str(), ts_out);
            self.current_request = app_hash.request_id;
            headers.push(("WWSVC-REQID".to_owned(), u32_to_decimal(self.current_request)));
            headers.push(("WWSVC-TS".to_owned(), app_hash.date_formatted.clone()));
            headers.push(("WWSVC-HASH".to_owned(), app_hash.hash.clone()));
            if use_cursor {
                let (cursor_id, cursor_max) = match &self.cursor {
                    Some(c) => (c.cursor_id.clone(), c.max_lines),
                    None => (String::new(), 0),
                };
                headers.push(("WWSVC-CURSOR".to_owned(), cursor_id));
                max_lines = cursor_max;
            }
            hash = app_hash.hash;
            ts_out = app_hash.date_formatted;
        }
        proof {
            assert(max_lines == old(self).spec_effective_max_lines());
            assert(pairs_view(headers@) =~= spec_auth_headers(*old(self), timestamp@));
        }
        headers.push(("WWSVC-EXECUTE-MODE".to_owned(), "SYNCHRON".to_owned()));
        headers.push(("WWSVC-ACCEPT-RESULT-TYPE".to_owned(), result_type.to_owned()));
        headers.push(("WWSVC-ACCEPT-RESULT-MAX-LINES".to_owned(), u32_to_decimal(max_lines)));
        proof {
            assert(pairs_view(headers@) =~= spec_auth_headers(*old(self), timestamp@)
                + spec_common_headers(*old(self), result_type@));
        }
        if let Some(extra) = additional {
            let ghost prefix = pairs_view(headers@);
            let m = extra.len();
            let mut j: usize = 0;
            while j < m
                invariant
                    j <= m,
                    m == extra@.len(),
                    pairs_view(headers@) =~= prefix + pairs_view(extra@).take(j as int),
                decreases m - j,
            {
                let name: String = extra[j].0.clone();
                let value: String = extra[j].1.clone();
                headers.push((name, value));
                proof {
                    let pv = pairs_view(extra@);
                    assert(pv[j as int] == (extra@[j as int].0@, extra@[j as int].1@));
                    assert(pv.take(j as int + 1) =~= pv.take(j as int).push(pv[j as int]));
                    assert(pairs_view(headers@) =~= (prefix + pv.take(j as int)).push(
                        pv[j as int],
                    ));
                    assert(prefix + pv.take(j as int + 1) =~= (prefix + pv.take(
                        j as int,
                    )).push(pv[j as int]));
                }
                j = j + 1;
            }
            proof {
                assert(pairs_view(extra@).take(m as int) =~= pairs_view(extra@));
            }
        }
        proof {
            assert(pairs_view(headers@) =~= spec_default_headers(
                *old(self),
                timestamp@,
                result_type@,
                spec_extras(additional),
            ));
        }
        Ok((headers, hash, ts_out))
    }

    /// Returns a set of headers, that are required on all requests to the
    /// WEBSERVICES (except `REGISTER`).
    ///
    /// For an authenticated session this computes a fresh signature over
    /// the current wall-clock time and advances the request ID.
    pub fn get_default_headers(
        &mut self,
        additional_headers: Option<&Vec<(String, String)>>,
    ) -> (r: Result<Vec<(String, String)>, WWSVCError>)
        requires
            old(self).authenticated() ==> old(self).current_request < u32::MAX,
        ensures
            r is Ok <==> spec_header_values_ok(*old(self), spec_extras(additional_headers)),
            r is Err ==> *final(self) == *old(self) && r == Err::<
                Vec<(String, String)>,
                WWSVCError,
            >(WWSVCError::InvalidHeader),
            r is Ok ==> (exists|ts: Seq<char>|
                #![auto]
                vstd::utf8::is_ascii_chars(ts) && ts.len() == 29 && pairs_view(r.unwrap()@)
                    == spec_default_headers(
                    *old(self),
                    ts,
                    "JSON"@,
                    spec_extras(additional_headers),
                )),
            r is Ok && old(self).authenticated() ==> final(self).current_request == old(
                self,
            ).current_request + 1 && *final(self) == (WebwareClient {
                current_request: final(self).current_request,
                ..*old(self)
            }),
            r is Ok && !old(self).authenticated() ==> *final(self) == *old(self),
    {
        let ts = now_http_date();
        let ghost ts_view = ts@;
        match self.build_headers_core(ts, additional_headers, "JSON") {
            Ok((headers, _hash, _ts)) => {
                proof {
                    assert(vstd::utf8::is_ascii_chars(ts_view) && ts_view.len() == 29
                        && pairs_view(headers@) == spec_default_headers(
                        *old(self),
                        ts_view,
                        "JSON"@,
                        spec_extras(additional_headers),
                    ));
                }
                Ok(headers)
            },
            Err(e) => Err(e),
        }
    }

    /// Returns the same set of headers, that `get_default_headers()`
    /// returns, except the result type header is set to `BIN` instead.
    pub fn get_bin_headers(
        &mut self,
        additional_headers: Option<&Vec<(String, String)>>,
    ) -> (r: Result<Vec<(String, String)>, WWSVCError>)
        requires
            old(self).authenticated() ==> old(self).current_request < u32::MAX,
        ensures
            r is Ok <==> spec_header_values_ok(*old(self), spec_extras(additional_headers)),
            r is Err ==> *final(self) == *old(self) && r == Err::<
                Vec<(String, String)>,
                WWSVCError,
            >(WWSVCError::InvalidHeader),
            r is Ok ==> (exists|ts: Seq<char>|
                #![auto]
                vstd::utf8::is_ascii_chars(ts) && ts.len() == 29 && pairs_view(r.unwrap()@)
                    == spec_default_headers(
                    *old(self),
                    ts,
                    "BIN"@,
                    spec_extras(additional_headers),
                )),
            r is Ok && old(self).authenticated() ==> final(self).current_request == old(
                self,
            ).current_request + 1 && *final(self) == (WebwareClient {
                current_request: final(self).current_request,
                ..*old(self)
            }),
            r is Ok && !old(self).authenticated() ==> *final(self) == *old(self),
    {
        let ts = now_http_date();
        let ghost ts_view = ts@;
        match self.build_headers_core(ts, additional_headers, "BIN") {
            Ok((headers, _hash, _ts)) => {
                proof {
                    assert(vstd::utf8::is_ascii_chars(ts_view) && ts_view.len() == 29
                        && pairs_view(headers@) == spec_default_headers(
                        *old(self),
                        ts_view,
                        "BIN"@,
                        spec_extras(additional_headers),
                    ));
                }
                Ok(headers)
            },
            Err(e) => Err(e),
        }
    }

    /// Prepares a request to the WEBSERVICES: resolves the `EXECJSON`
    /// endpoint, signs the current wall-clock time, and assembles the
    /// headers and the request body. The returned request is ready for the
    /// embedding application to send.
    ///
    /// An unauthenticated session is rejected before anything else — in
    /// particular before any network activity could occur.
    ///
    /// **NOTE:** This method will also update the internal state of the
    /// client, such as the request ID.
    pub fn prepare_request(
        &mut self,
        method: &str,
        function: &str,
        version: u32,
        parameters: Parameters,
        additional_headers: Option<&Vec<(String, String)>>,
    ) -> (r: Result<SignedRequest, WWSVCError>)
        requires
            old(self).authenticated() ==> old(self).current_request < u32::MAX,
        ensures
            !old(self).authenticated() ==> r == Err::<SignedRequest, WWSVCError>(
                WWSVCError::NotAuthenticated,
            ) && *final(self) == *old(self),
            r is Err ==> *final(self) == *old(self),
            old(self).authenticated() ==> {
                &&& (r == Err::<SignedRequest, WWSVCError>(WWSVCError::UrlParseError) <==> (
                old(self).spec_execjson_url() is None))
                &&& (r == Err::<SignedRequest, WWSVCError>(WWSVCError::InvalidHeader) <==> (
                old(self).spec_execjson_url() is Some && !spec_header_values_ok(
                    *old(self),
                    spec_extras(additional_headers),
                )))
                &&& (r is Ok <==> (old(self).spec_execjson_url() is Some
                    && spec_header_values_ok(*old(self), spec_extras(additional_headers))))
            },
            r is Ok ==> ({
                let req = r.unwrap();
                let ts = req.body.pass_info.timestamp@;
                &&& final(self).current_request == old(self).current_request + 1
                &&& *final(self) == (WebwareClient {
                    current_request: final(self).current_request,
                    ..*old(self)
                })
                &&& req.method@ == method@
                &&& req.url@ == old(self).spec_execjson_url().unwrap()
                &&& vstd::utf8::is_ascii_chars(ts)
                &&& ts.len() == 29
                &&& pairs_view(req.headers@) == spec_default_headers(
                    *old(self),
                    ts,
                    "JSON"@,
                    spec_extras(additional_headers),
                )
                &&& req.body.function.function_name@ == function@
                &&& req.body.function.revision == version
                &&& req.body.function.parameters@.len() == parameters@.len()
                &&& (forall|i: int|
                    0 <= i < parameters@.len() ==> (
                    #[trigger] req.body.function.parameters@[i])@ == parameters@[i])
                &&& req.body.pass_info.request_id == old(self).current_request + 1
                &&& req.body.pass_info.service_pass@ == old(
                    self,
                ).credentials.unwrap().service_pass@
                &&& req.body.pass_info.app_hash@ == signature_hash(
                    old(self).credentials.unwrap().app_id@,
                    ts,
                )
                &&& req.body.pass_info.execute_mode@ == "SYNCHRON"@
            }),
    {
        if self.credentials.is_none() {
            return Err(WWSVCError::NotAuthenticated);
        }
        let url = match url_join(self.webware_url.as_str(), "EXECJSON") {
            Some(u) => u,
            None => {
                return Err(WWSVCError::UrlParseError);
            },
        };
        let ts_now = now_http_date();
        let ghost ts_view = ts_now@;
        let (headers, hash, ts) = match self.build_headers_core(
            ts_now,
            additional_headers,
            "JSON",
        ) {
            Ok(t) => t,
            Err(e) => {
                return Err(e);
            },
        };
        let service_pass = match &self.credentials {
            Some(c) => c.service_pass.clone(),
            None => String::new(),
        };
        let params_vec = parameters.to_service_function_parameters();
        let body = ExecJsonRequest::new(
            function,
            params_vec,
            version,
            service_pass.as_str(),
            hash.as_str(),
            ts.as_str(),
            self.current_request,
        );
        Ok(SignedRequest { method: method.to_owned(), url, headers, body })
    }
}

/// Law: a prepared request parses back to what was supplied. In the header
/// list built for a signed request, the request id header holds the decimal
/// rendering of the advanced request counter — which parses back to exactly
/// that counter — the timestamp header holds the signed timestamp, and the
/// hash header holds the signature hash of the session credential and that
/// same timestamp. Together with the request body's contract this
/// reproduces the function name, parameter set, revision and request id
/// that were supplied.
pub proof fn lemma_request_round_trip(
    c: WebwareClient,
    ts: Seq<char>,
    result_type: Seq<char>,
    extras: Seq<(Seq<char>, Seq<char>)>,
)
    requires
        c.authenticated(),
        c.current_request < u32::MAX,
        forall|i: int|
            0 <= i < extras.len() ==> (#[trigger] extras[i]).0 != "WWSVC-REQID"@ && extras[i].0
                != "WWSVC-TS"@ && extras[i].0 != "WWSVC-HASH"@,
    ensures
        ({
            let headers = spec_default_headers(c, ts, result_type, extras);
            &&& spec_last_value(headers, "WWSVC-REQID"@) == Some(
                spec_decimal((c.current_request + 1) as nat),
            )
            &&& crate::decimal::spec_parse_decimal(spec_decimal((c.current_request + 1) as nat))
                == Some((c.current_request + 1) as nat)
            &&& spec_last_value(headers, "WWSVC-TS"@) == Some(ts)
            &&& spec_last_value(headers, "WWSVC-HASH"@) == Some(
                signature_hash(c.credentials.unwrap().app_id@, ts),
            )
        }),
{
    reveal_strlit("WWSVC-REQID");
    reveal_strlit("WWSVC-TS");
    reveal_strlit("WWSVC-HASH");
    reveal_strlit("WWSVC-CURSOR");
    reveal_strlit("WWSVC-EXECUTE-MODE");
    reveal_strlit("WWSVC-ACCEPT-RESULT-TYPE");
    reveal_strlit("WWSVC-ACCEPT-RESULT-MAX-LINES");
    crate::decimal::lemma_decimal_round_trip((c.current_request + 1) as nat);
    let headers = spec_default_headers(c, ts, result_type, extras);
    let auth = spec_auth_headers(c, ts);
    let tail = spec_common_headers(c, result_type) + extras;
    assert(headers =~= auth + tail);
    assert forall|i: int| 0 <= i < tail.len() implies (#[trigger] tail[i]).0 != "WWSVC-REQID"@
        && tail[i].0 != "WWSVC-TS"@ && tail[i].0 != "WWSVC-HASH"@ by {
        if i < 3 {
            assert(tail[i] == spec_common_headers(c, result_type)[i]);
            assert(tail[i].0.len() == 18 || tail[i].0.len() == 24 || tail[i].0.len() == 29);
        } else {
            assert(tail[i] == extras[i - 3]);
        }
        assert("WWSVC-REQID"@.len() == 11);
        assert("WWSVC-TS"@.len() == 8);
        assert("WWSVC-HASH"@.len() == 10);
    }
    lemma_last_value_append(auth, tail, "WWSVC-REQID"@);
    lemma_last_value_append(auth, tail, "WWSVC-TS"@);
    lemma_last_value_append(auth, tail, "WWSVC-HASH"@);
    let front = seq![
        ("WWSVC-REQID"@, spec_decimal((c.current_request + 1) as nat)),
        ("WWSVC-TS"@, ts),
        ("WWSVC-HASH"@, signature_hash(c.credentials.unwrap().app_id@, ts)),
    ];
    if c.spec_uses_cursor() {
        let cur = seq![("WWSVC-CURSOR"@, c.cursor.unwrap().cursor_id@)];
        assert(auth =~= front + cur);
        assert forall|i: int| 0 <= i < cur.len() implies (#[trigger] cur[i]).0
            != "WWSVC-REQID"@ && cur[i].0 != "WWSVC-TS"@ && cur[i].0 != "WWSVC-HASH"@ by {
            assert(cur[i].0.len() == 12);
        }
        lemma_last_value_append(front, cur, "WWSVC-REQID"@);
        lemma_last_value_append(front, cur, "WWSVC-TS"@);
        lemma_last_value_append(front, cur, "WWSVC-HASH"@);
    } else {
        assert(auth =~= front);
    }
    assert(front.last() == front[2]);
    assert(spec_last_value(front, "WWSVC-HASH"@) == Some(
        signature_hash(c.credentials.unwrap().app_id@, ts),
    ));
    assert(front.drop_last() =~= front.take(2));
    assert(front.last().0 == "WWSVC-HASH"@);
    assert("WWSVC-HASH"@ != "WWSVC-TS"@ && "WWSVC-HASH"@ != "WWSVC-REQID"@) by {
        assert("WWSVC-HASH"@.len() == 10);
        assert("WWSVC-TS"@.len() == 8);
        assert("WWSVC-REQID"@.len() == 11);
    }
    assert(spec_last_value(front, "WWSVC-TS"@) == spec_last_value(
        front.take(2),
        "WWSVC-TS"@,
    ));
    assert(spec_last_value(front, "WWSVC-REQID"@) == spec_last_value(
        front.take(2),
        "WWSVC-REQID"@,
    ));
    assert(front.take(2).last() == front[1]);
    assert(spec_last_value(front.take(2), "WWSVC-TS"@) == Some(ts));
    assert(spec_last_value(front, "WWSVC-TS"@) == Some(ts));
    assert(front.take(2).drop_last() =~= front.take(1));
    assert("WWSVC-TS"@ != "WWSVC-REQID"@) by {
        assert("WWSVC-TS"@.len() == 8);
        assert("WWSVC-REQID"@.len() == 11);
    }
    assert(spec_last_value(front.take(2), "WWSVC-REQID"@) == spec_last_value(
        front.take(1),
        "WWSVC-REQID"@,
    ));
    assert(front.take(1).last() == front[0]);
    assert(spec_last_value(front.take(1), "WWSVC-REQID"@) == Some(
        spec_decimal((c.current_request + 1) as nat),
    ));
    assert(spec_last_value(front, "WWSVC-REQID"@) == Some(
        spec_decimal((c.current_request + 1) as nat),
    ));
}

/// The internal builder for constructing a `WebwareClient`.
///
/// The URL, vendor hash, app hash, secret and revision must be set for the
/// built client to reach the server; credentials, page size, certificate
/// handling and timeout have defaults.
#[derive(Clone, Debug)]
pub struct ClientBuilder {
    /// Full URL to the WEBWARE instance without the path to the WWSVC.
    pub webware_url: String,
    /// Vendor hash of the application.
    pub vendor_hash: String,
    /// Application hash of the application.
    pub app_hash: String,
    /// Application secret, assigned by the WEBWARE instance.
    pub secret: String,
    /// Revision of the application.
    pub revision: u32,
    /// Credentials of the client.
    pub credentials: Option<Credentials>,
    /// Maximum amount of objects that are returned in a request.
    pub result_max_lines: u32,
    /// Allow unsafe SSL certificates.
    pub allow_insecure: bool,
    /// Timeout for the request, in seconds.
    pub timeout_seconds: u64,
}

impl ClientBuilder {
    /// The builder state before any setter ran: empty configuration
    /// strings, no credentials, 1000 result lines, certificates validated,
    /// a 60 second timeout.
    pub open spec fn spec_is_default(&self) -> bool {
        &&& self.webware_url@ == Seq::<char>::empty()
        &&& self.vendor_hash@ == Seq::<char>::empty()
        &&& self.app_hash@ == Seq::<char>::empty()
        &&& self.secret@ == Seq::<char>::empty()
        &&& self.revision == 0
        &&& self.credentials is None
        &&& self.result_max_lines == 1000
        &&& !self.allow_insecure
        &&& self.timeout_seconds == 60
    }

    /// Creates a builder with the default configuration.
    pub fn new() -> (r: ClientBuilder)
        ensures
            r.spec_is_default(),
    {
        ClientBuilder {
            webware_url: String::new(),
            vendor_hash: String::new(),
            app_hash: String::new(),
            secret: String::new(),
            revision: 0,
            credentials: None,
            result_max_lines: 1000,
            allow_insecure: false,
            timeout_seconds: 60,
        }
    }

    /// Sets the URL of the WEBWARE instance, e.g. `https://localhost:8080`.
    pub fn webware_url(self, url: &str) -> (r: ClientBuilder)
        ensures
            r == (ClientBuilder { webware_url: r.webware_url, ..self }),
            r.webware_url@ == url@,
    {
        ClientBuilder { webware_url: url.to_owned(), ..self }
    }

    /// Sets the vendor hash of the application.
    pub fn vendor_hash(self, vendor_hash: &str) -> (r: ClientBuilder)
        ensures
            r == (ClientBuilder { vendor_hash: r.vendor_hash, ..self }),
            r.vendor_hash@ == vendor_hash@,
    {
        ClientBuilder { vendor_hash: vendor_hash.to_owned(), ..self }
    }

    /// Sets the application hash of the application.
    pub fn app_hash(self, app_hash: &str) -> (r: ClientBuilder)
        ensures
            r == (ClientBuilder { app_hash: r.app_hash, ..self }),
            r.app_hash@ == app_hash@,
    {
        ClientBuilder { app_hash: app_hash.to_owned(), ..self }
    }

    /// Sets the application secret assigned by the WEBWARE instance.
    pub fn secret(self, secret: &str) -> (r: ClientBuilder)
        ensures
            r == (ClientBuilder { secret: r.secret, ..self }),
            r.secret@ == secret@,
    {
        ClientBuilder { secret: secret.to_owned(), ..self }
    }

    /// Sets the revision of the application.
    pub fn revision(self, revision: u32) -> (r: ClientBuilder)
        ensures
            r == (ClientBuilder { revision, ..self }),
    {
        ClientBuilder { revision, ..self }
    }

    /// Supplies pre-provisioned credentials: the built client is
    /// authenticated from the start, without any network exchange.
    pub fn credentials(self, credentials: Credentials) -> (r: ClientBuilder)
        ensures
            r == (ClientBuilder { credentials: Some(credentials), ..self }),
    {
        ClientBuilder { credentials: Some(credentials), ..self }
    }

    /// Sets the maximum amount of objects that are returned in a request.
    pub fn result_max_lines(self, result_max_lines: u32) -> (r: ClientBuilder)
        ensures
            r == (ClientBuilder { result_max_lines, ..self }),
    {
        ClientBuilder { result_max_lines, ..self }
    }

    /// Allows unsafe SSL certificates.
    pub fn allow_insecure(self, allow_insecure: bool) -> (r: ClientBuilder)
        ensures
            r == (ClientBuilder { allow_insecure, ..self }),
    {
        ClientBuilder { allow_insecure, ..self }
    }

    /// Sets the timeout for requests, in seconds.
    pub fn timeout_seconds(self, timeout_seconds: u64) -> (r: ClientBuilder)
        ensures
            r == (ClientBuilder { timeout_seconds, ..self }),
    {
        ClientBuilder { timeout_seconds, ..self }
    }

    /// Builds the client: the configured URL is resolved to the WWSVC root;
    /// a URL that does not parse is rejected. The session starts with the
    /// request counter at zero, no cursor and the cursor not suspended, and
    /// is authenticated exactly when credentials were supplied.
    pub fn build(self) -> (r: Result<WebwareClient, WWSVCError>)
        ensures
            r is Ok <==> (url_join_of(self.webware_url@, "/WWSVC/"@) is Some),
            r is Err ==> r == Err::<WebwareClient, WWSVCError>(WWSVCError::UrlParseError),
            r is Ok ==> {
                let c = r.unwrap();
                &&& c.webware_url@ == url_join_of(self.webware_url@, "/WWSVC/"@).unwrap()
                &&& c.vendor_hash == self.vendor_hash
                &&& c.app_hash == self.app_hash
                &&& c.secret == self.secret
                &&& c.revision == self.revision
                &&& c.credentials == self.credentials
                &&& c.result_max_lines == self.result_max_lines
                &&& (c.cursor is None)
                &&& c.current_request == 0
                &&& !c.suspend_cursor
                &&& c.allow_insecure == self.allow_insecure
                &&& c.timeout_seconds == self.timeout_seconds
                &&& (c.authenticated() <==> (self.credentials is Some))
            },
    {
        let base = match url_join(self.webware_url.as_str(), "/WWSVC/") {
            Some(u) => u,
            None => {
                return Err(WWSVCError::UrlParseError);
            },
        };
        Ok(
            WebwareClient {
                webware_url: base,
                vendor_hash: self.vendor_hash,
                app_hash: self.app_hash,
                secret: self.secret,
                revision: self.revision,
                credentials: self.credentials,
                result_max_lines: self.result_max_lines,
                cursor: None,
                current_request: 0,
                suspend_cursor: false,
                allow_insecure: self.allow_insecure,
                timeout_seconds: self.timeout_seconds,
            },
        )
    }

    /// Builds a client that must already be authenticated: credentials must
    /// have been supplied, otherwise nothing could sign a request.
    pub fn build_registered(self) -> (r: Result<WebwareClient, WWSVCError>)
        ensures
            (self.credentials is None) ==> r == Err::<WebwareClient, WWSVCError>(
                WWSVCError::MissingCredentials,
            ),
            (self.credentials is Some) ==> {
                &&& (r is Ok <==> (url_join_of(self.webware_url@, "/WWSVC/"@) is Some))
                &&& (r is Err ==> r == Err::<WebwareClient, WWSVCError>(
                    WWSVCError::UrlParseError,
                ))
                &&& (r is Ok ==> r.unwrap().authenticated() && r.unwrap().credentials
                    == self.credentials && r.unwrap().current_request == 0
                    && (r.unwrap().cursor is None))
            },
    {
        if self.credentials.is_none() {
            return Err(WWSVCError::MissingCredentials);
        }
        self.build()
    }
}

} // verus!
