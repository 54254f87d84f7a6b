//! Cursor-driven pagination.
//!
//! A `CursoredResponse` repeatedly drives signed requests through a client
//! sharing one pagination cursor, until the server signals that no more
//! pages exist — by answering with the closing cursor sentinel, by an empty
//! record list, or by leaving the list out. Once finished, it stays
//! finished: no further request is ever prepared.
//!
//! Each round of the protocol is split in two: `next_begin` decides whether
//! a request is due and prepares it (creating the cursor lazily on the
//! first round), and `next_finish` folds the server's answer back into the
//! paginator and the session. The embedding application performs the HTTP
//! exchange in between; `collect_pages` runs the whole protocol against an
//! already-decoded sequence of responses.

use vstd::prelude::*;

use crate::client::WebwareClient;
use crate::cursor::{closed_id, created_id, lemma_created_id_ascii, spec_closed};
use crate::error::WWSVCError;
use crate::params::Parameters;
use crate::requests::SignedRequest;

verus! {

/// A decoded response to one paginated request: the cursor id its header
/// carried, if any, and the record list its body carried, if any.
pub struct PageResponse<T> {
    /// The cursor id from the response header.
    pub cursor_header: Option<String>,
    /// The decoded record list, absent when the response carried none.
    pub items: Option<Vec<T>>,
}

/// The records a page contributes: its list, or nothing.
pub open spec fn spec_page_items<T>(p: PageResponse<T>) -> Seq<T> {
    match p.items {
        Some(v) => v@,
        None => Seq::empty(),
    }
}

/// Whether a page carries records: a present, non-empty list.
pub open spec fn spec_has_items<T>(items: Option<Vec<T>>) -> bool {
    match items {
        Some(v) => v@.len() > 0,
        None => false,
    }
}

/// Whether a page ends the pagination: the header carries the closing
/// sentinel, or the list is absent or empty.
pub open spec fn spec_page_terminal<T>(p: PageResponse<T>) -> bool {
    ||| (match p.cursor_header {
        Some(h) => h@ == closed_id(),
        None => false,
    })
    ||| spec_page_items(p).len() == 0
}

/// The records collected from the first `n` pages, in order.
pub open spec fn spec_collected<T>(pages: Seq<PageResponse<T>>, n: int) -> Seq<T>
    decreases n,
{
    if n <= 0 {
        Seq::empty()
    } else {
        spec_collected(pages, n - 1) + spec_page_items(pages[n - 1])
    }
}

/// The index of the first page that ends the pagination, or the page count
/// when none does.
pub open spec fn spec_first_terminal<T>(pages: Seq<PageResponse<T>>) -> int
    decreases pages.len(),
{
    if pages.len() == 0 {
        0
    } else if spec_page_terminal(pages.first()) {
        0
    } else {
        1 + spec_first_terminal(pages.drop_first())
    }
}

/// A prefix free of terminal pages bounds the first terminal index from
/// below; a terminal page right after such a prefix pins it.
proof fn lemma_first_terminal_bound<T>(pages: Seq<PageResponse<T>>, k: int)
    requires
        0 <= k <= pages.len(),
        forall|q: int| 0 <= q < k ==> !spec_page_terminal(#[trigger] pages[q]),
    ensures
        spec_first_terminal(pages) >= k,
        (k < pages.len() && spec_page_terminal(pages[k])) ==> spec_first_terminal(pages) == k,
    decreases pages.len(),
{
    if pages.len() == 0 {
    } else if spec_page_terminal(pages.first()) {
        assert(k == 0);
    } else {
        let rest = pages.drop_first();
        assert(forall|q: int|
            0 <= q < k - 1 ==> #[trigger] rest[q] == pages[q + 1] && !spec_page_terminal(
                rest[q],
            ));
        if k == 0 {
            lemma_first_terminal_bound(rest, 0);
        } else {
            lemma_first_terminal_bound(rest, k - 1);
            if k < pages.len() && spec_page_terminal(pages[k]) {
                assert(rest[k - 1] == pages[k]);
            }
        }
    }
}

/// Whether the dynamic values of the next paginated request are
/// transmittable: an open, non-suspended cursor must carry an ASCII id. A
/// session without a cursor gets a fresh one, whose id is ASCII.
pub open spec fn spec_next_values_ok(c: WebwareClient) -> bool {
    (c.cursor is Some && !c.suspend_cursor && !spec_closed(c.cursor.unwrap()))
        ==> vstd::utf8::is_ascii_chars(c.cursor.unwrap().cursor_id@)
}

/// A cursor-based response that allows iterating over paginated results.
///
/// This struct handles the cursor lifecycle internally, providing a simple
/// interface to fetch pages of results without manually managing cursor
/// state. The generic parameter is the record type of the pages.
pub struct CursoredResponse<T> {
    /// The HTTP method of the paginated requests.
    pub method: String,
    /// The service function the requests execute.
    pub function: String,
    /// The revision of the service function.
    pub version: u32,
    /// The parameters sent with every request.
    pub base_params: Parameters,
    /// The page size the cursor is created with.
    pub page_size: u32,
    /// Whether the pagination is finished; terminal and idempotent.
    pub finished: bool,
    /// Marks the record type of the pages.
    pub marker: core::marker::PhantomData<T>,
}

impl<T> CursoredResponse<T> {
    /// Create a new cursored response.
    pub fn new(
        method: &str,
        function: &str,
        version: u32,
        base_params: Parameters,
        page_size: u32,
    ) -> (r: CursoredResponse<T>)
        ensures
            r.method@ == method@,
            r.function@ == function@,
            r.version == version,
            r.base_params == base_params,
            r.page_size == page_size,
            !r.finished,
    {
        CursoredResponse {
            method: method.to_owned(),
            function: function.to_owned(),
            version,
            base_params,
            page_size,
            finished: false,
            marker: core::marker::PhantomData,
        }
    }

    /// Check if all pages have been fetched.
    pub fn is_finished(&self) -> (r: bool)
        ensures
            r == self.finished,
    {
        self.finished
    }

    /// Begins one round of the pagination protocol. Once finished, nothing
    /// is prepared and the session is left untouched, so no further network
    /// call can originate from this paginator. An unauthenticated session
    /// is rejected before anything else. Otherwise a cursor is created
    /// lazily on the first round, and a signed request for the configured
    /// function is prepared, advancing the session's request counter.
    pub fn next_begin(&mut self, client: &mut WebwareClient) -> (r: Result<
        Option<SignedRequest>,
        WWSVCError,
    >)
        requires
            old(client).authenticated() ==> old(client).current_request < u32::MAX,
        ensures
            *final(self) == *old(self),
            old(self).finished ==> r is Ok && (r.unwrap() is None) && *final(client) == *old(
                client,
            ),
            !old(self).finished && !old(client).authenticated() ==> r == Err::<
                Option<SignedRequest>,
                WWSVCError,
            >(WWSVCError::NotAuthenticated) && *final(client) == *old(client),
            !old(self).finished && old(client).authenticated() ==> {
                &&& (final(client).cursor is Some)
                &&& (old(client).cursor is Some ==> final(client).cursor == old(client).cursor
                    && final(client).result_max_lines == old(client).result_max_lines)
                &&& (old(client).cursor is None ==> final(client).cursor.unwrap().cursor_id@
                    == created_id() && final(client).cursor.unwrap().max_lines == old(
                    self,
                ).page_size && final(client).result_max_lines == old(self).page_size
                    && !spec_closed(final(client).cursor.unwrap()))
                &&& *final(client) == (WebwareClient {
                    cursor: final(client).cursor,
                    result_max_lines: final(client).result_max_lines,
                    current_request: final(client).current_request,
                    ..*old(client)
                })
                &&& (r == Err::<Option<SignedRequest>, WWSVCError>(WWSVCError::UrlParseError)
                    <==> (old(client).spec_execjson_url() is None))
                &&& (r == Err::<Option<SignedRequest>, WWSVCError>(WWSVCError::InvalidHeader)
                    <==> (old(client).spec_execjson_url() is Some && !spec_next_values_ok(
                    *old(client),
                )))
                &&& (r is Ok <==> (old(client).spec_execjson_url() is Some
                    && spec_next_values_ok(*old(client))))
                &&& (r is Err ==> final(client).current_request == old(client).current_request)
                &&& (r is Ok ==> ({
                    let req = r.unwrap().unwrap();
                    let ts = req.body.pass_info.timestamp@;
                    &&& (r.unwrap() is Some)
                    &&& final(client).current_request == old(client).current_request + 1
                    &&& req.method@ == old(self).method@
                    &&& req.url@ == old(client).spec_execjson_url().unwrap()
                    &&& req.body.function.function_name@ == old(self).function@
                    &&& req.body.function.revision == old(self).version
                    &&& req.body.function.parameters@.len() == old(self).base_params@.len()
                    &&& (forall|i: int|
                        0 <= i < old(self).base_params@.len() ==> (
                        #[trigger] req.body.function.parameters@[i])@ == old(
                            self,
                        ).base_params@[i])
                    &&& req.body.pass_info.request_id == old(client).current_request + 1
                    &&& req.body.pass_info.app_hash@ == crate::app_hash::signature_hash(
                        old(client).credentials.unwrap().app_id@,
                        ts,
                    )
                }))
            },
    {
        if self.finished {
            return Ok(None);
        }
        if !client.is_authenticated() {
            return Err(WWSVCError::NotAuthenticated);
        }
        if !client.has_cursor() {
            client.create_cursor(self.page_size);
        }
        let ghost c1 = *client;
        proof {
            lemma_created_id_ascii();
            assert(c1.spec_execjson_url() == old(client).spec_execjson_url());
            let ex = crate::client::spec_extras(None);
            assert(ex.len() == 0);
            assert(crate::client::spec_header_values_ok(c1, ex) == spec_next_values_ok(
                *old(client),
            )) by {
                if old(client).cursor is None {
                    assert(c1.cursor.unwrap().cursor_id@ == created_id());
                    assert(c1.spec_uses_cursor() ==> vstd::utf8::is_ascii_chars(
                        c1.cursor.unwrap().cursor_id@,
                    ));
                } else {
                    assert(c1 == *old(client));
                }
            }
        }
        let params = self.base_params.clone();
        match client.prepare_request(
            self.method.as_str(),
            self.function.as_str(),
            self.version,
            params,
            None,
        ) {
            Ok(req) => Ok(Some(req)),
            Err(e) => Err(e),
        }
    }

    /// Finishes one round of the pagination protocol with the decoded
    /// response: advances the session cursor from the response header, and
    /// decides whether the pagination is over — the cursor closed, the list
    /// was absent, or the list was empty. An absent or empty list ends the
    /// pagination without error; records already returned by earlier rounds
    /// are untouched. A non-empty list is handed back as the page's records.
    pub fn next_finish(
        &mut self,
        client: &mut WebwareClient,
        response_cursor: Option<&String>,
        items: Option<Vec<T>>,
    ) -> (r: Option<Vec<T>>)
        ensures
            ({
                let closed_now = (if old(client).spec_uses_cursor() && response_cursor is Some {
                    response_cursor.unwrap()@ == closed_id()
                } else {
                    old(client).cursor is None || spec_closed(old(client).cursor.unwrap())
                });
                let has = spec_has_items(items);
                &&& (r is Some <==> has)
                &&& (has ==> r == Some(items.unwrap()))
                &&& final(self).finished == (old(self).finished || closed_now || !has)
                &&& *final(self) == (CursoredResponse {
                    finished: final(self).finished,
                    ..*old(self)
                })
                &&& *final(client) == (WebwareClient {
                    cursor: final(client).cursor,
                    ..*old(client)
                })
                &&& ((closed_now || !has) ==> final(client).cursor is None)
                &&& (!(closed_now || !has) ==> (if old(client).spec_uses_cursor()
                    && response_cursor is Some {
                    final(client).cursor is Some && final(client).cursor.unwrap().cursor_id@
                        == response_cursor.unwrap()@ && final(client).cursor.unwrap().max_lines
                        == old(client).cursor.unwrap().max_lines
                } else {
                    final(client).cursor == old(client).cursor
                }))
            }),
    {
        client.apply_response_cursor(response_cursor);
        if client.cursor_closed() {
            self.finished = true;
            client.close_cursor();
        }
        match items {
            Some(list) => {
                if list.is_empty() {
                    self.finished = true;
                    client.close_cursor();
                    None
                } else {
                    Some(list)
                }
            },
            None => {
                self.finished = true;
                client.close_cursor();
                None
            },
        }
    }

    /// Law: pagination collects every record and stops at the first
    /// terminal page. Run against a sequence of decoded responses — a
    /// simulated server — on a fresh cursor, the protocol consumes one
    /// response per request, stops right after the first response that ends
    /// the pagination (closing sentinel, absent list, or empty list), and
    /// returns the concatenation of the records of the consumed responses
    /// together with how many requests were made. In particular, N
    /// non-empty pages followed by a closing page make exactly N + 1
    /// requests and yield all N pages' records; and once finished,
    /// `next_begin` prepares nothing further. An absent or empty list ends
    /// the run without error and without losing the records already
    /// collected.
    pub fn collect_pages(&mut self, client: &mut WebwareClient, pages: Vec<PageResponse<T>>)
        -> (r: Result<(Vec<T>, usize), WWSVCError>)
        requires
            old(client).authenticated(),
            !old(client).suspend_cursor,
            old(client).cursor is None,
            !old(self).finished,
            old(client).current_request + pages@.len() < u32::MAX,
            forall|i: int|
                0 <= i < pages@.len() ==> (match (#[trigger] pages@[i]).cursor_header {
                    Some(h) => vstd::utf8::is_ascii_chars(h@),
                    None => true,
                }),
        ensures
            r is Err ==> r == Err::<(Vec<T>, usize), WWSVCError>(WWSVCError::UrlParseError),
            (old(client).spec_execjson_url() is Some) ==> r is Ok,
            r is Ok ==> ({
                let ft = spec_first_terminal(pages@);
                let used = r.unwrap().1 as int;
                &&& used == (if ft < pages@.len() {
                    ft + 1
                } else {
                    pages@.len() as int
                })
                &&& r.unwrap().0@ == spec_collected(pages@, used)
                &&& (final(self).finished <==> ft < pages@.len())
                &&& final(client).current_request == old(client).current_request + used
                &&& final(client).authenticated()
                &&& (final(self).finished ==> final(client).cursor is None)
            }),
    {
        let ghost all = pages@;
        let ghost start_request = old(client).current_request;
        let mut pages = pages;
        let mut collected: Vec<T> = Vec::new();
        let mut used: usize = 0;
        let total = pages.len();
        proof {
            assert(pages@ =~= all.skip(0));
        }
        while !self.finished && used < total
            invariant
                total == all.len(),
                used <= total,
                pages@ == all.skip(used as int),
                client.authenticated(),
                !client.suspend_cursor,
                client.credentials == old(client).credentials,
                client.webware_url == old(client).webware_url,
                client.current_request == start_request + used,
                start_request + all.len() < u32::MAX,
                collected@ == spec_collected(all, used as int),
                *self == (CursoredResponse { finished: self.finished, ..*old(self) }),
                !self.finished ==> forall|q: int|
                    0 <= q < used ==> !spec_page_terminal(#[trigger] all[q]),
                self.finished ==> used >= 1 && spec_page_terminal(all[used - 1]) && (forall|
                    q: int,
                |
                    0 <= q < used - 1 ==> !spec_page_terminal(#[trigger] all[q])),
                !self.finished && client.cursor is None ==> used == 0,
                client.cursor is Some ==> vstd::utf8::is_ascii_chars(
                    client.cursor.unwrap().cursor_id@,
                ),
                !self.finished && client.cursor is Some ==> !spec_closed(
                    client.cursor.unwrap(),
                ),
                self.finished ==> client.cursor is None,
                forall|q: int|
                    0 <= q < all.len() ==> (match (#[trigger] all[q]).cursor_header {
                        Some(h) => vstd::utf8::is_ascii_chars(h@),
                        None => true,
                    }),
            decreases total - used,
        {
            let ghost cb = *client;
            let begun = self.next_begin(client);
            let _req = match begun {
                Err(e) => {
                    proof {
                        assert(spec_next_values_ok(cb));
                        assert(cb.webware_url == old(client).webware_url);
                    }
                    return Err(e);
                },
                Ok(None) => {
                    proof {
                        assert(false);
                    }
                    return Err(WWSVCError::UrlParseError);
                },
                Ok(Some(rq)) => rq,
            };
            let page = pages.remove(0);
            let ghost gpage = page;
            proof {
                assert(gpage == all[used as int]);
                assert(pages@ =~= all.skip(used as int + 1));
            }
            let rc_opt = page.cursor_header;
            let items_opt = page.items;
            let ghost cb2 = *client;
            let out = self.next_finish(client, rc_opt.as_ref(), items_opt);
            proof {
                lemma_created_id_ascii();
                assert(cb2.spec_uses_cursor());
            }
            match out {
                Some(mut items_vec) => {
                    collected.append(&mut items_vec);
                },
                None => {},
            }
            used = used + 1;
            proof {
                let idx = used as int - 1;
                let closed_now = (match gpage.cursor_header {
                    Some(h) => h@ == closed_id(),
                    None => false,
                });
                let has = spec_has_items(gpage.items);
                assert(self.finished == (closed_now || !has));
                assert(spec_page_terminal(all[idx]) == (closed_now || !has));
                if has {
                    assert(collected@ == spec_collected(all, idx) + spec_page_items(
                        all[idx],
                    ));
                } else {
                    assert(spec_page_items(all[idx]).len() == 0);
                    assert(collected@ + spec_page_items(all[idx]) =~= collected@);
                }
                assert(collected@ == spec_collected(all, used as int));
            }
        }
        proof {
            if self.finished {
                lemma_first_terminal_bound(all, used as int - 1);
            } else {
                lemma_first_terminal_bound(all, used as int);
            }
        }
        Ok((collected, used))
    }
}

} // verus!
