//! The proxy of a worker's HTTP client: one line of a proxy list, picked at
//! random. The list is no pool and no rotation, and nobody tests whether its
//! addresses answer.

use crate::text::{chars_of, string_of, trim_bounds, trimmed};
use rand::seq::IndexedRandom;
use vstd::prelude::*;

verus! {

/// The timeout of every HTTP request of a worker, in seconds.
pub const HTTP_TIMEOUT: u64 = 30;

/// Why no proxy can be had.
#[derive(Clone, Copy, Debug, PartialEq, Eq, Structural)]
pub enum ProxyError {
    /// The list holds no address.
    Empty,
}

/// How a worker's HTTP client is to be set up.
#[derive(Debug)]
pub struct ClientSettings {
    /// The timeout of every request, in seconds.
    pub timeout: u64,
    /// The proxy for all requests, if any.
    pub proxy: Option<String>,
}

/// The length of the first line of a text: the number of characters before
/// the first line feed, or before the end.
pub open spec fn line_end(s: Seq<char>) -> nat
    decreases s.len(),
{
    if s.len() == 0 || s[0] == '\n' {
        0
    } else {
        1 + line_end(s.drop_first())
    }
}

/// The addresses of a proxy list: its lines, trimmed, without the empty
/// ones, in the order of the list.
pub open spec fn candidates(list: Seq<char>) -> Seq<Seq<char>>
    decreases list.len(),
{
    let end = line_end(list) as int;
    let line = trimmed(list.take(end));
    let head = if line.len() > 0 {
        seq![line]
    } else {
        Seq::empty()
    };
    if end < list.len() {
        head + candidates(list.skip(end + 1))
    } else {
        head
    }
}

/// The proxy URL for an address.
pub open spec fn socks_url(addr: Seq<char>) -> Seq<char> {
    "socks5h://"@ + addr
}

/// A run of `k` characters that are no line feed, followed by a line feed
/// or by the end, is the first line.
pub proof fn lemma_line_end(s: Seq<char>, k: int)
    requires
        0 <= k <= s.len(),
        forall|j: int| 0 <= j < k ==> s[j] != '\n',
        k < s.len() ==> s[k] == '\n',
    ensures
        line_end(s) == k,
    decreases k,
{
    if k > 0 {
        let t = s.drop_first();
        assert forall|j: int| 0 <= j < k - 1 implies t[j] != '\n' by {
            assert(t[j] == s[j + 1]);
        }
        lemma_line_end(t, k - 1);
    }
}

/// The addresses of a proxy list.
pub fn proxy_candidates(list: &str) -> (found: Vec<String>)
    ensures
        found.deep_view() == candidates(list@),
{
    let chars = chars_of(list);
    let mut found: Vec<String> = Vec::new();
    let mut start: usize = 0;
    let mut done = false;
    assert(chars@.skip(0) =~= chars@);
    assert(found.deep_view() + candidates(chars@) =~= candidates(chars@));
    while !done
        invariant
            start <= chars.len(),
            !done ==> found.deep_view() + candidates(chars@.skip(start as int)) == candidates(
                chars@,
            ),
            done ==> found.deep_view() == candidates(chars@),
        decreases chars.len() - start + (if done { 0int } else { 1int }),
    {
        let ghost rest = chars@.skip(start as int);
        let ghost before = found.deep_view();
        let mut end: usize = start;
        while end < chars.len() && chars[end] != '\n'
            invariant
                start <= end <= chars.len(),
                forall|j: int| start <= j < end ==> chars@[j] != '\n',
            decreases chars.len() - end,
        {
            end = end + 1;
        }
        proof {
            lemma_line_end(rest, end - start);
            assert(rest.take(end - start) =~= chars@.subrange(start as int, end as int));
        }
        let (a, b) = trim_bounds(&chars, start, end);
        if a < b {
            let line = string_of(&chars, a, b);
            found.push(line);
            assert(found.deep_view() =~= before + seq![line@]);
        } else {
            assert(chars@.subrange(a as int, b as int).len() == 0);
        }
        if end >= chars.len() {
            done = true;
            assert(found.deep_view() + Seq::<Seq<char>>::empty() =~= found.deep_view());
        } else {
            proof {
                assert(rest.skip(end - start + 1) =~= chars@.skip(end + 1));
                let line = trimmed(rest.take(end - start));
                let head = if line.len() > 0 {
                    seq![line]
                } else {
                    Seq::<Seq<char>>::empty()
                };
                assert(candidates(rest) == head + candidates(chars@.skip(end + 1)));
                assert(found.deep_view() + candidates(chars@.skip(end + 1)) =~= before + (head
                    + candidates(chars@.skip(end + 1))));
            }
            start = end + 1;
        }
    }
    found
}

/// Calls `rand::seq::IndexedRandom::choose` on the list, with the
/// generator that `rand::rng` hands out: nothing comes of an empty list,
/// and one of its items, whichever, of any other.
#[verifier::external_body]
fn pick(items: &Vec<String>) -> (picked: Option<String>)
    ensures
        items.len() == 0 ==> picked is None,
        items.len() > 0 ==> picked is Some && items.deep_view().contains(picked->0@),
{
    items.choose(&mut rand::rng()).cloned()
}

/// The address that was picked, or the error of a list without addresses.
pub fn picked_proxy(picked: Option<String>) -> (r: Result<String, ProxyError>)
    ensures
        match r {
            Ok(addr) => picked matches Some(p) && addr@ == p@,
            Err(e) => picked is None && e == ProxyError::Empty,
        },
{
    match picked {
        Some(addr) => Ok(addr),
        None => Err(ProxyError::Empty),
    }
}

/// Picks one address of a proxy list at random. It fails iff the list holds
/// no address; else the address is one of the list's.
pub fn get_proxy(list: &str) -> (r: Result<String, ProxyError>)
    ensures
        r is Err <==> candidates(list@).len() == 0,
        r matches Ok(addr) ==> candidates(list@).contains(addr@),
        r matches Err(e) ==> e == ProxyError::Empty,
{
    let found = proxy_candidates(list);
    picked_proxy(pick(&found))
}

/// The proxy URL for an address: all requests go through it as SOCKS5 with
/// names resolved by the proxy.
pub fn proxy_url(addr: &str) -> (url: String)
    ensures
        url@ == socks_url(addr@),
{
    String::from_str("socks5h://").concat(addr)
}

/// The settings of a worker's HTTP client, given the text of the proxy
/// list where one is configured: the timeout is 30 seconds; with a list,
/// one of its addresses is the proxy, and a list without addresses is an
/// error.
pub fn create_client(proxy_list: Option<String>) -> (r: Result<ClientSettings, ProxyError>)
    ensures
        match proxy_list {
            None => r matches Ok(settings) && settings.timeout == HTTP_TIMEOUT && settings.proxy
                is None,
            Some(list) => match r {
                Ok(settings) => {
                    &&& settings.timeout == HTTP_TIMEOUT
                    &&& settings.proxy matches Some(url)
                    &&& exists|i: int|
                        0 <= i < candidates(list@).len() && url@ == socks_url(
                            #[trigger] candidates(list@)[i],
                        )
                },
                Err(e) => candidates(list@).len() == 0 && e == ProxyError::Empty,
            },
        },
{
    match proxy_list {
        None => Ok(ClientSettings { timeout: HTTP_TIMEOUT, proxy: None }),
        Some(list) => match get_proxy(list.as_str()) {
            Err(e) => Err(e),
            Ok(addr) => {
                let url = proxy_url(addr.as_str());
                proof {
                    let i = candidates(list@).index_of(addr@);
                    assert(candidates(list@)[i] == addr@);
                }
                Ok(ClientSettings { timeout: HTTP_TIMEOUT, proxy: Some(url) })
            },
        },
    }
}

} // verus!
