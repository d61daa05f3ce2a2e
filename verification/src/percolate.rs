//! Builders for percolate-count request descriptors. Each formats the
//! target resource path for one form of the grammar
//! `/{index}/{type}/_percolate/count` or
//! `/{index}/{type}/{id}/_percolate/count` and pairs it with the verb and
//! body of the exchange; bodies are sent as JSON.

use vstd::prelude::*;
use vstd::string::StringExecFns;
use crate::msg::Message;
use crate::msg::Method;

verus! {

/// The path suffix every percolate-count resource ends with.
pub open spec fn percolate_suffix() -> Seq<char> {
    "/_percolate/count"@
}

/// Build a `POST` descriptor for `{base}/{index}/{type}/{id}/_percolate/count`
/// carrying the given body.
pub fn post_index_type_id(base: &str, index: &str, _type: &str, id: &str, body: String) -> (m:
    Message)
    ensures
        m.method == Method::Post,
        m.url@ == base@ + "/"@ + index@ + "/"@ + _type@ + "/"@ + id@ + percolate_suffix(),
        m.body@ == body@,
        m.token == 0,
        m.wf(),
{
    let mut url = String::new();
    url.append(base);
    url.append("/");
    url.append(index);
    url.append("/");
    url.append(_type);
    url.append("/");
    url.append(id);
    url.append("/_percolate/count");
    proof {
        reveal_strlit("/");
        assert(url@ =~= base@ + "/"@ + index@ + "/"@ + _type@ + "/"@ + id@ + percolate_suffix());
    }
    Message { method: Method::Post, url, body, token: 0 }
}

/// Build a `POST` descriptor for `{base}/{index}/{type}/_percolate/count`
/// carrying the given body.
pub fn post_index_type(base: &str, index: &str, _type: &str, body: String) -> (m: Message)
    ensures
        m.method == Method::Post,
        m.url@ == base@ + "/"@ + index@ + "/"@ + _type@ + percolate_suffix(),
        m.body@ == body@,
        m.token == 0,
        m.wf(),
{
    let mut url = String::new();
    url.append(base);
    url.append("/");
    url.append(index);
    url.append("/");
    url.append(_type);
    url.append("/_percolate/count");
    proof {
        reveal_strlit("/");
        assert(url@ =~= base@ + "/"@ + index@ + "/"@ + _type@ + percolate_suffix());
    }
    Message { method: Method::Post, url, body, token: 0 }
}

/// Build a `GET` descriptor for `{base}/{index}/{type}/{id}/_percolate/count`;
/// the query travels in the URL, so the body is empty.
pub fn get_index_type_id(base: &str, index: &str, _type: &str, id: &str) -> (m: Message)
    ensures
        m.method == Method::Get,
        m.url@ == base@ + "/"@ + index@ + "/"@ + _type@ + "/"@ + id@ + percolate_suffix(),
        m.body@ == Seq::<char>::empty(),
        m.token == 0,
        m.wf(),
{
    let mut url = String::new();
    url.append(base);
    url.append("/");
    url.append(index);
    url.append("/");
    url.append(_type);
    url.append("/");
    url.append(id);
    url.append("/_percolate/count");
    proof {
        reveal_strlit("/");
        assert(url@ =~= base@ + "/"@ + index@ + "/"@ + _type@ + "/"@ + id@ + percolate_suffix());
    }
    Message { method: Method::Get, url, body: String::new(), token: 0 }
}

/// Build a `GET` descriptor for `{base}/{index}/{type}/_percolate/count`;
/// the query travels in the URL, so the body is empty.
pub fn get_index_type(base: &str, index: &str, _type: &str) -> (m: Message)
    ensures
        m.method == Method::Get,
        m.url@ == base@ + "/"@ + index@ + "/"@ + _type@ + percolate_suffix(),
        m.body@ == Seq::<char>::empty(),
        m.token == 0,
        m.wf(),
{
    let mut url = String::new();
    url.append(base);
    url.append("/");
    url.append(index);
    url.append("/");
    url.append(_type);
    url.append("/_percolate/count");
    proof {
        reveal_strlit("/");
        assert(url@ =~= base@ + "/"@ + index@ + "/"@ + _type@ + percolate_suffix());
    }
    Message { method: Method::Get, url, body: String::new(), token: 0 }
}

} // verus!
