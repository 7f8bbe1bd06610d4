use vstd::prelude::*;

verus! {

/// One configured request, as read from the configuration.
///
/// `url` is `None` when the configured url is not a string, `method` is `None`
/// when the method is missing or not a string, and `data` is the JSON text of
/// the payload (`null` when none was given).
pub struct Descriptor {
    pub url: Option<String>,
    pub method: Option<String>,
    pub data: String,
}

/// What to do on the network for one descriptor.
pub enum RequestPlan {
    /// Nothing is sent: the url is not a string or the method is not supported.
    Reject,
    Get { url: String },
    Post { url: String, body: String },
}

pub open spec fn is_get(m: Option<String>) -> bool {
    m is Some && m->Some_0@ == "get"@
}

pub open spec fn is_post(m: Option<String>) -> bool {
    m is Some && m->Some_0@ == "post"@
}

/// The plan that a descriptor calls for.
pub open spec fn plan_matches(d: Descriptor, p: RequestPlan) -> bool {
    if d.url is Some && is_get(d.method) {
        p is Get && p->Get_url@ == d.url->Some_0@
    } else if d.url is Some && is_post(d.method) {
        p is Post && p->Post_url@ == d.url->Some_0@ && p->Post_body@ == d.data@
    } else {
        p is Reject
    }
}

impl Descriptor {
    pub fn new(url: Option<String>, method: Option<String>, data: String) -> (r: Descriptor)
        ensures
            r == (Descriptor { url, method, data }),
    {
        Descriptor { url, method, data }
    }

    /// A copy equal to `self`.
    pub fn duplicate(&self) -> (r: Descriptor)
        ensures
            r == *self,
    {
        let url = match &self.url {
            Some(u) => Some(u.clone()),
            None => None,
        };
        let method = match &self.method {
            Some(m) => Some(m.clone()),
            None => None,
        };
        Descriptor { url, method, data: self.data.clone() }
    }
}

fn text_is(s: &String, lit: &str) -> (r: bool)
    ensures
        r == (s@ == lit@),
{
    let t: String = lit.to_owned();
    *s == t
}

/// Decides what to send for a descriptor: a GET or a POST of its data to its
/// url, or nothing at all when the url is not a string or the method is
/// neither `get` nor `post`.
pub fn plan_request(d: &Descriptor) -> (p: RequestPlan)
    ensures
        plan_matches(*d, p),
{
    proof {
        reveal_strlit("get");
        reveal_strlit("post");
    }
    match (&d.url, &d.method) {
        (Some(url), Some(m)) => {
            if text_is(m, "get") {
                RequestPlan::Get { url: url.clone() }
            } else if text_is(m, "post") {
                RequestPlan::Post { url: url.clone(), body: d.data.clone() }
            } else {
                RequestPlan::Reject
            }
        },
        _ => RequestPlan::Reject,
    }
}

} // verus!
