//! HTTP requests as plain values: what to send, before anything is sent.

use vstd::prelude::*;

verus! {

#[derive(Debug, Clone, Copy, PartialEq, Eq, Structural)]
pub enum HttpMethod {
    Get,
    Post,
}

/// A request to make: method, URL, query string, headers, a form body, a
/// flat JSON object body, and basic-auth credentials.
#[derive(Debug, PartialEq, Eq)]
pub struct RequestPlan {
    pub method: HttpMethod,
    pub url: String,
    pub query: Vec<(String, String)>,
    pub headers: Vec<(String, String)>,
    pub form: Vec<(String, String)>,
    pub json: Vec<(String, String)>,
    pub basic_auth: Option<(String, String)>,
}

pub struct RequestPlanView {
    pub method: HttpMethod,
    pub url: Seq<char>,
    pub query: Seq<(Seq<char>, Seq<char>)>,
    pub headers: Seq<(Seq<char>, Seq<char>)>,
    pub form: Seq<(Seq<char>, Seq<char>)>,
    pub json: Seq<(Seq<char>, Seq<char>)>,
    pub basic_auth: Option<(Seq<char>, Seq<char>)>,
}

/// The view of a list of name/value pairs.
pub open spec fn pairs_view(v: Seq<(String, String)>) -> Seq<(Seq<char>, Seq<char>)> {
    v.map_values(|p: (String, String)| (p.0@, p.1@))
}

impl View for RequestPlan {
    type V = RequestPlanView;

    open spec fn view(&self) -> RequestPlanView {
        RequestPlanView {
            method: self.method,
            url: self.url@,
            query: pairs_view(self.query@),
            headers: pairs_view(self.headers@),
            form: pairs_view(self.form@),
            json: pairs_view(self.json@),
            basic_auth: match self.basic_auth {
                Some(p) => Some((p.0@, p.1@)),
                None => None,
            },
        }
    }
}

/// A name/value pair.
pub fn pair(name: &str, value: &str) -> (r: (String, String))
    ensures
        r.0@ == name@,
        r.1@ == value@,
{
    (name.to_owned(), value.to_owned())
}

/// Joins two strings.
pub fn concat(a: &str, b: &str) -> (r: String)
    ensures
        r@ == a@ + b@,
{
    let mut s = a.to_owned();
    s.append(b);
    s
}

} // verus!
