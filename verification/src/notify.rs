//! Notification-side logic: the keyword payload pushed by the recommendation
//! endpoint, the notification title and body built from it, and the
//! custom-scheme URI a notification click follows.

use vstd::prelude::*;

use vstd::string::StringExecFns;

use crate::locator::opt_view;

verus! {

/// The views of a list of keywords.
pub open spec fn keyword_views(ks: Seq<String>) -> Seq<Seq<char>> {
    Seq::new(ks.len(), |i: int| ks[i]@)
}

/// The keywords from entry `i` on, joined with `", "`.
pub open spec fn joined_from(ks: Seq<Seq<char>>, i: int) -> Seq<char>
    decreases ks.len() - i + 1,
{
    if i < 0 || i >= ks.len() {
        Seq::empty()
    } else if i == ks.len() - 1 {
        ks[i]
    } else {
        ks[i] + ", "@ + joined_from(ks, i + 1)
    }
}

/// A keyword-recommendation push: the keywords, most relevant first.
pub struct KeywordsPayload {
    pub keywords: Vec<String>,
}

impl KeywordsPayload {
    /// The first keyword — the one the notification records as pending.
    pub fn main_keyword(&self) -> (r: Option<String>)
        ensures
            match r {
                Some(k) => self.keywords@.len() > 0 && k@ == self.keywords@[0]@,
                None => self.keywords@.len() == 0,
            },
    {
        if self.keywords.len() > 0 {
            Some(self.keywords[0].clone())
        } else {
            None
        }
    }

    /// All keywords joined with `", "`, as shown in the notification body.
    pub fn joined(&self) -> (r: String)
        ensures
            r@ == joined_from(keyword_views(self.keywords@), 0),
    {
        let ghost kv = keyword_views(self.keywords@);
        let mut s = String::new();
        let n = self.keywords.len();
        proof {
            assert(s@ + joined_from(kv, 0) =~= joined_from(kv, 0));
        }
        let mut i: usize = 0;
        while i < n
            invariant
                n == self.keywords@.len(),
                kv == keyword_views(self.keywords@),
                i <= n,
                s@ + joined_from(kv, i as int) == joined_from(kv, 0),
            decreases n - i,
        {
            s.append(self.keywords[i].as_str());
            if i + 1 < n {
                s.append(", ");
                proof {
                    assert(s@ + joined_from(kv, i + 1 as int) =~= joined_from(kv, 0));
                }
            } else {
                proof {
                    assert(joined_from(kv, i + 1 as int) =~= Seq::<char>::empty());
                    assert(s@ + joined_from(kv, i + 1 as int) =~= joined_from(kv, 0));
                }
            }
            i = i + 1;
        }
        proof {
            assert(joined_from(kv, n as int) =~= Seq::<char>::empty());
            assert(s@ =~= joined_from(kv, 0));
        }
        s
    }

    /// The notification body: a fixed prefix and the joined keywords.
    pub fn body(&self) -> (r: String)
        ensures
            r@ == "Click for keyword: "@ + joined_from(keyword_views(self.keywords@), 0),
    {
        let mut s = "Click for keyword: ".to_owned();
        let j = self.joined();
        s.append(j.as_str());
        s
    }
}

/// The notification title.
pub fn notification_title() -> (r: &'static str)
    ensures
        r@ == "MCP keyword recommendation"@,
{
    "MCP keyword recommendation"
}

/// The URI a notification click follows: the bare scheme without a keyword,
/// the scheme plus the keyword parameter with one.
pub open spec fn uri_model(k: Option<Seq<char>>) -> Seq<char> {
    match k {
        Some(kw) => "mcplink://notification?keyword="@ + kw,
        None => "mcplink://notification"@,
    }
}

/// Builds the notification click URI.
pub fn notification_uri(keyword: Option<&str>) -> (r: String)
    ensures
        r@ == uri_model(opt_view(keyword)),
{
    match keyword {
        Some(kw) => {
            let mut s = "mcplink://notification?keyword=".to_owned();
            s.append(kw);
            s
        },
        None => "mcplink://notification".to_owned(),
    }
}

} // verus!
