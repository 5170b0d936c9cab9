use vstd::prelude::*;
use crate::urls::{version_query_url, version_query_url_of};

verus! {

/// The two hosts that can answer the version query: the primary one, and the
/// one asked only when the primary cannot be reached.
pub struct Hosts {
    pub primary: String,
    pub fallback: String,
}

/// What the resolver wants next.
pub enum ResolveStep {
    /// Fetch `url` from `host` and report the reply.
    Query { host: String, url: String },
    /// `host` answered `version`; later version-scoped downloads go to it.
    Resolved { host: String, version: String },
    /// Neither host answered.
    Fatal,
}

pub enum ResolveStepView {
    Query { host: Seq<char>, url: Seq<char> },
    Resolved { host: Seq<char>, version: Seq<char> },
    Fatal,
}

impl View for ResolveStep {
    type V = ResolveStepView;

    open spec fn view(&self) -> ResolveStepView {
        match self {
            ResolveStep::Query { host, url } => ResolveStepView::Query { host: host@, url: url@ },
            ResolveStep::Resolved { host, version } => ResolveStepView::Resolved {
                host: host@,
                version: version@,
            },
            ResolveStep::Fatal => ResolveStepView::Fatal,
        }
    }
}

/// The query of a host for the current version.
pub open spec fn query_of(host: Seq<char>) -> ResolveStepView {
    ResolveStepView::Query { host, url: version_query_url_of(host) }
}

/// The next step after a reply (`None`: the transport failed) from the
/// fallback host when `asked_fallback`, else from the primary host.
pub open spec fn after_reply_of(
    primary: Seq<char>,
    fallback: Seq<char>,
    asked_fallback: bool,
    reply: Option<Seq<char>>,
) -> ResolveStepView {
    let asked = if asked_fallback { fallback } else { primary };
    match reply {
        Some(v) => ResolveStepView::Resolved { host: asked, version: v },
        None => if asked_fallback { ResolveStepView::Fatal } else { query_of(fallback) },
    }
}

fn query(host: &String) -> (r: ResolveStep)
    ensures
        r@ == query_of(host@),
{
    ResolveStep::Query { host: host.clone(), url: version_query_url(host.as_str()) }
}

impl Hosts {
    pub fn new(primary: &str, fallback: &str) -> (r: Hosts)
        ensures
            r.primary@ == primary@,
            r.fallback@ == fallback@,
    {
        Hosts { primary: String::from_str(primary), fallback: String::from_str(fallback) }
    }

    /// The first step of a resolution: ask the primary host.
    pub fn first_query(&self) -> (r: ResolveStep)
        ensures
            r@ == query_of(self.primary@),
    {
        query(&self.primary)
    }

    /// The step that follows a reply: a version is adopted together with the
    /// host that gave it; a failed primary query is followed by one query of
    /// the fallback host, and a failed fallback query is fatal.
    pub fn after_reply(&self, asked_fallback: bool, reply: Option<String>) -> (r: ResolveStep)
        ensures
            r@ == after_reply_of(
                self.primary@,
                self.fallback@,
                asked_fallback,
                match reply {
                    Some(v) => Some(v@),
                    None => None,
                },
            ),
    {
        match reply {
            Some(v) => {
                let host = if asked_fallback {
                    self.fallback.clone()
                } else {
                    self.primary.clone()
                };
                ResolveStep::Resolved { host, version: v }
            },
            None => {
                if asked_fallback {
                    ResolveStep::Fatal
                } else {
                    query(&self.fallback)
                }
            },
        }
    }
}

} // verus!
