//! The request dispatcher: from the argument vector to what the program
//! does, and which request constructor the HTTP client collaborator is
//! invoked with.

use vstd::prelude::*;

use crate::cli::{
    Cli, Invocation, Method, Parsed, Scanned, lemma_invalid_method_rejected, parse_args,
    spec_parse, spec_scan,
};
use crate::outcome::{
    Outcome, OutcomeV, spec_usage_outcome, spec_version_outcome, usage_outcome, version_outcome,
};

verus! {

/// A planned request: which constructor the HTTP client collaborator must
/// be invoked with, bound to exactly the URL it carries.
#[derive(Clone, PartialEq, Eq, Debug)]
pub enum RequestPlan {
    Get(String),
    Post(String),
}

/// Specification-level image of a planned request.
pub enum PlanV {
    Get(Seq<char>),
    Post(Seq<char>),
}

impl View for RequestPlan {
    type V = PlanV;

    open spec fn view(&self) -> PlanV {
        match self {
            RequestPlan::Get(url) => PlanV::Get(url@),
            RequestPlan::Post(url) => PlanV::Post(url@),
        }
    }
}

/// What the surrounding program must do next: finish at once with the given
/// outcome, or perform the planned request and hand its result to `finish`.
#[derive(Clone, PartialEq, Eq, Debug)]
pub enum Directive {
    Finish(Outcome),
    Send(RequestPlan),
}

/// Specification-level image of a directive.
pub enum DirectiveV {
    Finish(OutcomeV),
    Send(PlanV),
}

impl View for Directive {
    type V = DirectiveV;

    open spec fn view(&self) -> DirectiveV {
        match self {
            Directive::Finish(o) => DirectiveV::Finish(o@),
            Directive::Send(p) => DirectiveV::Send(p@),
        }
    }
}

/// The plan a validated invocation asks for: its method's constructor,
/// bound to its URL.
pub open spec fn spec_plan(m: Method, url: Seq<char>) -> PlanV {
    match m {
        Method::Get => PlanV::Get(url),
        Method::Post => PlanV::Post(url),
    }
}

/// Chooses the request constructor for a validated invocation: GET requests
/// are planned through the GET constructor and POST requests through the
/// POST constructor, each with exactly the invocation's URL.
pub fn plan_request(inv: &Invocation) -> (p: RequestPlan)
    ensures
        p@ == spec_plan(inv.method, inv.url@),
{
    match inv.method {
        Method::Get => RequestPlan::Get(inv.url.clone()),
        Method::Post => RequestPlan::Post(inv.url.clone()),
    }
}

/// What the whole run does for an argument vector: a version request and a
/// rejected vector finish at once — the latter with a failing exit and
/// without any request — and a validated invocation plans one request.
pub open spec fn spec_start(args: Seq<Seq<char>>) -> DirectiveV {
    match spec_parse(args) {
        Ok(Parsed::Version) => DirectiveV::Finish(spec_version_outcome()),
        Ok(Parsed::Run(m, url)) => DirectiveV::Send(spec_plan(m, url)),
        Err(e) => DirectiveV::Finish(spec_usage_outcome(e)),
    }
}

/// Decides the run from the argument vector (without the program name).
pub fn start(args: &Vec<String>) -> (d: Directive)
    ensures
        d@ == spec_start(args.deep_view()),
{
    match parse_args(args) {
        Ok(Cli::Version) => Directive::Finish(version_outcome()),
        Ok(Cli::Run(inv)) => Directive::Send(plan_request(&inv)),
        Err(e) => Directive::Finish(usage_outcome(e)),
    }
}

/// The dispatcher plans a request exactly when parsing yields a validated
/// invocation, and the plan then carries that invocation's method and URL.
pub proof fn lemma_send_iff_validated(args: Seq<Seq<char>>)
    ensures
        (spec_start(args) is Send) <==> (spec_parse(args) matches Ok(Parsed::Run(_, _))),
        spec_parse(args) matches Ok(Parsed::Run(m, url)) ==> spec_start(args) == DirectiveV::Send(
            spec_plan(m, url),
        ),
{
}

/// Every rejected argument vector ends the run at once with a non-zero exit
/// status: no request is planned, so no network call is ever made for it.
pub proof fn lemma_rejected_args_never_send(args: Seq<Seq<char>>)
    requires
        spec_parse(args) is Err,
    ensures
        spec_start(args) matches DirectiveV::Finish(o) && o.exit_code != 0,
{
}

/// A method value outside {`get`, `post`} ends the run with a non-zero exit
/// status before any request is planned, whatever the rest of the argument
/// vector holds.
pub proof fn lemma_invalid_method_never_sends(args: Seq<Seq<char>>, t: Seq<char>)
    requires
        spec_scan(args, None, None) matches Ok(Scanned::Run { method_text, .. }) && method_text
            == Some(t),
        t != "get"@,
        t != "post"@,
    ensures
        spec_start(args) matches DirectiveV::Finish(o) && o.exit_code != 0,
{
    lemma_invalid_method_rejected(args, t);
    lemma_rejected_args_never_send(args);
}

/// With no method option — the default — or with the explicit value `get`,
/// the dispatcher plans a request through the GET constructor with exactly
/// the supplied URL, never through the POST constructor.
pub proof fn lemma_default_and_get_dispatch_get(args: Seq<Seq<char>>, url: Seq<char>)
    requires
        spec_scan(args, None, None) matches Ok(Scanned::Run { method_text, url: u }) && u == url
            && (method_text == None::<Seq<char>> || method_text == Some("get"@)),
        url.len() > 0,
    ensures
        spec_start(args) == DirectiveV::Send(PlanV::Get(url)),
{
}

/// With the method value `post`, the dispatcher plans a request through the
/// POST constructor with exactly the supplied URL.
pub proof fn lemma_post_dispatches_post(args: Seq<Seq<char>>, url: Seq<char>)
    requires
        spec_scan(args, None, None) matches Ok(Scanned::Run { method_text, url: u }) && u == url
            && method_text == Some("post"@),
        url.len() > 0,
    ensures
        spec_start(args) == DirectiveV::Send(PlanV::Post(url)),
{
    reveal_strlit("get");
    reveal_strlit("post");
    assert("post"@.len() == 4);
    assert("get"@.len() == 3);
}

} // verus!
