//! The get flow: from the arguments to the fetch, and from the server's answer
//! to what is shown and saved.

use vstd::prelude::*;
use crate::error::FlowError;
use crate::resolver::{
    is_host, is_scheme, is_token, law_raw_url, raw_segment, resolve, resolve_spec, url_of,
    ResolveError,
};
use crate::text::{owned_option, text_option};
use crate::wire::{fetch_url, fetch_url_spec, is_not_found, NOT_FOUND_BODY};

verus! {

/// What the get flow does once its arguments are read.
#[derive(Debug, Clone, PartialEq, Eq)]
pub struct GetPlan {
    /// The address to fetch.
    pub url: String,
    /// Where the document is to be saved, if anywhere.
    pub output: Option<String>,
}

/// The mathematical value of a [`GetPlan`].
pub struct GetPlanView {
    pub url: Seq<char>,
    pub output: Option<Seq<char>>,
}

impl View for GetPlan {
    type V = GetPlanView;

    open spec fn view(&self) -> GetPlanView {
        GetPlanView { url: self.url@, output: owned_option(self.output) }
    }
}

/// The argument at position `i`, where there is one.
pub open spec fn arg_at(args: Seq<String>, i: int) -> Option<Seq<char>> {
    if 0 <= i < args.len() {
        Some(args[i]@)
    } else {
        None
    }
}

/// The position of the output path: right after the key where the key carries
/// its server, one further where the server is an argument of its own.
pub open spec fn output_slot(embedded: bool) -> int {
    if embedded {
        2
    } else {
        3
    }
}

/// The plan for the arguments `get <key-or-url> [server] [output-path]`, the
/// command's name included at position 0.
pub open spec fn plan_get_spec(args: Seq<String>) -> Result<GetPlanView, FlowError> {
    if args.len() < 2 {
        Err(FlowError::MissingKey)
    } else {
        match resolve_spec(args[1]@, arg_at(args, 2)) {
            Err(ResolveError::Malformed) => Err(FlowError::MalformedKey),
            Err(ResolveError::MissingServer) => Err(FlowError::MissingServer),
            Ok(v) => Ok(
                GetPlanView {
                    url: fetch_url_spec(v.server, v.key),
                    output: arg_at(args, output_slot(v.embedded)),
                },
            ),
        }
    }
}

/// Reads the arguments of `get`: resolves the key, builds the address to fetch
/// and finds the output path. Fails before any request where the key is
/// missing or malformed, or where a bare key comes without a server.
pub fn plan_get(args: &Vec<String>) -> (r: Result<GetPlan, FlowError>)
    ensures
        match plan_get_spec(args@) {
            Ok(v) => r matches Ok(p) && p@ == v,
            Err(e) => r matches Err(f) && f == e,
        },
{
    if args.len() < 2 {
        return Err(FlowError::MissingKey);
    }
    let explicit: Option<&str> = if args.len() > 2 {
        Some(args[2].as_str())
    } else {
        None
    };
    match resolve(args[1].as_str(), explicit) {
        Err(ResolveError::Malformed) => Err(FlowError::MalformedKey),
        Err(ResolveError::MissingServer) => Err(FlowError::MissingServer),
        Ok(found) => {
            let slot: usize = if found.embedded {
                2
            } else {
                3
            };
            let output: Option<String> = if args.len() > slot {
                Some(args[slot].clone())
            } else {
                None
            };
            Ok(GetPlan { url: fetch_url(found.server.as_str(), found.key.as_str()), output: output })
        },
    }
}

/// What the get flow shows and saves once the server has answered.
#[derive(Debug, Clone, PartialEq, Eq)]
pub struct FetchReport {
    /// Whether the server holds the document.
    pub found: bool,
    /// The text to print.
    pub printed: String,
    /// The path to save the body under, if any.
    pub save_to: Option<String>,
}

/// The mathematical value of a [`FetchReport`].
pub struct FetchReportView {
    pub found: bool,
    pub printed: Seq<char>,
    pub save_to: Option<Seq<char>>,
}

impl View for FetchReport {
    type V = FetchReportView;

    open spec fn view(&self) -> FetchReportView {
        FetchReportView {
            found: self.found,
            printed: self.printed@,
            save_to: owned_option(self.save_to),
        }
    }
}

/// The report for a response body and the plan's output path: the not-found
/// answer is reported as such and nothing is saved, whatever the path; any
/// other body is printed as it is and saved where a path was given.
pub open spec fn report_fetch_spec(body: Seq<char>, output: Option<Seq<char>>) -> FetchReportView {
    if body == NOT_FOUND_BODY@ {
        FetchReportView { found: false, printed: "Document not found."@, save_to: None }
    } else {
        FetchReportView { found: true, printed: body, save_to: output }
    }
}

/// Interprets the server's answer to a fetch.
pub fn report_fetch(body: &str, output: Option<&str>) -> (r: FetchReport)
    ensures
        r@ == report_fetch_spec(body@, text_option(output)),
{
    if is_not_found(body) {
        FetchReport { found: false, printed: "Document not found.".to_owned(), save_to: None }
    } else {
        let save_to: Option<String> = match output {
            Some(path) => Some(path.to_owned()),
            None => None,
        };
        FetchReport { found: true, printed: body.to_owned(), save_to: save_to }
    }
}

/// The not-found answer is reported with the words `Document not found.` and
/// nothing is saved, whatever output path was given.
pub proof fn law_not_found_saves_nothing(output: Option<Seq<char>>)
    ensures
        report_fetch_spec(NOT_FOUND_BODY@, output) == (FetchReportView {
            found: false,
            printed: "Document not found."@,
            save_to: None,
        }),
{
}

/// A raw-document URL is fetched as it is written: the address built from the
/// origin and the key that it resolves to is the URL itself.
pub proof fn law_raw_url_fetched_as_written(
    scheme: Seq<char>,
    host: Seq<char>,
    key: Seq<char>,
    explicit: Option<Seq<char>>,
)
    requires
        is_scheme(scheme),
        is_host(host),
        is_token(key),
    ensures
        resolve_spec(url_of(scheme, host, raw_segment() + key), explicit) matches Ok(v)
            && fetch_url_spec(v.server, v.key) == url_of(scheme, host, raw_segment() + key),
{
    law_raw_url(scheme, host, key, explicit);
    reveal_strlit("/raw/");
    assert("/raw/"@ =~= seq!['/'] + raw_segment());
    assert(scheme + host + "/raw/"@ + key =~= url_of(scheme, host, raw_segment() + key));
}

/// The line that confirms that the document was saved under `path`.
pub open spec fn saved_message_spec(path: Seq<char>) -> Seq<char> {
    "Successfully outputted content into "@ + path
}

/// Builds the line that confirms that the document was saved under `path`.
pub fn saved_message(path: &str) -> (r: String)
    ensures
        r@ == saved_message_spec(path@),
{
    "Successfully outputted content into ".to_owned().concat(path)
}

} // verus!
