//! The post flow: from the arguments to the create request, and from the new
//! key to the address that is shown.

use vstd::prelude::*;
use crate::error::FlowError;
use crate::resolver::{
    is_host, is_scheme, is_token, law_document_url, law_raw_url, raw_segment, resolve_spec,
    url_of, ResolveError, ResolvedView,
};
use crate::wire::{document_url, document_url_spec, DEFAULT_SERVER};

verus! {

/// What the post flow does once its arguments are read.
#[derive(Debug, Clone, PartialEq, Eq)]
pub struct PostPlan {
    /// The file whose content is posted.
    pub input_path: String,
    /// The server to post to.
    pub server: String,
    /// Whether the document's address is shown in raw form.
    pub raw: bool,
}

/// The mathematical value of a [`PostPlan`].
pub struct PostPlanView {
    pub input_path: Seq<char>,
    pub server: Seq<char>,
    pub raw: bool,
}

impl View for PostPlan {
    type V = PostPlanView;

    open spec fn view(&self) -> PostPlanView {
        PostPlanView { input_path: self.input_path@, server: self.server@, raw: self.raw }
    }
}

/// The plan for the arguments `post <input-path> [server] [raw]`, the command's
/// name included at position 0: the server defaults, and a fourth argument
/// selects the raw form whatever its text.
pub open spec fn plan_post_spec(args: Seq<String>) -> Result<PostPlanView, FlowError> {
    if args.len() < 2 {
        Err(FlowError::MissingInput)
    } else {
        Ok(
            PostPlanView {
                input_path: args[1]@,
                server: if args.len() > 2 {
                    args[2]@
                } else {
                    DEFAULT_SERVER@
                },
                raw: args.len() > 3,
            },
        )
    }
}

/// Reads the arguments of `post`.
pub fn plan_post(args: &Vec<String>) -> (r: Result<PostPlan, FlowError>)
    ensures
        match plan_post_spec(args@) {
            Ok(v) => r matches Ok(p) && p@ == v,
            Err(e) => r matches Err(f) && f == e,
        },
{
    if args.len() < 2 {
        return Err(FlowError::MissingInput);
    }
    let server: String = if args.len() > 2 {
        args[2].clone()
    } else {
        DEFAULT_SERVER.to_owned()
    };
    Ok(PostPlan { input_path: args[1].clone(), server: server, raw: args.len() > 3 })
}

/// The server's answer to a create request, decoded: the new document's key.
#[derive(Debug, Clone, PartialEq, Eq)]
pub struct PostResult {
    /// The key that the server gave the document.
    pub key: String,
}

impl View for PostResult {
    type V = Seq<char>;

    open spec fn view(&self) -> Seq<char> {
        self.key@
    }
}

/// Builds the address that the post flow shows for the new document.
pub fn posted_url(plan: &PostPlan, result: &PostResult) -> (r: String)
    ensures
        r@ == document_url_spec(plan@.server, plan@.raw, result@),
{
    document_url(plan.server.as_str(), plan.raw, result.key.as_str())
}

/// The address shown for a new document leads back to it: given to the
/// resolver, it gives the server that was posted to and the new key, in raw form
/// and, where the key does not itself begin with `raw/`, in plain form.
pub proof fn law_posted_url_resolves(
    scheme: Seq<char>,
    host: Seq<char>,
    key: Seq<char>,
    raw: bool,
    explicit: Option<Seq<char>>,
)
    requires
        is_scheme(scheme),
        is_host(host),
        is_token(key),
        raw || !(key.len() > 4 && raw_segment().is_prefix_of(key)),
    ensures
        resolve_spec(document_url_spec(scheme + host, raw, key), explicit) == Ok::<
            ResolvedView,
            ResolveError,
        >(ResolvedView { server: scheme + host, key: key, embedded: true }),
{
    reveal_strlit("/");
    reveal_strlit("raw/");
    assert("/"@ =~= seq!['/']);
    assert("raw/"@ =~= raw_segment());
    if raw {
        law_raw_url(scheme, host, key, explicit);
        assert(scheme + host + "/"@ + "raw/"@ + key =~= url_of(scheme, host, raw_segment() + key));
    } else {
        law_document_url(scheme, host, key, explicit);
        assert(scheme + host + "/"@ + key =~= url_of(scheme, host, key));
    }
}

} // verus!
