use vstd::prelude::*;
use vstd::string::StringSliceAdditionalSpecFns;

use crate::config::Hook;
use crate::signature::{check_signature, header_view, spec_check_signature, spec_digest, SignatureCheck};

verus! {

/// An HTTP reply: a status code and a body.
#[derive(Debug, Clone)]
pub struct Reply {
    pub status: u16,
    pub body: Vec<u8>,
}

/// A reply body always ends with a newline: one is added where missing.
pub open spec fn with_trailing_newline(data: Seq<u8>) -> Seq<u8> {
    if data.len() > 0 && data.last() == 10 {
        data
    } else {
        data.push(10)
    }
}

/// A reply body ends with a newline, and is the given data itself when that
/// already ends with one (whatever newlines come before), or the data with
/// one newline added otherwise.
pub proof fn lemma_trailing_newline(data: Seq<u8>)
    ensures
        with_trailing_newline(data).len() > 0,
        with_trailing_newline(data).last() == 10,
        data.len() > 0 && data.last() == 10 ==> with_trailing_newline(data) == data,
        !(data.len() > 0 && data.last() == 10) ==> with_trailing_newline(data) == data.push(10),
        with_trailing_newline(data).subrange(0, data.len() as int) == data,
{
    assert(with_trailing_newline(data).subrange(0, data.len() as int) =~= data);
}

/// A reply with this status and body, a newline added to the body where it
/// does not end with one.
pub fn simple_response(status: u16, data: Vec<u8>) -> (r: Reply)
    ensures
        r.status == status,
        r.body@ == with_trailing_newline(data@),
        data@.len() > 0 && data@.last() == 10 ==> r.body@ == data@,
        !(data@.len() > 0 && data@.last() == 10) ==> r.body@ == data@.push(10),
{
    let mut data = data;
    let n = data.len();
    if n == 0 || data[n - 1] != 10 {
        data.push(10);
    }
    Reply { status, body: data }
}

/// A reply with this status and the text `message`, newline-terminated.
pub open spec fn spec_text_reply(status: u16, message: &str) -> (u16, Seq<u8>) {
    (status, with_trailing_newline(message.spec_bytes()))
}

fn text_response(status: u16, message: &str) -> (r: Reply)
    ensures
        (r.status, r.body@) == spec_text_reply(status, message),
{
    simple_response(status, message.as_bytes_vec())
}

/// The reply when a hook's job failed: status 500 and a pointer to the logs.
pub fn generic_error() -> (r: Reply)
    ensures
        (r.status, r.body@) == spec_text_reply(500, "failed to run hook, see server logs for more details"),
{
    text_response(500, "failed to run hook, see server logs for more details")
}

/// Why a request was turned away before any job ran.
#[derive(Debug, Clone, Copy, PartialEq, Eq, Structural)]
pub enum Rejection {
    /// The request is not a POST.
    MethodNotAllowed,
    /// No hook has the request's path.
    NoHook,
    /// The request body could not be read.
    UnreadableBody,
    /// The hook needs a signature and the `X-Hub-Signature-256` header is
    /// missing or malformed.
    BadSignatureHeader,
    /// The signature does not match the body.
    SignatureMismatch,
}

/// The status and message with which a rejected request is answered.
pub open spec fn spec_rejection_reply(rejection: Rejection) -> (u16, Seq<u8>) {
    match rejection {
        Rejection::MethodNotAllowed => spec_text_reply(405, "hooks must use the POST method"),
        Rejection::NoHook => spec_text_reply(404, "no hook found"),
        Rejection::UnreadableBody => spec_text_reply(400, "failed to read request body"),
        Rejection::BadSignatureHeader => spec_text_reply(400, "missing or invalid X-Hub-Signature-256 header"),
        Rejection::SignatureMismatch => spec_text_reply(400, "invalid X-Hub-Signature-256 header"),
    }
}

impl Rejection {
    /// The reply to a rejected request.
    pub fn reply(&self) -> (r: Reply)
        ensures
            (r.status, r.body@) == spec_rejection_reply(*self),
    {
        match self {
            Rejection::MethodNotAllowed => text_response(405, "hooks must use the POST method"),
            Rejection::NoHook => text_response(404, "no hook found"),
            Rejection::UnreadableBody => text_response(400, "failed to read request body"),
            Rejection::BadSignatureHeader => text_response(400, "missing or invalid X-Hub-Signature-256 header"),
            Rejection::SignatureMismatch => text_response(400, "invalid X-Hub-Signature-256 header"),
        }
    }
}

/// Whether no two hooks share a URL.
pub open spec fn urls_unique(hooks: Seq<Hook>) -> bool {
    forall|i: int, j: int|
        0 <= i < j < hooks.len() ==> #[trigger] hooks[i].url@ != #[trigger] hooks[j].url@
}

/// The hooks of the daemon, at most one per URL, in configuration order.
#[derive(Debug)]
pub struct HookTable {
    hooks: Vec<Hook>,
}

impl View for HookTable {
    type V = Seq<Hook>;

    closed spec fn view(&self) -> Seq<Hook> {
        self.hooks@
    }
}

/// Two hooks of the configuration share a URL.
#[derive(Debug, Clone)]
pub struct DuplicateUrl {
    pub url: String,
}

fn find_url(hooks: &Vec<Hook>, end: usize, url: &String) -> (r: Option<usize>)
    requires
        end <= hooks@.len(),
    ensures
        match r {
            Some(i) => i < end && hooks@[i as int].url@ == url@,
            None => forall|i: int| 0 <= i < end ==> hooks@[i].url@ != url@,
        },
{
    let mut i: usize = 0;
    while i < end
        invariant
            i <= end <= hooks@.len(),
            forall|k: int| 0 <= k < i ==> hooks@[k].url@ != url@,
        decreases end - i,
    {
        if hooks[i].url == *url {
            return Some(i);
        }
        i = i + 1;
    }
    None
}

impl HookTable {
    #[verifier::type_invariant]
    spec fn unique_urls(self) -> bool {
        urls_unique(self.hooks@)
    }

    /// What every hook table satisfies: no two hooks share a URL.
    pub open spec fn wf(&self) -> bool {
        urls_unique(self@)
    }

    /// The table of the configured hooks, or the first URL (in
    /// configuration order) that an earlier hook already has.
    pub fn build(hooks: Vec<Hook>) -> (r: Result<HookTable, DuplicateUrl>)
        ensures
            urls_unique(hooks@) <==> r is Ok,
            r matches Ok(t) ==> t@ == hooks@ && t.wf(),
            r matches Err(d) ==> exists|j: int|
                0 <= j < hooks@.len() && d.url@ == #[trigger] hooks@[j].url@
                    && urls_unique(hooks@.subrange(0, j))
                    && exists|i: int| 0 <= i < j && hooks@[i].url@ == hooks@[j].url@,
    {
        let mut j: usize = 0;
        while j < hooks.len()
            invariant
                j <= hooks@.len(),
                urls_unique(hooks@.subrange(0, j as int)),
            decreases hooks@.len() - j,
        {
            match find_url(&hooks, j, &hooks[j].url) {
                Some(i) => {
                    proof {
                        assert(hooks@[i as int].url@ == hooks@[j as int].url@);
                    }
                    return Err(DuplicateUrl { url: hooks[j].url.clone() });
                },
                None => {
                    proof {
                        let s = hooks@.subrange(0, j + 1);
                        assert forall|a: int, b: int| 0 <= a < b < s.len() implies #[trigger] s[a].url@
                            != #[trigger] s[b].url@ by {
                            if b < j {
                                assert(hooks@.subrange(0, j as int)[a] == s[a]);
                                assert(hooks@.subrange(0, j as int)[b] == s[b]);
                            }
                        }
                    }
                },
            }
            j = j + 1;
        }
        assert(hooks@.subrange(0, hooks@.len() as int) =~= hooks@);
        Ok(HookTable { hooks })
    }

    /// The number of hooks.
    pub fn len(&self) -> (r: usize)
        ensures
            r == self@.len(),
            self.wf(),
    {
        proof {
            use_type_invariant(self);
        }
        self.hooks.len()
    }

    /// The hook at `index`.
    pub fn get(&self, index: usize) -> (r: &Hook)
        requires
            index < self@.len(),
        ensures
            *r == self@[index as int],
    {
        &self.hooks[index]
    }

    /// The index of the hook for this URL path, if there is one.
    pub fn lookup(&self, path: &str) -> (r: Option<usize>)
        ensures
            match r {
                Some(i) => i < self@.len() && self@[i as int].url@ == path@,
                None => forall|i: int| 0 <= i < self@.len() ==> self@[i].url@ != path@,
            },
    {
        let wanted = path.to_owned();
        find_url(&self.hooks, self.hooks.len(), &wanted)
    }

    /// Which hook a request is for: a POST request for the URL path of a
    /// hook. Other methods, and paths without a hook, are rejected.
    pub fn route(&self, is_post: bool, path: &str) -> (r: Result<usize, Rejection>)
        ensures
            !is_post ==> r == Err::<usize, Rejection>(Rejection::MethodNotAllowed),
            is_post ==> match r {
                Ok(i) => i < self@.len() && self@[i as int].url@ == path@,
                Err(e) => e == Rejection::NoHook && forall|i: int|
                    0 <= i < self@.len() ==> self@[i].url@ != path@,
            },
    {
        if !is_post {
            return Err(Rejection::MethodNotAllowed);
        }
        match self.lookup(path) {
            Some(i) => Ok(i),
            None => Err(Rejection::NoHook),
        }
    }
}

/// Whether a request may trigger its hook, as far as its signature goes.
#[derive(Debug)]
pub enum Authorization {
    /// The hook has no secret: any request may trigger it.
    Unsigned,
    /// The hook has a secret, and this is what the check found.
    Checked(SignatureCheck),
}

impl Authorization {
    /// The rejection that the authorization calls for, if any.
    pub fn rejection(&self) -> (r: Option<Rejection>)
        ensures
            r == (match self {
                Authorization::Unsigned => None,
                Authorization::Checked(SignatureCheck::Valid { .. }) => None,
                Authorization::Checked(SignatureCheck::BadHeader(_)) => Some(Rejection::BadSignatureHeader),
                Authorization::Checked(SignatureCheck::Mismatch { .. }) => Some(Rejection::SignatureMismatch),
            }),
    {
        match self {
            Authorization::Unsigned => None,
            Authorization::Checked(SignatureCheck::Valid { .. }) => None,
            Authorization::Checked(SignatureCheck::BadHeader(_)) => Some(Rejection::BadSignatureHeader),
            Authorization::Checked(SignatureCheck::Mismatch { .. }) => Some(Rejection::SignatureMismatch),
        }
    }
}

/// Checks a request for `hook` with this body and `X-Hub-Signature-256`
/// header: hooks without a secret take any request, the others only one
/// signed with their secret.
pub fn authorize(hook: &Hook, body: &[u8], header: Option<&[u8]>) -> (r: Authorization)
    ensures
        match hook.secret {
            None => r is Unsigned,
            Some(secret) => r matches Authorization::Checked(check) && match check {
                SignatureCheck::Valid { digest } => spec_check_signature(secret@, body@, header_view(header))
                    == Ok::<Seq<char>, Option<crate::signature::SignatureHeaderError>>(digest@),
                SignatureCheck::BadHeader(e) => spec_check_signature(secret@, body@, header_view(header))
                    == Err::<Seq<char>, Option<crate::signature::SignatureHeaderError>>(Some(e)),
                SignatureCheck::Mismatch { digest } => spec_check_signature(secret@, body@, header_view(header))
                    == Err::<Seq<char>, Option<crate::signature::SignatureHeaderError>>(None)
                    && digest@ == spec_digest(secret@, body@),
            },
        },
{
    match &hook.secret {
        None => Authorization::Unsigned,
        Some(secret) => Authorization::Checked(check_signature(secret.as_str(), body, header)),
    }
}

} // verus!
