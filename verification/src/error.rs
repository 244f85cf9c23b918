//! Typed errors with stable process exit codes.

use vstd::prelude::*;

use crate::number::{decimal, decimal_text};
use crate::text::{cat2, cat3, cat4, cat5, Text};

verus! {

/// An error condition with a stable exit code.
#[derive(Debug)]
pub enum NboxError {
    /// HTTP 401. Holds the server's reason as a suffix, or nothing.
    Authentication(String),
    /// HTTP 403. Holds the server's reason as a suffix, or nothing.
    PermissionDenied(String),
    /// A lookup matched nothing.
    NotFound(String),
    /// A reference matched more than one object.
    Ambiguous { noun: String, value: String, matches: String },
    /// An unsupported combination of flags or data.
    Usage(String),
    /// A write was refused because the object changed since it was planned.
    StalePrecondition(String),
    /// The server rejected a write's body.
    WriteValidation(String),
    /// Any other failed response.
    Api { status: u16, body: String },
}

impl NboxError {
    /// The exit code: 2 for usage, 3 for authentication and permission, 4 for not
    /// found, 5 for ambiguous, 1 for anything else.
    pub open spec fn code(self) -> i32 {
        match self {
            NboxError::Usage(_) => 2,
            NboxError::Authentication(_) => 3,
            NboxError::PermissionDenied(_) => 3,
            NboxError::NotFound(_) => 4,
            NboxError::Ambiguous { noun, value, matches } => 5,
            NboxError::StalePrecondition(_) => 1,
            NboxError::WriteValidation(_) => 1,
            NboxError::Api { status, body } => 1,
        }
    }

    /// The text shown for the error.
    pub open spec fn message_text(self) -> Text {
        match self {
            NboxError::Usage(m) => m@,
            NboxError::Authentication(r) => "authentication failed (HTTP 401)"@ + r@
                + " — check the token for this profile"@,
            NboxError::PermissionDenied(r) => "permission denied (HTTP 403)"@ + r@
                + " — check the token or permissions for this profile"@,
            NboxError::NotFound(m) => m@,
            NboxError::Ambiguous { noun, value, matches } => noun@ + " \""@ + value@
                + "\" is ambiguous — matches: "@ + (matches@
                + "\n\nBe more specific, or use an ID."@),
            NboxError::StalePrecondition(r) =>
                "not applied: object changed in NetBox; re-run dry-run"@ + r@,
            NboxError::WriteValidation(d) => "not applied: NetBox rejected the patch: "@ + d@,
            NboxError::Api { status, body } => "NetBox API request failed: HTTP "@
                + decimal_text(status as nat) + ": "@ + body@,
        }
    }

    /// The process exit code.
    pub fn exit_code(&self) -> (r: i32)
        ensures
            r == self.code(),
    {
        match self {
            NboxError::Usage(_) => 2,
            NboxError::Authentication(_) => 3,
            NboxError::PermissionDenied(_) => 3,
            NboxError::NotFound(_) => 4,
            NboxError::Ambiguous { noun: _, value: _, matches: _ } => 5,
            NboxError::StalePrecondition(_) => 1,
            NboxError::WriteValidation(_) => 1,
            NboxError::Api { status: _, body: _ } => 1,
        }
    }

    /// Writes the error out.
    pub fn message(&self) -> (r: String)
        ensures
            r@ == self.message_text(),
    {
        match self {
            NboxError::Usage(m) => m.clone(),
            NboxError::Authentication(r) => cat3(
                "authentication failed (HTTP 401)",
                r.as_str(),
                " — check the token for this profile",
            ),
            NboxError::PermissionDenied(r) => cat3(
                "permission denied (HTTP 403)",
                r.as_str(),
                " — check the token or permissions for this profile",
            ),
            NboxError::NotFound(m) => m.clone(),
            NboxError::Ambiguous { noun, value, matches } => {
                let tail = cat2(matches.as_str(), "\n\nBe more specific, or use an ID.");
                cat5(
                    noun.as_str(),
                    " \"",
                    value.as_str(),
                    "\" is ambiguous — matches: ",
                    tail.as_str(),
                )
            },
            NboxError::StalePrecondition(r) => cat2(
                "not applied: object changed in NetBox; re-run dry-run",
                r.as_str(),
            ),
            NboxError::WriteValidation(d) => cat2(
                "not applied: NetBox rejected the patch: ",
                d.as_str(),
            ),
            NboxError::Api { status, body } => {
                let n = decimal(*status as u64);
                cat4("NetBox API request failed: HTTP ", n.as_str(), ": ", body.as_str())
            },
        }
    }

    /// The exit code for a chain of errors: that of the outermost typed error, or
    /// 1 when there is none.
    pub fn exit_code_for(err: &ErrorChain) -> (r: i32)
        ensures
            r == chain_code(err.links@),
    {
        match err.first_typed() {
            Some(e) => e.exit_code(),
            None => 1,
        }
    }
}

/// One link of a chain of errors.
#[derive(Debug)]
pub enum ErrorLink {
    /// A typed error.
    Typed(NboxError),
    /// An input or output error; says whether it is a broken pipe.
    Io { broken_pipe: bool, message: String },
    /// A message without a type.
    Note(String),
}

/// An error with the context added to it, the outermost link first.
#[derive(Debug)]
pub struct ErrorChain {
    pub links: Vec<ErrorLink>,
}

/// The outermost typed error of a chain.
pub open spec fn outermost_typed(links: Seq<ErrorLink>) -> Option<NboxError>
    decreases links.len(),
{
    if links.len() == 0 {
        None
    } else {
        match links[0] {
            ErrorLink::Typed(e) => Some(e),
            _ => outermost_typed(links.skip(1)),
        }
    }
}

/// The exit code of a chain.
pub open spec fn chain_code(links: Seq<ErrorLink>) -> i32 {
    match outermost_typed(links) {
        Some(e) => e.code(),
        None => 1,
    }
}

/// Whether a chain holds a broken pipe.
pub open spec fn has_broken_pipe(links: Seq<ErrorLink>) -> bool {
    exists|i: int| 0 <= i < links.len() && is_pipe(#[trigger] links[i])
}

/// Whether a layer is that of a reader that went away.
pub open spec fn is_pipe(link: ErrorLink) -> bool {
    match link {
        ErrorLink::Io { broken_pipe, message } => broken_pipe,
        _ => false,
    }
}

impl ErrorChain {
    /// Whether the chain is made of these messages, the outermost first.
    pub open spec fn says(self, notes: Seq<Text>) -> bool {
        self.links@.len() == notes.len() && forall|i: int|
            0 <= i < notes.len() ==> (#[trigger] self.links@[i]) is Note && self.links@[i]->Note_0@
                == notes[i]
    }

    /// Whether the chain is a typed error without context.
    pub open spec fn is_bare(self) -> bool {
        self.links@.len() == 1 && self.links@[0] is Typed
    }

    /// The typed error of a chain without context.
    pub open spec fn bare(self) -> NboxError {
        self.links@[0]->Typed_0
    }

    /// A chain of one message.
    pub fn note(text: String) -> (r: Self)
        ensures
            r.says(seq![text@]),
    {
        ErrorChain::new(ErrorLink::Note(text))
    }

    /// A typed error without context.
    pub fn typed(e: NboxError) -> (r: Self)
        ensures
            r.is_bare(),
            r.bare() == e,
    {
        ErrorChain::new(ErrorLink::Typed(e))
    }

    /// A message over its cause.
    pub fn caused(note: &str, cause: String) -> (r: Self)
        ensures
            r.says(seq![note@, cause@]),
    {
        let r = ErrorChain::note(cause);
        let ghost inner = r.links@;
        let out = r.context(note);
        proof {
            assert(out.links@.skip(1)[0] == inner[0]);
        }
        out
    }

    /// A chain of one link.
    pub fn new(link: ErrorLink) -> (r: Self)
        ensures
            r.links@ == seq![link],
    {
        let mut links: Vec<ErrorLink> = Vec::new();
        links.push(link);
        proof {
            assert(links@ =~= seq![link]);
        }
        ErrorChain { links }
    }

    /// The chain with a note around it.
    pub fn context(self, note: &str) -> (r: Self)
        ensures
            r.links@.len() == self.links@.len() + 1,
            r.links@[0] is Note,
            r.links@[0]->Note_0@ == note@,
            r.links@.skip(1) == self.links@,
    {
        let ghost before = self.links@;
        let mut links = self.links;
        links.insert(0, ErrorLink::Note(note.to_owned()));
        proof {
            assert(links@.skip(1) =~= before);
        }
        ErrorChain { links }
    }

    fn first_typed(&self) -> (r: Option<&NboxError>)
        ensures
            match r {
                Some(e) => outermost_typed(self.links@) == Some(*e),
                None => outermost_typed(self.links@) is None,
            },
    {
        let mut i: usize = 0;
        proof {
            assert(self.links@.skip(0) =~= self.links@);
        }
        while i < self.links.len()
            invariant
                i <= self.links.len(),
                outermost_typed(self.links@) == outermost_typed(self.links@.skip(i as int)),
            decreases self.links.len() - i,
        {
            if let ErrorLink::Typed(e) = &self.links[i] {
                return Some(e);
            }
            proof {
                assert(self.links@.skip(i as int).skip(1) =~= self.links@.skip(i as int + 1));
            }
            i = i + 1;
        }
        None
    }
}

/// Whether an error is, or wraps, a broken pipe.
pub fn is_broken_pipe(err: &ErrorChain) -> (r: bool)
    ensures
        r == has_broken_pipe(err.links@),
{
    let mut i: usize = 0;
    while i < err.links.len()
        invariant
            i <= err.links.len(),
            forall|j: int| 0 <= j < i ==> !is_pipe(#[trigger] err.links@[j]),
        decreases err.links.len() - i,
    {
        if let ErrorLink::Io { broken_pipe, message: _ } = &err.links[i] {
            if *broken_pipe {
                proof {
                    assert(is_pipe(err.links@[i as int]));
                }
                return true;
            }
        }
        i = i + 1;
    }
    false
}

/// Whether the outermost typed error of a chain is a lookup that found nothing.
pub fn is_not_found(err: &ErrorChain) -> (r: bool)
    ensures
        r == (outermost_typed(err.links@) is Some && outermost_typed(err.links@)->0 is NotFound),
{
    match err.first_typed() {
        Some(NboxError::NotFound(_)) => true,
        _ => false,
    }
}

/// Context never changes the exit code, nor whether a broken pipe is found.
pub proof fn context_is_transparent(inner: Seq<ErrorLink>, outer: Seq<ErrorLink>)
    requires
        outer.len() == inner.len() + 1,
        outer[0] is Note,
        outer.skip(1) == inner,
    ensures
        outermost_typed(outer) == outermost_typed(inner),
        chain_code(outer) == chain_code(inner),
        has_broken_pipe(outer) == has_broken_pipe(inner),
{
    if has_broken_pipe(inner) {
        let i = choose|i: int| 0 <= i < inner.len() && is_pipe(#[trigger] inner[i]);
        assert(outer[i + 1] == inner[i]);
    }
    if has_broken_pipe(outer) {
        let i = choose|i: int| 0 <= i < outer.len() && is_pipe(#[trigger] outer[i]);
        assert(inner[i - 1] == outer[i]);
    }
}

/// Every exit code lies between one and five.
pub proof fn exit_codes_are_bounded(links: Seq<ErrorLink>)
    ensures
        1 <= chain_code(links) <= 5,
{
}

/// Every sort of error has its own exit code: wrong usage, a refused login or
/// permission, nothing found, several found; anything else is a plain failure.
pub proof fn exit_codes_tell_the_sort(e: NboxError)
    ensures
        e.code() == 2 <==> e is Usage,
        e.code() == 3 <==> e is Authentication || e is PermissionDenied,
        e.code() == 4 <==> e is NotFound,
        e.code() == 5 <==> e is Ambiguous,
        e.code() == 1 <==> e is StalePrecondition || e is WriteValidation || e is Api,
{
}

/// What an error says, sort by sort.
pub proof fn errors_say_what_is_wrong(e: NboxError)
    ensures
        e is Usage ==> e.message_text() == e->Usage_0@,
        e is NotFound ==> e.message_text() == e->NotFound_0@,
        e is Authentication ==> e.message_text() == "authentication failed (HTTP 401)"@
            + e->Authentication_0@ + " — check the token for this profile"@,
        e is PermissionDenied ==> e.message_text() == "permission denied (HTTP 403)"@
            + e->PermissionDenied_0@ + " — check the token or permissions for this profile"@,
        e is Ambiguous ==> e.message_text() == e->Ambiguous_noun@ + " \""@ + e->Ambiguous_value@
            + "\" is ambiguous — matches: "@ + (e->Ambiguous_matches@
            + "\n\nBe more specific, or use an ID."@),
        e is StalePrecondition ==> e.message_text()
            == "not applied: object changed in NetBox; re-run dry-run"@ + e->StalePrecondition_0@,
        e is WriteValidation ==> e.message_text() == "not applied: NetBox rejected the patch: "@
            + e->WriteValidation_0@,
        e is Api ==> e.message_text() == "NetBox API request failed: HTTP "@ + decimal_text(
            e->status as nat,
        ) + ": "@ + e->body@,
{
}

/// The exit code of a chain is that of its outermost typed error, whatever notes stand
/// around it and whatever stands behind it; a chain without one is a plain failure.
pub proof fn the_outermost_typed_error_decides(links: Seq<ErrorLink>, i: int)
    ensures
        ({
            &&& 0 <= i < links.len()
            &&& links[i] is Typed
            &&& forall|j: int| 0 <= j < i ==> !((#[trigger] links[j]) is Typed)
        }) ==> chain_code(links) == links[i]->Typed_0.code(),
        (forall|j: int| 0 <= j < links.len() ==> !((#[trigger] links[j]) is Typed)) ==> chain_code(
            links,
        ) == 1,
        has_broken_pipe(links) <==> exists|j: int|
            0 <= j < links.len() && (#[trigger] links[j]) is Io && links[j]->broken_pipe,
    decreases links.len(),
{
    assert forall|l: ErrorLink| #[trigger] is_pipe(l) <==> l is Io && l->broken_pipe by {}
    if exists|j: int| 0 <= j < links.len() && (#[trigger] links[j]) is Io && links[j]->broken_pipe {
        let j = choose|j: int|
            0 <= j < links.len() && (#[trigger] links[j]) is Io && links[j]->broken_pipe;
        assert(is_pipe(links[j]));
    }
    if links.len() > 0 && !(links[0] is Typed) {
        let rest = links.skip(1);
        the_outermost_typed_error_decides(rest, i - 1);
        assert(forall|j: int| 0 <= j < rest.len() ==> #[trigger] rest[j] == links[j + 1]);
        if 0 < i < links.len() {
            assert(rest[i - 1] == links[i]);
            if forall|j: int| 0 <= j < i ==> !((#[trigger] links[j]) is Typed) {
                assert forall|j: int| 0 <= j < i - 1 implies !((#[trigger] rest[j]) is Typed) by {
                    assert(rest[j] == links[j + 1]);
                }
            }
        }
        if forall|j: int| 0 <= j < links.len() ==> !((#[trigger] links[j]) is Typed) {
            assert forall|j: int| 0 <= j < rest.len() implies !((#[trigger] rest[j]) is Typed) by {
                assert(rest[j] == links[j + 1]);
            }
        }
    }
}

/// A pipe counts as broken when some link of the chain says so, and only then.
pub proof fn broken_pipes_are_found_in_the_chain(links: Seq<ErrorLink>)
    ensures
        has_broken_pipe(links) <==> exists|i: int|
            0 <= i < links.len() && (#[trigger] links[i]) is Io && links[i]->broken_pipe,
{
    if has_broken_pipe(links) {
        let i = choose|i: int| 0 <= i < links.len() && is_pipe(#[trigger] links[i]);
        assert(links[i] is Io && links[i]->broken_pipe);
    }
    if exists|i: int| 0 <= i < links.len() && (#[trigger] links[i]) is Io && links[i]->broken_pipe {
        let i = choose|i: int|
            0 <= i < links.len() && (#[trigger] links[i]) is Io && links[i]->broken_pipe;
        assert(is_pipe(links[i]));
    }
}

} // verus!
