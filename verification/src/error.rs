//! Errors, as far as the decisions of this crate read them.
//!
//! An error has a root cause and the contexts laid round it. A root cause that
//! came from the transport keeps the links of its source chain, outermost first.
use vstd::prelude::*;
use vstd::string::*;

verus! {

/// A gRPC status code.
#[derive(Clone, Copy, Debug, PartialEq, Eq, Structural)]
pub enum Code {
    Success,
    Cancelled,
    Unknown,
    InvalidArgument,
    DeadlineExceeded,
    NotFound,
    AlreadyExists,
    PermissionDenied,
    ResourceExhausted,
    FailedPrecondition,
    Aborted,
    OutOfRange,
    Unimplemented,
    Internal,
    Unavailable,
    DataLoss,
    Unauthenticated,
}

/// The kind of an I/O error.
#[derive(Clone, Copy, Debug, PartialEq, Eq, Structural)]
pub enum IoErrorKind {
    ConnectionRefused,
    ConnectionReset,
    ConnectionAborted,
    NotConnected,
    BrokenPipe,
    TimedOut,
    UnexpectedEof,
    InvalidData,
    Other,
}

/// One link of an error's source chain.
#[derive(Clone, Copy, Debug, PartialEq, Eq, Structural)]
pub enum ErrorLink {
    /// A gRPC status.
    Status(Code),
    /// An HTTP/2 error: whether an I/O error caused it, and the reason code that
    /// the peer gave.
    H2 { is_io: bool, reason: Option<u32> },
    /// An I/O error.
    Io(IoErrorKind),
    /// Any other error.
    Other,
}

/// A failed call's status.
#[derive(Debug)]
pub struct Status {
    pub code: Code,
    /// What the status and its sources say.
    pub text: String,
    /// The source chain below the status, outermost first.
    pub sources: Vec<ErrorLink>,
}

/// What the remote execution service reported as the failure of a request.
#[derive(Debug)]
pub struct REClientError {
    pub code: i32,
    pub message: String,
    pub group: TCodeReasonGroup,
}

/// The group that a failure's reason belongs to.
#[derive(Clone, Copy, Debug, PartialEq, Eq, Structural)]
pub enum TCodeReasonGroup {
    Unknown,
}

/// Where an error started.
#[derive(Debug)]
pub enum RootCause {
    /// The transport reported a status.
    Status(Status),
    /// The service reported a failure.
    Client(REClientError),
    /// A failed operation of another kind, with its source chain, itself included.
    Chain { text: String, links: Vec<ErrorLink> },
    /// A message of this crate.
    Message(String),
}

/// An error with its contexts, innermost first.
#[derive(Debug)]
pub struct Error {
    pub root: RootCause,
    pub contexts: Vec<String>,
}

impl RootCause {
    /// What the root cause says.
    pub open spec fn text_spec(self) -> Seq<char> {
        match self {
            RootCause::Status(status) => status.text@,
            RootCause::Client(client) => client.message@,
            RootCause::Chain { text, .. } => text@,
            RootCause::Message(text) => text@,
        }
    }

    /// The links of the root cause's chain, outermost first, itself included.
    pub open spec fn links(self) -> Seq<ErrorLink> {
        match self {
            RootCause::Status(status) => seq![ErrorLink::Status(status.code)] + status.sources@,
            RootCause::Client(_) => seq![ErrorLink::Other],
            RootCause::Chain { links, .. } => links@,
            RootCause::Message(_) => seq![ErrorLink::Other],
        }
    }
}

/// `inner` behind the first `n` contexts, outermost in front, joined by `: `.
pub open spec fn layered_text(contexts: Seq<Seq<char>>, n: nat, inner: Seq<char>) -> Seq<char>
    decreases n,
{
    if n == 0 {
        inner
    } else {
        contexts[n - 1] + ": "@ + layered_text(contexts, (n - 1) as nat, inner)
    }
}

impl Error {
    /// The contexts as text, innermost first.
    pub open spec fn layers(self) -> Seq<Seq<char>> {
        self.contexts.deep_view()
    }

    /// What the whole error says, outermost context first.
    pub open spec fn text_spec(self) -> Seq<char> {
        layered_text(self.layers(), self.layers().len(), self.root.text_spec())
    }

    /// `self` is `inner` with one more context laid round it.
    pub open spec fn wraps(self, inner: Error, context: Seq<char>) -> bool {
        &&& self.root == inner.root
        &&& self.layers() == inner.layers().push(context)
    }

    /// `self` is a message of this crate without contexts.
    pub open spec fn says(self, message: Seq<char>) -> bool {
        &&& self.root matches RootCause::Message(text)
        &&& text@ == message
        &&& self.layers() == Seq::<Seq<char>>::empty()
    }

    /// An error that consists of `message`.
    pub fn msg(message: String) -> (error: Error)
        ensures
            error.says(message@),
            error.root == RootCause::Message(message),
    {
        let error = Error { root: RootCause::Message(message), contexts: Vec::new() };
        assert(error.layers() =~= Seq::<Seq<char>>::empty());
        error
    }

    /// An error that consists of `root`.
    pub fn new(root: RootCause) -> (error: Error)
        ensures
            error.root == root,
            error.layers() == Seq::<Seq<char>>::empty(),
    {
        let error = Error { root, contexts: Vec::new() };
        assert(error.layers() =~= Seq::<Seq<char>>::empty());
        error
    }

    /// Lays one more context round the error.
    pub fn context(self, context: String) -> (error: Error)
        ensures
            error.wraps(self, context@),
    {
        let Error { root, contexts } = self;
        let mut contexts = contexts;
        contexts.push(context);
        let error = Error { root, contexts };
        assert(error.layers() =~= self.layers().push(context@));
        error
    }

    /// The status at the root of the error, if a status stands there.
    pub fn status(&self) -> (status: Option<&Status>)
        ensures
            self.root matches RootCause::Status(s) ==> status == Some(&s),
            !(self.root is Status) ==> status is None,
    {
        match &self.root {
            RootCause::Status(status) => Some(status),
            _ => None,
        }
    }

    /// What the whole error says: every context, outermost first, then the root
    /// cause, joined by `: `.
    pub fn to_text(&self) -> (text: String)
        ensures
            text@ == self.text_spec(),
    {
        let mut text = match &self.root {
            RootCause::Status(status) => status.text.clone(),
            RootCause::Client(client) => client.message.clone(),
            RootCause::Chain { text, .. } => text.clone(),
            RootCause::Message(text) => text.clone(),
        };
        let mut i: usize = 0;
        while i < self.contexts.len()
            invariant
                i <= self.contexts@.len(),
                self.layers().len() == self.contexts@.len(),
                text@ == layered_text(self.layers(), i as nat, self.root.text_spec()),
            decreases self.contexts@.len() - i,
        {
            let mut outer = self.contexts[i].clone();
            outer.append(": ");
            outer.append(text.as_str());
            text = outer;
            i = i + 1;
        }
        text
    }
}

/// A context that is laid round an error stands in front of what the error said before;
/// an error without contexts says what its root cause says.
pub proof fn contexts_come_first(inner: Error, outer: Error, context: Seq<char>)
    requires
        outer.wraps(inner, context),
    ensures
        outer.root == inner.root,
        outer.text_spec() == context + ": "@ + inner.text_spec(),
        inner.layers().len() == 0 ==> inner.text_spec() == (match inner.root {
            RootCause::Status(status) => status.text@,
            RootCause::Client(client) => client.message@,
            RootCause::Chain { text, .. } => text@,
            RootCause::Message(text) => text@,
        }),
{
    outer_layers_do_not_matter(
        inner.layers(),
        outer.layers(),
        inner.layers().len(),
        inner.root.text_spec(),
    );
}

proof fn outer_layers_do_not_matter(
    contexts: Seq<Seq<char>>,
    more: Seq<Seq<char>>,
    n: nat,
    inner: Seq<char>,
)
    requires
        n <= contexts.len() <= more.len(),
        forall|i: int| 0 <= i < contexts.len() ==> contexts[i] == more[i],
    ensures
        layered_text(contexts, n, inner) == layered_text(more, n, inner),
    decreases n,
{
    if n > 0 {
        outer_layers_do_not_matter(contexts, more, (n - 1) as nat, inner);
    }
}

/// A message of this crate says what it was made of, and nothing else.
pub proof fn messages_say_what_they_were_made_of(error: Error, message: Seq<char>)
    requires
        error.says(message),
    ensures
        error.text_spec() == message,
        error.root is Message,
{
}

/// The chain of a root cause starts with the cause itself: a status with its code in
/// front of its sources, any other cause of this crate as one link that says nothing of
/// the transport.
pub proof fn chains_start_with_the_cause(root: RootCause, i: int)
    ensures
        root matches RootCause::Status(status) ==> {
            &&& root.links().len() == status.sources@.len() + 1
            &&& root.links()[0] == ErrorLink::Status(status.code)
            &&& 0 <= i < status.sources@.len() ==> root.links()[i + 1] == status.sources@[i]
        },
        root matches RootCause::Chain { links, .. } ==> root.links() == links@,
        root is Client || root is Message ==> root.links().len() == 1 && root.links()[0] is Other,
{
}

/// An error has the root that it was made of, and keeps it however many contexts are
/// laid round it; a status is found exactly where one stands at the root.
pub proof fn roots_stay_under_contexts(
    root: RootCause,
    bare: Error,
    context: String,
    wrapped: Error,
    status: Option<&Status>,
)
    requires
        call_ensures(Error::new, (root,), bare),
        call_ensures(Error::context, (bare, context), wrapped),
        call_ensures(Error::status, (&wrapped,), status),
    ensures
        bare.root == root,
        bare.layers().len() == 0,
        wrapped.root == root,
        wrapped.layers().len() == 1,
        wrapped.layers()[0] == context@,
        status is Some <==> root is Status,
        root matches RootCause::Status(found) ==> status == Some(&found),
{
}

} // verus!
