//! Digests that the remote store was found to lack, and errors that carry them.
use vstd::prelude::*;
use vstd::string::*;

use crate::text::{decimal, decimal_text};

verus! {

/// The digests that the remote store reported missing while an action's inputs or
/// outputs were moved.
///
/// Each digest is its canonical `hash:size` text, so that it can be compared with any
/// index of digests by plain equality of text. The set is attached to an error where
/// the failure occurs, and taken out again further up to find the actions that
/// produced it.
#[derive(Debug)]
pub struct MissingCasDigests {
    /// Pairs of the path that was to be moved and the digest that is missing.
    pub missing: Vec<(String, String)>,
}

impl View for MissingCasDigests {
    type V = Seq<(Seq<char>, Seq<char>)>;

    open spec fn view(&self) -> Seq<(Seq<char>, Seq<char>)> {
        self.missing.deep_view()
    }
}

impl Clone for MissingCasDigests {
    fn clone(&self) -> (res: Self)
        ensures
            res@ == self@,
    {
        let mut missing: Vec<(String, String)> = Vec::new();
        let mut i: usize = 0;
        assert(missing.deep_view() =~= self@.take(0));
        while i < self.missing.len()
            invariant
                i <= self.missing@.len(),
                missing.deep_view() == self@.take(i as int),
            decreases self.missing@.len() - i,
        {
            let ghost before = missing.deep_view();
            missing.push((self.missing[i].0.clone(), self.missing[i].1.clone()));
            i = i + 1;
            assert(missing.deep_view() =~= before.push(self@[i - 1]));
            assert(missing.deep_view() =~= self@.take(i as int));
        }
        assert(self@.take(i as int) =~= self@);
        MissingCasDigests { missing }
    }
}

impl MissingCasDigests {
    /// Reports whether two sets pair the same paths with the same digests, in the
    /// same order.
    pub fn same_as(&self, other: &MissingCasDigests) -> (same: bool)
        ensures
            same == (self@ == other@),
    {
        if self.missing.len() != other.missing.len() {
            assert(self@.len() != other@.len());
            return false;
        }
        let mut i: usize = 0;
        while i < self.missing.len()
            invariant
                self.missing@.len() == other.missing@.len(),
                i <= self.missing@.len(),
                forall|j: int| 0 <= j < i ==> self@[j] == other@[j],
            decreases self.missing@.len() - i,
        {
            let ghost left = self@[i as int];
            let ghost right = other@[i as int];
            if !(self.missing[i].0 == other.missing[i].0 && self.missing[i].1
                == other.missing[i].1) {
                assert(left != right);
                return false;
            }
            i = i + 1;
        }
        assert(self@ =~= other@);
        true
    }

    /// What the set says as part of a longer message: nothing, for it is there to be
    /// read by code.
    pub fn display(&self) -> (text: Option<String>)
        ensures
            text is None,
    {
        None
    }

    /// What the set says as an error of its own.
    pub fn to_text(&self) -> (text: String)
        ensures
            text@ == decimal(self@.len()) + " artifact(s) missing from the RE CAS"@,
    {
        let mut text = decimal_text(self.missing.len() as u64);
        assert(self@.len() == self.missing@.len());
        text.append(" artifact(s) missing from the RE CAS");
        text
    }
}

/// What is laid round an error.
#[derive(Debug)]
pub enum ErrorContext {
    Text(String),
    Missing(MissingCasDigests),
}

/// An error of the build, with what is laid round it, innermost first.
#[derive(Debug)]
pub struct BuildError {
    pub message: String,
    pub contexts: Vec<ErrorContext>,
}

/// What the first `n` contexts and the message say, outermost first, joined by `: `.
/// Missing digests say nothing.
pub open spec fn error_text(message: Seq<char>, contexts: Seq<ErrorContext>, n: nat) -> Seq<char>
    decreases n,
{
    if n == 0 {
        message
    } else {
        let inner = error_text(message, contexts, (n - 1) as nat);
        match contexts[n - 1] {
            ErrorContext::Text(text) => text@ + ": "@ + inner,
            ErrorContext::Missing(_) => inner,
        }
    }
}

/// The position of the outermost missing digests among the first `n` contexts.
pub open spec fn outermost_missing(contexts: Seq<ErrorContext>, n: nat) -> Option<int>
    decreases n,
{
    if n == 0 {
        None
    } else if contexts[n - 1] is Missing {
        Some(n - 1)
    } else {
        outermost_missing(contexts, (n - 1) as nat)
    }
}

impl BuildError {
    /// The missing digests that the error carries, if it carries any.
    pub open spec fn missing_digests(self) -> Option<MissingCasDigests> {
        match outermost_missing(self.contexts@, self.contexts@.len()) {
            Some(i) => Some(self.contexts@[i]->Missing_0),
            None => None,
        }
    }

    /// What the whole error says.
    pub open spec fn text_spec(self) -> Seq<char> {
        error_text(self.message@, self.contexts@, self.contexts@.len())
    }

    /// An error that consists of `message`.
    pub fn new(message: String) -> (error: Self)
        ensures
            error.message == message,
            error.contexts@ == Seq::<ErrorContext>::empty(),
    {
        BuildError { message, contexts: Vec::new() }
    }

    /// Lays one more context round the error.
    pub fn context(self, context: ErrorContext) -> (error: Self)
        ensures
            error.message == self.message,
            error.contexts@ == self.contexts@.push(context),
    {
        let BuildError { message, contexts } = self;
        let mut contexts = contexts;
        contexts.push(context);
        BuildError { message, contexts }
    }

    /// The missing digests that the error carries, if it carries any.
    pub fn find_missing_digests(&self) -> (missing: Option<&MissingCasDigests>)
        ensures
            match self.missing_digests() {
                Some(digests) => missing == Some(&digests),
                None => missing is None,
            },
    {
        let mut n: usize = self.contexts.len();
        while n > 0
            invariant
                n <= self.contexts@.len(),
                outermost_missing(self.contexts@, self.contexts@.len()) == outermost_missing(
                    self.contexts@,
                    n as nat,
                ),
            decreases n,
        {
            if let ErrorContext::Missing(digests) = &self.contexts[n - 1] {
                return Some(digests);
            }
            n = n - 1;
        }
        None
    }

    /// What the whole error says: its contexts, outermost first, and its message.
    pub fn to_text(&self) -> (text: String)
        ensures
            text@ == self.text_spec(),
    {
        let mut text = self.message.clone();
        let mut i: usize = 0;
        while i < self.contexts.len()
            invariant
                i <= self.contexts@.len(),
                text@ == error_text(self.message@, self.contexts@, i as nat),
            decreases self.contexts@.len() - i,
        {
            if let ErrorContext::Text(context) = &self.contexts[i] {
                let mut outer = context.clone();
                outer.append(": ");
                outer.append(text.as_str());
                text = outer;
            }
            i = i + 1;
        }
        text
    }
}

proof fn later_contexts_do_not_matter(contexts: Seq<ErrorContext>, more: ErrorContext, n: nat)
    requires
        n <= contexts.len(),
    ensures
        outermost_missing(contexts.push(more), n) == outermost_missing(contexts, n),
    decreases n,
{
    if n > 0 {
        later_contexts_do_not_matter(contexts, more, (n - 1) as nat);
    }
}

proof fn later_contexts_do_not_speak(
    message: Seq<char>,
    contexts: Seq<ErrorContext>,
    more: ErrorContext,
    n: nat,
)
    requires
        n <= contexts.len(),
    ensures
        error_text(message, contexts.push(more), n) == error_text(message, contexts, n),
    decreases n,
{
    if n > 0 {
        later_contexts_do_not_speak(message, contexts, more, (n - 1) as nat);
    }
}

proof fn outermost_is_inside(contexts: Seq<ErrorContext>, n: nat)
    requires
        n <= contexts.len(),
    ensures
        outermost_missing(contexts, n) matches Some(i) ==> 0 <= i < n && contexts[i] is Missing,
    decreases n,
{
    if n > 0 {
        outermost_is_inside(contexts, (n - 1) as nat);
    }
}

/// Missing digests that are attached to an error are found again, however much text
/// is laid round the error later.
pub proof fn missing_digests_survive_wrapping(
    inner: BuildError,
    outer: BuildError,
    text: String,
)
    requires
        outer.contexts@ == inner.contexts@.push(ErrorContext::Text(text)),
    ensures
        outer.missing_digests() == inner.missing_digests(),
{
    later_contexts_do_not_matter(inner.contexts@, ErrorContext::Text(text), inner.contexts@.len());
    outermost_is_inside(inner.contexts@, inner.contexts@.len());
}

/// Attaching missing digests changes nothing about what an error says.
pub proof fn missing_digests_are_not_shown(
    plain: BuildError,
    carrying: BuildError,
    digests: MissingCasDigests,
)
    requires
        carrying.message == plain.message,
        carrying.contexts@ == plain.contexts@.push(ErrorContext::Missing(digests)),
    ensures
        carrying.text_spec() == plain.text_spec(),
        carrying.missing_digests() == Some(digests),
{
    later_contexts_do_not_speak(
        plain.message@,
        plain.contexts@,
        ErrorContext::Missing(digests),
        plain.contexts@.len(),
    );
}

/// The missing digests that an error carries are those that were attached last; where
/// none were attached, it carries none.
pub proof fn the_outermost_missing_digests_are_carried(error: BuildError, i: int)
    ensures
        0 <= i < error.contexts@.len() && error.contexts@[i] is Missing && (forall|j: int|
            i < j < error.contexts@.len() ==> !(error.contexts@[j] is Missing))
            ==> error.missing_digests() == Some(error.contexts@[i]->Missing_0),
        (forall|j: int| 0 <= j < error.contexts@.len() ==> !(error.contexts@[j] is Missing))
            <==> error.missing_digests() is None,
{
    outermost_is_the_last(error.contexts@, error.contexts@.len());
}

proof fn outermost_is_the_last(contexts: Seq<ErrorContext>, n: nat)
    requires
        n <= contexts.len(),
    ensures
        outermost_missing(contexts, n) matches Some(i) ==> {
            &&& 0 <= i < n
            &&& contexts[i] is Missing
            &&& forall|j: int| i < j < n ==> !(contexts[j] is Missing)
        },
        outermost_missing(contexts, n) is None ==> forall|j: int|
            0 <= j < n ==> !(contexts[j] is Missing),
    decreases n,
{
    if n > 0 {
        outermost_is_the_last(contexts, (n - 1) as nat);
    }
}

/// Text that is laid round an error stands in front of what the error said before, and
/// an error without contexts says just its message.
pub proof fn contexts_stand_in_front(inner: BuildError, outer: BuildError, text: String)
    requires
        outer.message == inner.message,
        outer.contexts@ == inner.contexts@.push(ErrorContext::Text(text)),
    ensures
        outer.text_spec() == text@ + ": "@ + inner.text_spec(),
        inner.contexts@.len() == 0 ==> inner.text_spec() == inner.message@,
{
    later_contexts_do_not_speak(
        inner.message@,
        inner.contexts@,
        ErrorContext::Text(text),
        inner.contexts@.len(),
    );
}

} // verus!
