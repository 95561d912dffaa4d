use vstd::prelude::*;
use crate::event::{AdmissionRequest, AdmitError, Decision, effective_author};
use crate::hexkey::{encode_key, hex_of};

verus! {

/// One blacklist lookup that the admission needs answered.
#[derive(Clone, Copy, Debug, PartialEq, Eq, Structural)]
pub enum Check {
    /// Is this kind in the kind blacklist? The key is the store's signed
    /// column value of the event's kind.
    Kind(i64),
    /// Is the admission's author (`Admission::author`) in the author blacklist?
    Author,
    /// Does the admission's content (`Admission::content`) contain a
    /// blacklisted pattern?
    Content,
}

/// What the store said to a lookup.
#[derive(Clone, Copy, Debug, PartialEq, Eq, Structural)]
pub enum Answer {
    Listed,
    NotListed,
    /// The store could not be reached or did not answer properly.
    Unavailable,
}

/// What the caller does next: answer a lookup, or send the decision.
#[derive(Clone, Copy, Debug, PartialEq, Eq, Structural)]
pub enum Step {
    Lookup(Check),
    Finish(Decision),
}

/// The largest kind that the store's signed kind column can hold.
pub const MAX_STORED_KIND: u64 = 0x7fff_ffff_ffff_ffff;

/// The checks of one admission, in the order they run: the kind (when kind
/// filtering is on and the kind fits the store's column), the author, then
/// the content.
pub open spec fn plan_of(filter_kinds: bool, kind: u64) -> Seq<Check> {
    if filter_kinds && kind <= MAX_STORED_KIND {
        seq![Check::Kind(kind as i64), Check::Author, Check::Content]
    } else {
        seq![Check::Author, Check::Content]
    }
}

/// `pattern` occurs in `text` as a contiguous run of characters.
pub open spec fn contains_seq(text: Seq<char>, pattern: Seq<char>) -> bool {
    exists|i: int|
        0 <= i && i + pattern.len() <= text.len() && #[trigger] text.subrange(i, i + pattern.len())
            == pattern
}

/// A kind is blacklisted when the store's kind set holds it. A kind beyond
/// the store's column range can not be held there.
pub open spec fn kind_listed(kind: u64, kinds: Set<i64>) -> bool {
    kind <= MAX_STORED_KIND && kinds.contains(kind as i64)
}

/// Content is blacklisted when it contains some stored pattern.
pub open spec fn content_listed(content: Seq<char>, patterns: Set<Seq<char>>) -> bool {
    exists|p: Seq<char>| #[trigger] patterns.contains(p) && contains_seq(content, p)
}

/// The store's true answer to a check, for the given author and content and
/// the three blacklist sets.
pub open spec fn listed(
    c: Check,
    author: Seq<char>,
    content: Seq<char>,
    kinds: Set<i64>,
    authors: Set<Seq<char>>,
    patterns: Set<Seq<char>>,
) -> bool {
    match c {
        Check::Kind(k) => kinds.contains(k),
        Check::Author => authors.contains(author),
        Check::Content => content_listed(content, patterns),
    }
}

/// Deny-fast evaluation of `checks` against true answers: the decision, and
/// the lookups made, which end at the first listed check.
pub open spec fn evaluate(
    checks: Seq<Check>,
    author: Seq<char>,
    content: Seq<char>,
    kinds: Set<i64>,
    authors: Set<Seq<char>>,
    patterns: Set<Seq<char>>,
) -> (Decision, Seq<Check>)
    decreases checks.len(),
{
    if checks.len() == 0 {
        (Decision::Permit, Seq::empty())
    } else if listed(checks[0], author, content, kinds, authors, patterns) {
        (Decision::Deny, seq![checks[0]])
    } else {
        let rest = evaluate(checks.drop_first(), author, content, kinds, authors, patterns);
        (rest.0, seq![checks[0]] + rest.1)
    }
}

/// One admission in progress.
pub struct Admission {
    /// The event's kind.
    pub kind: u64,
    /// The effective author's key in lowercase hexadecimal.
    pub author: String,
    /// The event's content.
    pub content: String,
    /// Whether the kind check runs.
    pub filter_kinds: bool,
    /// How many checks have been answered "not listed" so far.
    pub passed: usize,
}

impl Admission {
    /// The checks this admission runs, in order.
    pub open spec fn plan(&self) -> Seq<Check> {
        plan_of(self.filter_kinds, self.kind)
    }

    /// The step that the admission is at: the next check, or a permit once
    /// every check has passed.
    pub open spec fn step_spec(&self) -> Step {
        if self.passed < self.plan().len() {
            Step::Lookup(self.plan()[self.passed as int])
        } else {
            Step::Finish(Decision::Permit)
        }
    }

    /// This admission was made from `req`, with the event `req` carries.
    pub open spec fn made_from(&self, req: &AdmissionRequest, filter_kinds: bool) -> bool {
        &&& req.event matches Some(ev)
        &&& self.kind == ev.kind
        &&& self.content@ == ev.content@
        &&& self.author@ == hex_of(
            effective_author(
                match req.auth_pubkey {
                    Some(a) => Some(a@),
                    None => None,
                },
                ev.pubkey@,
            ),
        )
        &&& self.filter_kinds == filter_kinds
        &&& self.passed == 0
    }

    /// Starts an admission of the request's event. The author checked is the
    /// authenticated one when the request carries it, else the event's own.
    /// A request with an event always starts; one without an event is
    /// refused as invalid.
    pub fn begin(req: &AdmissionRequest, filter_kinds: bool) -> (r: Result<Admission, AdmitError>)
        ensures
            r is Ok <==> req.event is Some,
            req.event is None ==> r == Err::<Admission, AdmitError>(AdmitError::InvalidRequest),
            r is Ok ==> r->Ok_0.made_from(req, filter_kinds),
    {
        match &req.event {
            None => Err(AdmitError::InvalidRequest),
            Some(ev) => {
                let author = match &req.auth_pubkey {
                    Some(a) => encode_key(a),
                    None => encode_key(&ev.pubkey),
                };
                Ok(Admission {
                    kind: ev.kind,
                    author,
                    content: ev.content.clone(),
                    filter_kinds,
                    passed: 0,
                })
            },
        }
    }

    /// The step that the admission is at.
    pub fn step(&self) -> (r: Step)
        requires
            self.passed <= self.plan().len(),
        ensures
            r == self.step_spec(),
    {
        if self.filter_kinds && self.kind <= MAX_STORED_KIND {
            let k = self.kind as i64;
            if self.passed == 0 {
                Step::Lookup(Check::Kind(k))
            } else if self.passed == 1 {
                Step::Lookup(Check::Author)
            } else if self.passed == 2 {
                Step::Lookup(Check::Content)
            } else {
                Step::Finish(Decision::Permit)
            }
        } else {
            if self.passed == 0 {
                Step::Lookup(Check::Author)
            } else if self.passed == 1 {
                Step::Lookup(Check::Content)
            } else {
                Step::Finish(Decision::Permit)
            }
        }
    }

    /// Takes the store's answer to the pending lookup. A listed answer denies
    /// at once; a lookup that failed ends the admission with an error and no
    /// decision; otherwise the admission moves to its next check, or permits
    /// once none is left.
    pub fn answer(&mut self, ans: Answer) -> (r: Result<Step, AdmitError>)
        requires
            old(self).passed < old(self).plan().len(),
        ensures
            ans == Answer::Unavailable ==> r == Err::<Step, AdmitError>(AdmitError::StoreUnavailable)
                && *final(self) == *old(self),
            ans == Answer::Listed ==> r == Ok::<Step, AdmitError>(Step::Finish(Decision::Deny))
                && *final(self) == *old(self),
            ans == Answer::NotListed ==> {
                &&& final(self).passed == old(self).passed + 1
                &&& final(self).kind == old(self).kind
                &&& final(self).author == old(self).author
                &&& final(self).content == old(self).content
                &&& final(self).filter_kinds == old(self).filter_kinds
                &&& r == Ok::<Step, AdmitError>(final(self).step_spec())
            },
    {
        match ans {
            Answer::Unavailable => Err(AdmitError::StoreUnavailable),
            Answer::Listed => Ok(Step::Finish(Decision::Deny)),
            Answer::NotListed => {
                self.passed = self.passed + 1;
                Ok(self.step())
            },
        }
    }
}

} // verus!
