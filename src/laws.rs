//! What holds of every admission, stated over the specifications that the
//! pipeline's functions carry.
use vstd::prelude::*;
use crate::event::{AdmissionRequest, Decision};
use crate::hexkey::hex_of;
use crate::pipeline::{
    Admission, Check, Step, content_listed, evaluate, kind_listed, listed, plan_of,
};

verus! {

/// An admission at a pending check is asking for exactly the next check of its
/// plan, and the deny-fast evaluation from there is settled by the true answer
/// to it: a listed answer denies with that lookup as the last one made, a
/// not-listed answer leaves the evaluation of the remaining checks. Once
/// every check has passed, the admission permits and no lookup is left.
/// Together with `Admission::answer` this says that answering every lookup
/// truly ends the admission in `evaluate`'s decision, after `evaluate`'s
/// lookups.
pub proof fn lemma_steps_follow_evaluation(
    a: Admission,
    kinds: Set<i64>,
    authors: Set<Seq<char>>,
    patterns: Set<Seq<char>>,
)
    requires
        a.passed <= a.plan().len(),
    ensures
        a.passed < a.plan().len() ==> {
            let c = a.plan()[a.passed as int];
            let here = evaluate(a.plan().skip(a.passed as int), a.author@, a.content@, kinds, authors, patterns);
            let next = evaluate(a.plan().skip(a.passed + 1), a.author@, a.content@, kinds, authors, patterns);
            &&& a.step_spec() == Step::Lookup(c)
            &&& listed(c, a.author@, a.content@, kinds, authors, patterns) ==> here == (Decision::Deny, seq![c])
            &&& !listed(c, a.author@, a.content@, kinds, authors, patterns) ==> here == (next.0, seq![c] + next.1)
        },
        a.passed == a.plan().len() ==> {
            &&& a.step_spec() == Step::Finish(Decision::Permit)
            &&& evaluate(a.plan().skip(a.passed as int), a.author@, a.content@, kinds, authors, patterns)
                == (Decision::Permit, Seq::<Check>::empty())
        },
{
    if a.passed < a.plan().len() {
        let s = a.plan().skip(a.passed as int);
        assert(s.drop_first() =~= a.plan().skip(a.passed + 1));
        assert(s[0] == a.plan()[a.passed as int]);
    } else {
        assert(a.plan().skip(a.passed as int) =~= Seq::<Check>::empty());
    }
}

/// An event whose kind, author and content are on none of the blacklists is
/// permitted.
pub proof fn lemma_unlisted_event_permitted(
    filter_kinds: bool,
    kind: u64,
    author: Seq<char>,
    content: Seq<char>,
    kinds: Set<i64>,
    authors: Set<Seq<char>>,
    patterns: Set<Seq<char>>,
)
    requires
        !kind_listed(kind, kinds),
        !authors.contains(author),
        !content_listed(content, patterns),
    ensures
        evaluate(plan_of(filter_kinds, kind), author, content, kinds, authors, patterns).0
            == Decision::Permit,
{
    let p = plan_of(filter_kinds, kind);
    if filter_kinds && kind <= crate::pipeline::MAX_STORED_KIND {
        assert(p.drop_first() =~= seq![Check::Author, Check::Content]);
        assert(p.drop_first().drop_first() =~= seq![Check::Content]);
        assert(p.drop_first().drop_first().drop_first() =~= Seq::<Check>::empty());
    } else {
        assert(p.drop_first() =~= seq![Check::Content]);
        assert(p.drop_first().drop_first() =~= Seq::<Check>::empty());
    }
    reveal_with_fuel(evaluate, 4);
}

/// An event whose author is blacklisted is denied, whatever its kind and
/// content, and its content is never looked up.
pub proof fn lemma_listed_author_denied(
    filter_kinds: bool,
    kind: u64,
    author: Seq<char>,
    content: Seq<char>,
    kinds: Set<i64>,
    authors: Set<Seq<char>>,
    patterns: Set<Seq<char>>,
)
    requires
        authors.contains(author),
    ensures
        ({
            let r = evaluate(plan_of(filter_kinds, kind), author, content, kinds, authors, patterns);
            r.0 == Decision::Deny && !r.1.contains(Check::Content)
        }),
{
    let p = plan_of(filter_kinds, kind);
    let r = evaluate(p, author, content, kinds, authors, patterns);
    if filter_kinds && kind <= crate::pipeline::MAX_STORED_KIND {
        assert(p.drop_first() =~= seq![Check::Author, Check::Content]);
        reveal_with_fuel(evaluate, 2);
        if listed(p[0], author, content, kinds, authors, patterns) {
            assert(r.1 =~= seq![p[0]]);
        } else {
            assert(r.1 =~= seq![p[0], Check::Author]);
        }
        assert(!r.1.contains(Check::Content)) by {
            assert(r.1[0] != Check::Content);
        }
    } else {
        assert(r.1 =~= seq![Check::Author]);
        assert(r.1[0] != Check::Content);
    }
}

/// With kind filtering on, a blacklisted kind denies the event, and the kind
/// lookup is the only one made, whatever the author.
pub proof fn lemma_kind_checked_first(
    kind: u64,
    author: Seq<char>,
    content: Seq<char>,
    kinds: Set<i64>,
    authors: Set<Seq<char>>,
    patterns: Set<Seq<char>>,
)
    requires
        kind_listed(kind, kinds),
    ensures
        evaluate(plan_of(true, kind), author, content, kinds, authors, patterns)
            == (Decision::Deny, seq![Check::Kind(kind as i64)]),
{
    reveal_with_fuel(evaluate, 1);
}

/// When the request carries an authenticated author key, that key is the one
/// checked: if it is blacklisted, the event is denied whatever key the event
/// itself declares. Without one, the event's own key is checked.
pub proof fn lemma_effective_author(
    req: AdmissionRequest,
    filter_kinds: bool,
    a: Admission,
    kinds: Set<i64>,
    authors: Set<Seq<char>>,
    patterns: Set<Seq<char>>,
)
    requires
        a.made_from(&req, filter_kinds),
    ensures
        req.auth_pubkey matches Some(k) && authors.contains(hex_of(k@)) ==> evaluate(
            a.plan(),
            a.author@,
            a.content@,
            kinds,
            authors,
            patterns,
        ).0 == Decision::Deny,
        req.auth_pubkey is None ==> a.author@ == hex_of(req.event->Some_0.pubkey@),
{
    if req.auth_pubkey matches Some(k) && authors.contains(hex_of(k@)) {
        lemma_listed_author_denied(filter_kinds, a.kind, a.author@, a.content@, kinds, authors, patterns);
    }
}

} // verus!
