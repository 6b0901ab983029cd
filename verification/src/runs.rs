use vstd::prelude::*;
use crate::model::{after_found, after_not_found, next_move, opening, Answer, Fault, Move, Progress, Resolution};
use crate::resolution::imports_of;
use crate::resolvers::Backend;

verus! {

/// Where a resolution ends when every question is answered by `answers`,
/// which says what each backend holds under each name. At most `fuel`
/// questions are put; `None` means the resolution was still under way when
/// they ran out.
pub open spec fn settle(
    m: Move,
    answers: spec_fn(Backend, Seq<char>) -> Answer,
    fuel: nat,
) -> Option<Result<Resolution, Fault>>
    decreases fuel,
{
    match m {
        Move::Done(r) => Some(r),
        Move::Ask(p) => if fuel == 0 {
            None
        } else {
            let answer = answers(p.backend, p.current);
            settle(next_move(p, answer, imports_of(answer)), answers, (fuel - 1) as nat)
        },
    }
}

/// The same progress with other backends to fall back to.
pub open spec fn with_fallbacks(p: Progress, fallbacks: Seq<Backend>) -> Progress {
    Progress {
        root: p.root,
        backend: p.backend,
        fallbacks,
        current: p.current,
        pending: p.pending,
        loaded: p.loaded,
    }
}

/// A program that was found keeps the resolution with the backend that had
/// it: the imports are asked of the same backend, and the fallbacks are
/// left as they were.
pub proof fn lemma_found_keeps_backend(
    p: Progress,
    source: Seq<char>,
    imports: Result<Seq<Seq<char>>, Seq<char>>,
)
    ensures
        after_found(p, source, imports) matches Move::Ask(q) ==> {
            &&& q.backend == p.backend
            &&& q.fallbacks == p.fallbacks
            &&& q.root == p.root
        },
{
}

/// Only the answer that a program is not there moves a resolution on to
/// another backend. A text that is not a program and a backend that failed
/// end the resolution with their own error, whatever fallbacks are left.
pub proof fn lemma_only_not_found_falls_back(
    p: Progress,
    answer: Answer,
    imports: Result<Seq<Seq<char>>, Seq<char>>,
)
    ensures
        next_move(p, answer, imports) matches Move::Ask(q) && q.fallbacks != p.fallbacks
            ==> answer is NotFound,
        answer matches Answer::Failed(message) ==> next_move(p, answer, imports) == Move::Done(
            Err(Fault::Backend { program: p.current, message }),
        ),
        answer is Found ==> (imports matches Err(message) ==> next_move(p, answer, imports)
            == Move::Done(Err(Fault::Malformed { program: p.current, message }))),
        answer is NotFound && p.fallbacks.len() > 0 ==> (next_move(p, answer, imports) matches Move::Ask(
            q,
        ) && q.backend == p.fallbacks.first() && q.current == p.root),
        answer is NotFound && p.fallbacks.len() == 0 ==> next_move(p, answer, imports)
            == Move::Done(Err(Fault::NotFound(p.current))),
{
}

/// A resolution that succeeds with no fallbacks succeeds in the same way
/// with any: the fallbacks are never consulted.
proof fn lemma_fallbacks_unused(
    p: Progress,
    fallbacks: Seq<Backend>,
    first: spec_fn(Backend, Seq<char>) -> Answer,
    second: spec_fn(Backend, Seq<char>) -> Answer,
    fuel: nat,
)
    requires
        p.fallbacks.len() == 0,
        forall|name: Seq<char>| #[trigger] first(p.backend, name) == second(p.backend, name),
        settle(Move::Ask(p), first, fuel) matches Some(Ok(_)),
    ensures
        settle(Move::Ask(with_fallbacks(p, fallbacks)), second, fuel) == settle(
            Move::Ask(p),
            first,
            fuel,
        ),
    decreases fuel,
{
    if fuel > 0 {
        let answer = first(p.backend, p.current);
        assert(second(p.backend, p.current) == answer);
        let imports = imports_of(answer);
        let here = next_move(p, answer, imports);
        let there = next_move(with_fallbacks(p, fallbacks), answer, imports);
        match answer {
            Answer::Found(source) => {
                match here {
                    Move::Ask(q) => {
                        assert(there == Move::Ask(with_fallbacks(q, fallbacks)));
                        lemma_fallbacks_unused(q, fallbacks, first, second, (fuel - 1) as nat);
                    },
                    Move::Done(r) => {
                        assert(there == here);
                    },
                }
            },
            Answer::NotFound => {
                assert(settle(here, first, (fuel - 1) as nat) matches Some(Err(_)));
            },
            Answer::Failed(_) => {
                assert(settle(here, first, (fuel - 1) as nat) matches Some(Err(_)));
            },
        }
    }
}

/// When the local directory alone resolves a program, the hybrid of that
/// directory and a network gives the same result whatever the network
/// holds: the network is not consulted.
pub proof fn lemma_hybrid_prefers_local(
    program: Seq<char>,
    local_only: spec_fn(Backend, Seq<char>) -> Answer,
    with_network: spec_fn(Backend, Seq<char>) -> Answer,
    fuel: nat,
)
    requires
        forall|name: Seq<char>| #[trigger]
                local_only(Backend::Local, name) == with_network(Backend::Local, name),
        settle(opening(seq![Backend::Local], program), local_only, fuel) matches Some(Ok(_)),
    ensures
        settle(opening(seq![Backend::Local, Backend::Network], program), with_network, fuel)
            == settle(opening(seq![Backend::Local], program), local_only, fuel),
{
    let single = seq![Backend::Local];
    let both = seq![Backend::Local, Backend::Network];
    assert(single.drop_first() =~= Seq::<Backend>::empty());
    let p = opening(single, program)->Ask_0;
    assert(opening(both, program) == Move::Ask(with_fallbacks(p, both.drop_first())));
    lemma_fallbacks_unused(p, both.drop_first(), local_only, with_network, fuel);
}

/// When the local directory does not have a program, the hybrid resolver
/// does what the network resolver does, one question later.
pub proof fn lemma_hybrid_falls_back(
    program: Seq<char>,
    answers: spec_fn(Backend, Seq<char>) -> Answer,
    fuel: nat,
)
    requires
        answers(Backend::Local, program) is NotFound,
    ensures
        settle(opening(seq![Backend::Local, Backend::Network], program), answers, fuel + 1)
            == settle(opening(seq![Backend::Network], program), answers, fuel),
{
    let both = seq![Backend::Local, Backend::Network];
    let single = seq![Backend::Network];
    assert(both.drop_first() =~= single);
    assert(single.drop_first() =~= Seq::<Backend>::empty());
    let p = opening(both, program)->Ask_0;
    assert(after_not_found(p) == opening(single, program));
}

/// A failure of the local directory other than not having the program ends
/// a hybrid resolution with that failure: the network is not tried.
pub proof fn lemma_hybrid_surfaces_local_failure(
    program: Seq<char>,
    answers: spec_fn(Backend, Seq<char>) -> Answer,
    fuel: nat,
)
    requires
        fuel > 0,
        answers(Backend::Local, program) is Failed,
    ensures
        settle(opening(seq![Backend::Local, Backend::Network], program), answers, fuel) == Some(
            Err::<Resolution, Fault>(
                Fault::Backend {
                    program,
                    message: answers(Backend::Local, program)->Failed_0,
                },
            ),
        ),
{
    let both = seq![Backend::Local, Backend::Network];
    let p = opening(both, program)->Ask_0;
    let answer = answers(Backend::Local, program);
    assert(settle(next_move(p, answer, imports_of(answer)), answers, (fuel - 1) as nat) == Some(
        Err::<Resolution, Fault>(Fault::Backend { program, message: answer->Failed_0 }),
    ));
}

/// The source text that a finished, successful resolution carries. Any
/// other outcome carries none, which reads as the empty text here.
pub open spec fn resolved_source(outcome: Option<Result<Resolution, Fault>>) -> Seq<char> {
    match outcome {
        Some(Ok(resolution)) => resolution.source,
        _ => Seq::empty(),
    }
}

/// Whether a progress of the resolution of `program` along `route` still
/// stands on what the backends hold: it asks a backend of the route, and
/// the first program it has loaded is the text that this backend holds
/// under the name asked for.
spec fn grounded(
    p: Progress,
    program: Seq<char>,
    route: Seq<Backend>,
    answers: spec_fn(Backend, Seq<char>) -> Answer,
) -> bool {
    &&& p.root == program
    &&& route.contains(p.backend)
    &&& forall|i: int| 0 <= i < p.fallbacks.len() ==> route.contains(#[trigger] p.fallbacks[i])
    &&& p.loaded.len() == 0 ==> p.current == program
    &&& p.loaded.len() > 0 ==> answers(p.backend, program) == Answer::Found(p.loaded.first().source)
}

/// A grounded resolution that succeeds returns a text that a backend of
/// the route holds under the name asked for.
proof fn lemma_grounded_result(
    p: Progress,
    program: Seq<char>,
    route: Seq<Backend>,
    answers: spec_fn(Backend, Seq<char>) -> Answer,
    fuel: nat,
)
    requires
        grounded(p, program, route, answers),
        settle(Move::Ask(p), answers, fuel) matches Some(Ok(_)),
    ensures
        exists|b: Backend| #[trigger]
            route.contains(b) && answers(b, program) == Answer::Found(
                resolved_source(settle(Move::Ask(p), answers, fuel)),
            ),
    decreases fuel,
{
    if fuel > 0 {
        let answer = answers(p.backend, p.current);
        let next = next_move(p, answer, imports_of(answer));
        match next {
            Move::Done(r) => {
                assert(settle(next, answers, (fuel - 1) as nat) == Some(r));
                assert(r is Ok);
                assert(answer is Found);
                let source = answer->Found_0;
                let loaded = p.loaded.push(crate::model::ProgramText { name: p.current, source });
                assert(r->Ok_0.source == loaded.first().source);
                assert(route.contains(p.backend) && answers(p.backend, program) == Answer::Found(
                    r->Ok_0.source,
                ));
            },
            Move::Ask(q) => {
                match answer {
                    Answer::Found(source) => {
                        assert(grounded(q, program, route, answers));
                    },
                    Answer::NotFound => {
                        assert(q.backend == p.fallbacks[0]);
                        assert forall|i: int| 0 <= i < q.fallbacks.len() implies route.contains(
                            #[trigger] q.fallbacks[i],
                        ) by {
                            assert(q.fallbacks[i] == p.fallbacks[i + 1]);
                        }
                        assert(grounded(q, program, route, answers));
                    },
                    Answer::Failed(_) => {},
                }
                lemma_grounded_result(q, program, route, answers, (fuel - 1) as nat);
            },
        }
    }
}

/// The source that a resolution returns is, word for word, what one of the
/// backends of the route holds under the name that was asked for.
pub proof fn lemma_source_is_verbatim(
    route: Seq<Backend>,
    program: Seq<char>,
    answers: spec_fn(Backend, Seq<char>) -> Answer,
    fuel: nat,
)
    requires
        settle(opening(route, program), answers, fuel) matches Some(Ok(_)),
    ensures
        exists|b: Backend| #[trigger]
            route.contains(b) && answers(b, program) == Answer::Found(
                resolved_source(settle(opening(route, program), answers, fuel)),
            ),
{
    let p = opening(route, program)->Ask_0;
    assert(route.contains(route[0]));
    assert forall|i: int| 0 <= i < p.fallbacks.len() implies route.contains(
        #[trigger] p.fallbacks[i],
    ) by {
        assert(p.fallbacks[i] == route[i + 1]);
    }
    lemma_grounded_result(p, program, route, answers, fuel);
}

/// A program without imports that the first backend holds is resolved by
/// one question, to exactly the text that the backend holds.
pub proof fn lemma_plain_program_resolves(
    route: Seq<Backend>,
    program: Seq<char>,
    source: Seq<char>,
    answers: spec_fn(Backend, Seq<char>) -> Answer,
    fuel: nat,
)
    requires
        route.len() > 0,
        fuel > 0,
        answers(route.first(), program) == Answer::Found(source),
        imports_of(Answer::Found(source)) == Ok::<Seq<Seq<char>>, Seq<char>>(Seq::empty()),
    ensures
        settle(opening(route, program), answers, fuel) == Some(
            Ok::<Resolution, Fault>(Resolution { source, imports: Seq::empty() }),
        ),
{
    let p = opening(route, program)->Ask_0;
    let answer = answers(p.backend, p.current);
    let loaded = p.loaded.push(crate::model::ProgramText { name: p.current, source });
    assert(crate::model::enqueue(p.pending, Seq::empty(), crate::model::names(loaded)) == p.pending);
    assert(loaded.drop_first() =~= Seq::empty());
    let next = next_move(p, answer, imports_of(answer));
    assert(next == Move::Done(Ok(Resolution { source, imports: Seq::empty() })));
    assert(settle(next, answers, (fuel - 1) as nat) == Some(
        Ok::<Resolution, Fault>(Resolution { source, imports: Seq::empty() }),
    ));
}

/// A resolver that consults one backend resolves to what that backend
/// holds: the same backend contents give the same result, which carries
/// the text held under the name asked for.
pub proof fn lemma_single_backend_returns_its_text(
    backend: Backend,
    program: Seq<char>,
    answers: spec_fn(Backend, Seq<char>) -> Answer,
    fuel: nat,
)
    requires
        settle(opening(seq![backend], program), answers, fuel) matches Some(Ok(_)),
    ensures
        answers(backend, program) == Answer::Found(
            resolved_source(settle(opening(seq![backend], program), answers, fuel)),
        ),
{
    lemma_source_is_verbatim(seq![backend], program, answers, fuel);
    let b = choose|b: Backend| #[trigger]
        seq![backend].contains(b) && answers(b, program) == Answer::Found(
            resolved_source(settle(opening(seq![backend], program), answers, fuel)),
        );
    assert(b == backend);
}

/// Without fallbacks a resolution hears of no backend but its own.
proof fn lemma_depends_on_own_backend(
    p: Progress,
    first: spec_fn(Backend, Seq<char>) -> Answer,
    second: spec_fn(Backend, Seq<char>) -> Answer,
    fuel: nat,
)
    requires
        p.fallbacks.len() == 0,
        forall|name: Seq<char>| #[trigger] first(p.backend, name) == second(p.backend, name),
    ensures
        settle(Move::Ask(p), first, fuel) == settle(Move::Ask(p), second, fuel),
    decreases fuel,
{
    if fuel > 0 {
        let answer = first(p.backend, p.current);
        assert(second(p.backend, p.current) == answer);
        match next_move(p, answer, imports_of(answer)) {
            Move::Ask(q) => {
                lemma_depends_on_own_backend(q, first, second, (fuel - 1) as nat);
            },
            Move::Done(_) => {},
        }
    }
}

/// A resolver that consults one backend gives a result that depends on
/// nothing but what that backend holds: as long as the backend holds the
/// same, every resolution of the same program ends in the same way.
pub proof fn lemma_single_backend_is_deterministic(
    backend: Backend,
    program: Seq<char>,
    first: spec_fn(Backend, Seq<char>) -> Answer,
    second: spec_fn(Backend, Seq<char>) -> Answer,
    fuel: nat,
)
    requires
        forall|name: Seq<char>| #[trigger] first(backend, name) == second(backend, name),
    ensures
        settle(opening(seq![backend], program), first, fuel) == settle(
            opening(seq![backend], program),
            second,
            fuel,
        ),
{
    let route = seq![backend];
    assert(route.drop_first() =~= Seq::<Backend>::empty());
    let p = opening(route, program)->Ask_0;
    lemma_depends_on_own_backend(p, first, second, fuel);
}

} // verus!
