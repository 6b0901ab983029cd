use vstd::prelude::*;
use crate::model::{enqueue, names, next_move, opening, Answer, Fault, Move, Progress, ProgramText, Resolution};
use crate::resolution::{declared_imports, imports_of};
use crate::resolvers::Backend;
use crate::runs::settle;

verus! {

/// The program that was asked for together with its imports: everything
/// that a resolution of `root` hands over.
pub open spec fn all_programs(root: Seq<char>, resolution: Resolution) -> Seq<ProgramText> {
    seq![ProgramText { name: root, source: resolution.source }] + resolution.imports
}

/// Whether a set of programs is complete in itself: no name occurs twice,
/// every text is a program, and every program that one of them imports is
/// among them.
pub open spec fn self_contained(all: Seq<ProgramText>) -> bool {
    &&& names(all).no_duplicates()
    &&& forall|i: int| 0 <= i < all.len() ==> (#[trigger] declared_imports(all[i].source)) is Ok
    &&& forall|i: int, j: int|
        0 <= i < all.len() && 0 <= j < declared_imports(all[i].source)->Ok_0.len() ==> names(
            all,
        ).contains(#[trigger] declared_imports(all[i].source)->Ok_0[j])
}

/// Whether a name has been dealt with or is waiting its turn.
pub open spec fn noted(p: Progress, name: Seq<char>) -> bool {
    names(p.loaded).contains(name) || p.pending.contains(name) || p.current == name
}

/// What holds of a resolution at every question: the requested program
/// comes first, no name is loaded or queued twice, every loaded text is a
/// program, and none of their imports has been overlooked.
pub open spec fn orderly(p: Progress) -> bool {
    &&& p.loaded.len() == 0 ==> p.current == p.root
    &&& p.loaded.len() > 0 ==> p.loaded.first().name == p.root
    &&& names(p.loaded).no_duplicates()
    &&& p.pending.no_duplicates()
    &&& forall|i: int| 0 <= i < p.pending.len() ==> !names(p.loaded).contains(#[trigger] p.pending[i])
    &&& !names(p.loaded).contains(p.current)
    &&& !p.pending.contains(p.current)
    &&& forall|i: int|
        0 <= i < p.loaded.len() ==> (#[trigger] declared_imports(p.loaded[i].source)) is Ok
    &&& forall|i: int, j: int|
        0 <= i < p.loaded.len() && 0 <= j < declared_imports(p.loaded[i].source)->Ok_0.len()
            ==> noted(p, #[trigger] declared_imports(p.loaded[i].source)->Ok_0[j])
}

/// What noting imports does to the queue: what was queued stays queued,
/// every import ends up known or queued, and nothing is queued twice or
/// although it is known.
pub proof fn lemma_enqueue(pending: Seq<Seq<char>>, found: Seq<Seq<char>>, known: Seq<Seq<char>>)
    requires
        pending.no_duplicates(),
        forall|i: int| 0 <= i < pending.len() ==> !known.contains(#[trigger] pending[i]),
    ensures
        enqueue(pending, found, known).no_duplicates(),
        forall|i: int|
            0 <= i < enqueue(pending, found, known).len() ==> !known.contains(
                #[trigger] enqueue(pending, found, known)[i],
            ),
        forall|i: int|
            0 <= i < pending.len() ==> enqueue(pending, found, known).contains(#[trigger] pending[i]),
        forall|j: int|
            0 <= j < found.len() ==> known.contains(#[trigger] found[j]) || enqueue(
                pending,
                found,
                known,
            ).contains(found[j]),
    decreases found.len(),
{
    let after = enqueue(pending, found, known);
    if found.len() == 0 {
        assert forall|i: int| 0 <= i < pending.len() implies after.contains(
            #[trigger] pending[i],
        ) by {
            assert(after[i] == pending[i]);
        }
    } else {
        let rest = found.drop_last();
        let before = enqueue(pending, rest, known);
        let last = found.last();
        lemma_enqueue(pending, rest, known);
        if known.contains(last) || before.contains(last) {
            assert(after == before);
            assert forall|j: int| 0 <= j < found.len() implies known.contains(#[trigger] found[j])
                || after.contains(found[j]) by {
                if j < rest.len() {
                    assert(found[j] == rest[j]);
                }
            }
        } else {
            assert(after == before.push(last));
            assert forall|i: int, j: int| 0 <= i < after.len() && 0 <= j < after.len() && i != j implies after[i]
                != after[j] by {
                if i == before.len() {
                    assert(before[j] == after[j]);
                    assert(before.contains(after[j]));
                } else if j == before.len() {
                    assert(before[i] == after[i]);
                    assert(before.contains(after[i]));
                } else {
                    assert(before[i] == after[i] && before[j] == after[j]);
                }
            }
            assert forall|i: int| 0 <= i < after.len() implies !known.contains(#[trigger] after[i]) by {
                if i < before.len() {
                    assert(after[i] == before[i]);
                }
            }
            assert forall|i: int| 0 <= i < pending.len() implies after.contains(
                #[trigger] pending[i],
            ) by {
                assert(before.contains(pending[i]));
                let k = choose|k: int| 0 <= k < before.len() && before[k] == pending[i];
                assert(after[k] == pending[i]);
            }
            assert forall|j: int| 0 <= j < found.len() implies known.contains(#[trigger] found[j])
                || after.contains(found[j]) by {
                if j < rest.len() {
                    assert(found[j] == rest[j]);
                    if before.contains(rest[j]) {
                        let k = choose|k: int| 0 <= k < before.len() && before[k] == rest[j];
                        assert(after[k] == rest[j]);
                    }
                } else {
                    assert(after[before.len() as int] == last);
                }
            }
        }
    }
}

/// Whether `name` is among `list` after `added` was put at its end.
proof fn lemma_push_contains(list: Seq<Seq<char>>, added: Seq<char>, name: Seq<char>)
    ensures
        list.push(added).contains(name) <==> list.contains(name) || added == name,
{
    let longer = list.push(added);
    if list.contains(name) {
        let k = choose|k: int| 0 <= k < list.len() && list[k] == name;
        assert(longer[k] == name);
    }
    if added == name {
        assert(longer[list.len() as int] == name);
    }
    if longer.contains(name) {
        let k = choose|k: int| 0 <= k < longer.len() && longer[k] == name;
        if k < list.len() {
            assert(list[k] == name);
        }
    }
}

/// The first question of a resolution is put in good order.
pub proof fn lemma_opening_is_orderly(route: Seq<Backend>, program: Seq<char>)
    ensures
        opening(route, program) matches Move::Ask(p) ==> orderly(p) && p.root == program,
{
}

/// One answer leaves a resolution in good order: the next question is
/// orderly again, and a resolution that ends well hands over a set of
/// programs that is complete in itself.
pub proof fn lemma_answer_keeps_order(p: Progress, answer: Answer)
    requires
        orderly(p),
    ensures
        match next_move(p, answer, imports_of(answer)) {
            Move::Ask(q) => orderly(q) && q.root == p.root,
            Move::Done(Ok(resolution)) => self_contained(all_programs(p.root, resolution)),
            Move::Done(Err(_)) => true,
        },
{
    match answer {
        Answer::Found(source) => {
            match declared_imports(source) {
                Err(_) => {},
                Ok(found) => {
                    let added = ProgramText { name: p.current, source };
                    let loaded = p.loaded.push(added);
                    let known = names(loaded);
                    assert(known =~= names(p.loaded).push(p.current));
                    assert forall|i: int| 0 <= i < p.pending.len() implies !known.contains(
                        #[trigger] p.pending[i],
                    ) by {
                        lemma_push_contains(names(p.loaded), p.current, p.pending[i]);
                        assert(p.pending.contains(p.pending[i]));
                    }
                    lemma_enqueue(p.pending, found, known);
                    let pending = enqueue(p.pending, found, known);
                    assert(known.no_duplicates()) by {
                        assert forall|i: int, j: int|
                            0 <= i < known.len() && 0 <= j < known.len() && i != j implies known[i]
                            != known[j] by {
                            if i == p.loaded.len() {
                                assert(names(p.loaded)[j] == known[j]);
                                assert(names(p.loaded).contains(known[j]));
                            } else if j == p.loaded.len() {
                                assert(names(p.loaded)[i] == known[i]);
                                assert(names(p.loaded).contains(known[i]));
                            } else {
                                assert(names(p.loaded)[i] == known[i]);
                                assert(names(p.loaded)[j] == known[j]);
                            }
                        }
                    }
                    assert(loaded.first().name == p.root);
                    assert forall|i: int| 0 <= i < loaded.len() implies (#[trigger] declared_imports(
                        loaded[i].source,
                    )) is Ok by {
                        if i < p.loaded.len() {
                            assert(loaded[i] == p.loaded[i]);
                        }
                    }
                    // Every import of a loaded program is loaded by now or queued.
                    assert forall|i: int, j: int|
                        0 <= i < loaded.len() && 0 <= j < declared_imports(
                            loaded[i].source,
                        )->Ok_0.len() implies known.contains(
                        #[trigger] declared_imports(loaded[i].source)->Ok_0[j],
                    ) || pending.contains(declared_imports(loaded[i].source)->Ok_0[j]) by {
                        let name = declared_imports(loaded[i].source)->Ok_0[j];
                        lemma_push_contains(names(p.loaded), p.current, name);
                        if i < p.loaded.len() {
                            assert(loaded[i] == p.loaded[i]);
                            assert(noted(p, name));
                            if p.pending.contains(name) {
                                let k = choose|k: int| 0 <= k < p.pending.len() && p.pending[k] == name;
                                assert(pending.contains(p.pending[k]));
                            }
                        } else {
                            assert(loaded[i].source == source);
                            assert(name == found[j]);
                        }
                    }
                    if pending.len() == 0 {
                        let resolution = Resolution {
                            source: loaded.first().source,
                            imports: loaded.drop_first(),
                        };
                        let all = all_programs(p.root, resolution);
                        assert(all =~= loaded);
                        assert forall|i: int, j: int|
                            0 <= i < all.len() && 0 <= j < declared_imports(
                                all[i].source,
                            )->Ok_0.len() implies names(all).contains(
                            #[trigger] declared_imports(all[i].source)->Ok_0[j],
                        ) by {
                            let name = declared_imports(loaded[i].source)->Ok_0[j];
                            assert(known.contains(name) || pending.contains(name));
                        }
                    } else {
                        let q = Progress {
                            root: p.root,
                            backend: p.backend,
                            fallbacks: p.fallbacks,
                            current: pending.last(),
                            pending: pending.drop_last(),
                            loaded,
                        };
                        assert(next_move(p, answer, imports_of(answer)) == Move::Ask(q));
                        let n = pending.len() - 1;
                        assert(q.pending.no_duplicates()) by {
                            assert forall|i: int, j: int|
                                0 <= i < q.pending.len() && 0 <= j < q.pending.len() && i
                                    != j implies q.pending[i] != q.pending[j] by {
                                assert(q.pending[i] == pending[i] && q.pending[j] == pending[j]);
                            }
                        }
                        assert forall|i: int| 0 <= i < q.pending.len() implies !known.contains(
                            #[trigger] q.pending[i],
                        ) by {
                            assert(q.pending[i] == pending[i]);
                        }
                        assert(!known.contains(q.current)) by {
                            assert(q.current == pending[n]);
                        }
                        assert(!q.pending.contains(q.current)) by {
                            if q.pending.contains(q.current) {
                                let k = choose|k: int| 0 <= k < q.pending.len() && q.pending[k] == q.current;
                                assert(pending[k] == pending[n]);
                            }
                        }
                        assert forall|i: int, j: int|
                            0 <= i < q.loaded.len() && 0 <= j < declared_imports(
                                q.loaded[i].source,
                            )->Ok_0.len() implies noted(
                            q,
                            #[trigger] declared_imports(q.loaded[i].source)->Ok_0[j],
                        ) by {
                            let name = declared_imports(loaded[i].source)->Ok_0[j];
                            assert(known.contains(name) || pending.contains(name));
                            if pending.contains(name) {
                                let k = choose|k: int| 0 <= k < pending.len() && pending[k] == name;
                                if k < n {
                                    assert(q.pending[k] == name);
                                }
                            }
                        }
                        assert(orderly(q));
                    }
                },
            }
        },
        Answer::NotFound => {
            if p.fallbacks.len() > 0 {
                let q = next_move(p, answer, imports_of(answer))->Ask_0;
                assert(names(q.loaded) =~= Seq::<Seq<char>>::empty());
            }
        },
        Answer::Failed(_) => {},
    }
}

/// A resolution in good order that succeeds hands over a set of programs
/// that is complete in itself.
proof fn lemma_orderly_run(
    p: Progress,
    answers: spec_fn(Backend, Seq<char>) -> Answer,
    fuel: nat,
)
    requires
        orderly(p),
    ensures
        settle(Move::Ask(p), answers, fuel) matches Some(Ok(resolution)) ==> self_contained(
            all_programs(p.root, resolution),
        ),
    decreases fuel,
{
    if fuel > 0 {
        let answer = answers(p.backend, p.current);
        let next = next_move(p, answer, imports_of(answer));
        lemma_answer_keeps_order(p, answer);
        match next {
            Move::Ask(q) => {
                lemma_orderly_run(q, answers, (fuel - 1) as nat);
            },
            Move::Done(r) => {
                assert(settle(next, answers, (fuel - 1) as nat) == Some(r));
            },
        }
    }
}

/// Whatever the backends hold, a resolution that succeeds hands over the
/// program asked for and a set of imports that is complete: each imported
/// program is there once, each text is a program, and each program that any
/// of them imports is there as well.
pub proof fn lemma_resolution_is_self_contained(
    route: Seq<Backend>,
    program: Seq<char>,
    answers: spec_fn(Backend, Seq<char>) -> Answer,
    fuel: nat,
)
    ensures
        settle(opening(route, program), answers, fuel) matches Some(Ok(resolution))
            ==> self_contained(all_programs(program, resolution)),
{
    lemma_opening_is_orderly(route, program);
    match opening(route, program) {
        Move::Ask(p) => {
            lemma_orderly_run(p, answers, fuel);
        },
        Move::Done(r) => {
            assert(r is Err);
        },
    }
}

} // verus!
