use vstd::prelude::*;
use crate::resolvers::Backend;

verus! {

/// A program as it was found: its name and its source text.
pub struct ProgramText {
    pub name: Seq<char>,
    pub source: Seq<char>,
}

/// What a backend answers when asked for a program.
pub enum Answer {
    /// The backend has the program; this is its source text.
    Found(Seq<char>),
    /// The backend does not have the program.
    NotFound,
    /// The backend failed in some other way; this is its message.
    Failed(Seq<char>),
}

/// A program together with everything it imports, directly or not.
pub struct Resolution {
    /// The source text of the program that was asked for.
    pub source: Seq<char>,
    /// The imported programs, in the order in which they were found.
    pub imports: Seq<ProgramText>,
}

/// Why a program could not be resolved.
pub enum Fault {
    /// No backend of the route has the named program.
    NotFound(Seq<char>),
    /// A backend failed while it was asked for the named program.
    Backend { program: Seq<char>, message: Seq<char> },
    /// The text found under this name is not a program; the message says
    /// why.
    Malformed { program: Seq<char>, message: Seq<char> },
}

/// A resolution under way. One backend is being asked for `current`; the
/// programs in `loaded` came from that same backend, the requested one
/// first; the names in `pending` are imports still to be asked for.
pub struct Progress {
    /// The program that was asked for.
    pub root: Seq<char>,
    /// The backend that is being consulted.
    pub backend: Backend,
    /// The backends to fall back to, nearest first.
    pub fallbacks: Seq<Backend>,
    /// The program that the backend is being asked for now.
    pub current: Seq<char>,
    /// Imports seen but not yet asked for; the last one is next.
    pub pending: Seq<Seq<char>>,
    /// The programs found so far.
    pub loaded: Seq<ProgramText>,
}

/// One move of a resolution: a question for a backend, or the end.
pub enum Move {
    /// Ask `backend` of the progress for its `current` program.
    Ask(Progress),
    /// The resolution is over, with this result.
    Done(Result<Resolution, Fault>),
}

/// The names of the given programs, in order.
pub open spec fn names(programs: Seq<ProgramText>) -> Seq<Seq<char>> {
    programs.map_values(|p: ProgramText| p.name)
}

/// The queue of pending names after the imports `found` have been noted:
/// each name that is neither known already nor queued is added at the end,
/// in the order of `found`.
pub open spec fn enqueue(pending: Seq<Seq<char>>, found: Seq<Seq<char>>, known: Seq<Seq<char>>) -> Seq<
    Seq<char>,
>
    decreases found.len(),
{
    if found.len() == 0 {
        pending
    } else {
        let before = enqueue(pending, found.drop_last(), known);
        if known.contains(found.last()) || before.contains(found.last()) {
            before
        } else {
            before.push(found.last())
        }
    }
}

/// The first move of a resolution of `program` along `route`.
pub open spec fn opening(route: Seq<Backend>, program: Seq<char>) -> Move {
    if route.len() == 0 {
        Move::Done(Err(Fault::NotFound(program)))
    } else {
        Move::Ask(
            Progress {
                root: program,
                backend: route.first(),
                fallbacks: route.drop_first(),
                current: program,
                pending: Seq::empty(),
                loaded: Seq::empty(),
            },
        )
    }
}

/// The move after the backend did not have the current program: start
/// over with the next backend of the route, or give up when none is left.
pub open spec fn after_not_found(p: Progress) -> Move {
    if p.fallbacks.len() == 0 {
        Move::Done(Err(Fault::NotFound(p.current)))
    } else {
        Move::Ask(
            Progress {
                root: p.root,
                backend: p.fallbacks.first(),
                fallbacks: p.fallbacks.drop_first(),
                current: p.root,
                pending: Seq::empty(),
                loaded: Seq::empty(),
            },
        )
    }
}

/// The move after the backend handed over `source` for the current
/// program, where `imports` are the names that the text declares, or the
/// reason why the text is not a program. The same backend is asked for
/// each import that has not been seen; when nothing is pending the
/// resolution ends with what was loaded.
pub open spec fn after_found(
    p: Progress,
    source: Seq<char>,
    imports: Result<Seq<Seq<char>>, Seq<char>>,
) -> Move {
    match imports {
        Err(message) => Move::Done(Err(Fault::Malformed { program: p.current, message })),
        Ok(found) => {
            let loaded = p.loaded.push(ProgramText { name: p.current, source });
            let pending = enqueue(p.pending, found, names(loaded));
            if pending.len() == 0 {
                Move::Done(Ok(Resolution { source: loaded.first().source, imports: loaded.drop_first() }))
            } else {
                Move::Ask(
                    Progress {
                        root: p.root,
                        backend: p.backend,
                        fallbacks: p.fallbacks,
                        current: pending.last(),
                        pending: pending.drop_last(),
                        loaded,
                    },
                )
            }
        },
    }
}

/// The move that follows an answer. Only `NotFound` leads to another
/// backend; a failure of any other kind ends the resolution at once.
pub open spec fn next_move(
    p: Progress,
    answer: Answer,
    imports: Result<Seq<Seq<char>>, Seq<char>>,
) -> Move {
    match answer {
        Answer::Found(source) => after_found(p, source, imports),
        Answer::NotFound => after_not_found(p),
        Answer::Failed(message) => Move::Done(
            Err(Fault::Backend { program: p.current, message }),
        ),
    }
}

} // verus!
