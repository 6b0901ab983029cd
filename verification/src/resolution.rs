use vstd::prelude::*;
use std::str::FromStr;
use snarkvm_console::network::Testnet3;
use snarkvm_synthesizer::Program;
use crate::model::{
    after_found, after_not_found, enqueue, names, next_move, opening, Answer, Fault, Move, Progress,
    ProgramText, Resolution,
};
use crate::resolvers::{Backend, Resolver};
use crate::runs::settle;

verus! {

/// The import names that a program text declares, in the order of their
/// declaration, or the parser's message when the text is not a program.
pub uninterp spec fn declared_imports(source: Seq<char>) -> Result<Seq<Seq<char>>, Seq<char>>;

/// What reading a backend's answer as a program yields: the declared
/// imports of a text that was found. No other answer is read; for those
/// this is an error with an empty message, which no move looks at.
pub open spec fn imports_of(answer: Answer) -> Result<Seq<Seq<char>>, Seq<char>> {
    match answer {
        Answer::Found(source) => declared_imports(source),
        _ => Err(Seq::empty()),
    }
}

/// The character sequences of the given strings, in order.
pub open spec fn texts(strings: Seq<String>) -> Seq<Seq<char>> {
    strings.map_values(|s: String| s@)
}

/// The outcome of reading the imports of a text, as character sequences.
pub open spec fn imports_view(imports: Result<Vec<String>, String>) -> Result<
    Seq<Seq<char>>,
    Seq<char>,
> {
    match imports {
        Ok(found) => Ok(texts(found@)),
        Err(message) => Err(message@),
    }
}

/// `Program::from_str` followed by `Program::imports`: parses `source` as a
/// program of the network and lists the identifiers of the programs it
/// imports, in the order of their declaration. A text that does not parse
/// gives the parser's message. The result depends on the text alone.
#[verifier::external_body]
fn read_imports(source: &str) -> (r: Result<Vec<String>, String>)
    ensures
        imports_view(r) == declared_imports(source@),
{
    match Program::<Testnet3>::from_str(source) {
        Ok(program) => Ok(program.imports().keys().map(|id| id.to_string()).collect()),
        Err(e) => Err(e.to_string()),
    }
}

/// A program as it was found: its name and its source text.
#[derive(Debug)]
pub struct LoadedProgram {
    pub name: String,
    pub source: String,
}

impl View for LoadedProgram {
    type V = ProgramText;

    open spec fn view(&self) -> ProgramText {
        ProgramText { name: self.name@, source: self.source@ }
    }
}

/// The given programs as the model sees them.
pub open spec fn programs(list: Seq<LoadedProgram>) -> Seq<ProgramText> {
    list.map_values(|p: LoadedProgram| p@)
}

/// What a backend answered when it was asked for a program.
#[derive(Debug)]
pub enum Lookup {
    /// The backend has the program; this is its source text.
    Found(String),
    /// The backend does not have the program.
    NotFound,
    /// The backend failed in some other way; this is its message.
    Failed(String),
}

impl View for Lookup {
    type V = Answer;

    open spec fn view(&self) -> Answer {
        match self {
            Lookup::Found(source) => Answer::Found(source@),
            Lookup::NotFound => Answer::NotFound,
            Lookup::Failed(message) => Answer::Failed(message@),
        }
    }
}

/// A program together with everything it imports, directly or not.
#[derive(Debug)]
pub struct ResolvedProgram {
    /// The source text of the program that was asked for.
    pub source: String,
    /// The imported programs, in the order in which they were found.
    pub imports: Vec<LoadedProgram>,
}

impl View for ResolvedProgram {
    type V = Resolution;

    open spec fn view(&self) -> Resolution {
        Resolution { source: self.source@, imports: programs(self.imports@) }
    }
}

/// Why a program could not be resolved.
#[derive(Debug)]
pub enum ResolveError {
    /// No backend of the route has the named program.
    NotFound(String),
    /// A backend failed while it was asked for the named program.
    Backend { program: String, message: String },
    /// The text found under this name is not a program.
    Malformed { program: String, message: String },
}

impl View for ResolveError {
    type V = Fault;

    open spec fn view(&self) -> Fault {
        match self {
            ResolveError::NotFound(program) => Fault::NotFound(program@),
            ResolveError::Backend { program, message } => Fault::Backend {
                program: program@,
                message: message@,
            },
            ResolveError::Malformed { program, message } => Fault::Malformed {
                program: program@,
                message: message@,
            },
        }
    }
}

/// The result of a resolution as the model sees it.
pub open spec fn result_view(r: Result<ResolvedProgram, ResolveError>) -> Result<Resolution, Fault> {
    match r {
        Ok(resolved) => Ok(resolved@),
        Err(e) => Err(e@),
    }
}

/// A resolution under way: which backend is being asked for which program,
/// what has been found, and what is still to be asked for.
#[derive(Debug)]
pub struct Walk {
    root: String,
    backend: Backend,
    fallbacks: Vec<Backend>,
    current: String,
    pending: Vec<String>,
    loaded: Vec<LoadedProgram>,
}

impl View for Walk {
    type V = Progress;

    closed spec fn view(&self) -> Progress {
        Progress {
            root: self.root@,
            backend: self.backend,
            fallbacks: self.fallbacks@,
            current: self.current@,
            pending: texts(self.pending@),
            loaded: programs(self.loaded@),
        }
    }
}

/// One step of a resolution: a question to put to a backend, or the end.
#[derive(Debug)]
pub enum Step {
    /// Ask the walk's backend for the walk's program, then resume the walk
    /// with the answer.
    Ask(Walk),
    /// The resolution is over, with this result.
    Done(Result<ResolvedProgram, ResolveError>),
}

impl View for Step {
    type V = Move;

    open spec fn view(&self) -> Move {
        match self {
            Step::Ask(walk) => Move::Ask(walk@),
            Step::Done(r) => Move::Done(result_view(*r)),
        }
    }
}

/// Whether `list` holds a string that reads as `name`.
fn holds_name(list: &Vec<String>, name: &String) -> (r: bool)
    ensures
        r == texts(list@).contains(name@),
{
    let mut i: usize = 0;
    while i < list.len()
        invariant
            i <= list.len(),
            forall|j: int| 0 <= j < i ==> texts(list@)[j] != name@,
        decreases list.len() - i,
    {
        if list[i] == *name {
            assert(texts(list@)[i as int] == name@);
            return true;
        }
        i += 1;
    }
    false
}

/// Whether a program called `name` is among `list`.
fn has_loaded(list: &Vec<LoadedProgram>, name: &String) -> (r: bool)
    ensures
        r == names(programs(list@)).contains(name@),
{
    let mut i: usize = 0;
    while i < list.len()
        invariant
            i <= list.len(),
            forall|j: int| 0 <= j < i ==> names(programs(list@))[j] != name@,
        decreases list.len() - i,
    {
        if list[i].name == *name {
            assert(names(programs(list@))[i as int] == name@);
            return true;
        }
        i += 1;
    }
    false
}

/// Adds to `pending` each of the names `found` that is neither the name of
/// a loaded program nor pending already.
fn note_imports(pending: &mut Vec<String>, found: &Vec<String>, loaded: &Vec<LoadedProgram>)
    ensures
        texts(final(pending)@) == enqueue(
            texts(old(pending)@),
            texts(found@),
            names(programs(loaded@)),
        ),
{
    let ghost before = texts(pending@);
    let ghost known = names(programs(loaded@));
    let mut i: usize = 0;
    assert(texts(found@).take(0) =~= Seq::<Seq<char>>::empty());
    while i < found.len()
        invariant
            i <= found.len(),
            known == names(programs(loaded@)),
            texts(pending@) == enqueue(before, texts(found@).take(i as int), known),
        decreases found.len() - i,
    {
        let ghost queue = texts(pending@);
        let ghost upto = texts(found@).take(i as int + 1);
        proof {
            assert(upto.drop_last() =~= texts(found@).take(i as int));
            assert(upto.last() == found@[i as int]@);
        }
        let seen = has_loaded(loaded, &found[i]) || holds_name(pending, &found[i]);
        if !seen {
            pending.push(found[i].clone());
            assert(texts(pending@) =~= queue.push(found@[i as int]@));
        }
        i += 1;
    }
    assert(texts(found@).take(found.len() as int) =~= texts(found@));
}

impl Walk {
    /// The backend to ask.
    pub fn backend(&self) -> (r: Backend)
        ensures
            r == self@.backend,
    {
        self.backend
    }

    /// The program to ask the backend for.
    pub fn program(&self) -> (r: &str)
        ensures
            r@ == self@.current,
    {
        self.current.as_str()
    }

    /// The program that the resolution was started for.
    pub fn root(&self) -> (r: &str)
        ensures
            r@ == self@.root,
    {
        self.root.as_str()
    }

    /// The step after the backend did not have the program.
    fn not_found(self) -> (r: Step)
        ensures
            r@ == after_not_found(self@),
    {
        let mut walk = self;
        if walk.fallbacks.len() == 0 {
            Step::Done(Err(ResolveError::NotFound(walk.current)))
        } else {
            let ghost route = walk.fallbacks@;
            let backend = walk.fallbacks.remove(0);
            assert(walk.fallbacks@ =~= route.drop_first());
            let current = walk.root.clone();
            let next = Walk {
                root: walk.root,
                backend,
                fallbacks: walk.fallbacks,
                current,
                pending: Vec::new(),
                loaded: Vec::new(),
            };
            assert(texts(next.pending@) =~= Seq::<Seq<char>>::empty());
            assert(programs(next.loaded@) =~= Seq::<ProgramText>::empty());
            Step::Ask(next)
        }
    }

    /// The step after the backend handed over `source`, whose imports have
    /// been read.
    fn found(self, source: String, imports: Result<Vec<String>, String>) -> (r: Step)
        ensures
            r@ == after_found(self@, source@, imports_view(imports)),
    {
        let mut walk = self;
        let ghost start = walk@;
        match imports {
            Err(message) => Step::Done(Err(ResolveError::Malformed { program: walk.current, message })),
            Ok(found) => {
                walk.loaded.push(LoadedProgram { name: walk.current, source });
                assert(programs(walk.loaded@) =~= start.loaded.push(
                    ProgramText { name: start.current, source: source@ },
                ));
                note_imports(&mut walk.pending, &found, &walk.loaded);
                let ghost loaded = programs(walk.loaded@);
                let ghost queue = texts(walk.pending@);
                match walk.pending.pop() {
                    None => {
                        let first = walk.loaded.remove(0);
                        assert(programs(walk.loaded@) =~= loaded.drop_first());
                        assert(first@ == loaded.first());
                        Step::Done(Ok(ResolvedProgram { source: first.source, imports: walk.loaded }))
                    },
                    Some(next) => {
                        assert(texts(walk.pending@) =~= queue.drop_last());
                        assert(next@ == queue.last());
                        Step::Ask(
                            Walk {
                                root: walk.root,
                                backend: walk.backend,
                                fallbacks: walk.fallbacks,
                                current: next,
                                pending: walk.pending,
                                loaded: walk.loaded,
                            },
                        )
                    },
                }
            },
        }
    }

    /// Continues with a backend's answer, where the imports of a text that
    /// was found have been read already: `imports` holds the names that the
    /// text declares, or why it is not a program. For any other answer
    /// `imports` is not looked at.
    pub fn advance(self, answer: Lookup, imports: Result<Vec<String>, String>) -> (r: Step)
        ensures
            r@ == next_move(self@, answer@, imports_view(imports)),
    {
        match answer {
            Lookup::Found(source) => self.found(source, imports),
            Lookup::NotFound => self.not_found(),
            Lookup::Failed(message) => Step::Done(
                Err(ResolveError::Backend { program: self.current, message }),
            ),
        }
    }

    /// Continues with a backend's answer. A text that was found is read as
    /// a program to learn its imports.
    pub fn resume(self, answer: Lookup) -> (r: Step)
        ensures
            r@ == next_move(self@, answer@, imports_of(answer@)),
    {
        match answer {
            Lookup::Found(source) => {
                let imports = read_imports(source.as_str());
                self.found(source, imports)
            },
            Lookup::NotFound => self.not_found(),
            Lookup::Failed(message) => Step::Done(
                Err(ResolveError::Backend { program: self.current, message }),
            ),
        }
    }
}

/// Starts the resolution of `program` with `resolver`: the first backend of
/// its route is to be asked for the program itself.
pub fn begin<R: Resolver>(resolver: &R, program: &str) -> (r: Step)
    ensures
        r@ == opening(resolver.route(), program@),
{
    let mut route = resolver.backends();
    if route.len() == 0 {
        Step::Done(Err(ResolveError::NotFound(program.to_owned())))
    } else {
        let ghost whole = route@;
        let backend = route.remove(0);
        assert(route@ =~= whole.drop_first());
        let walk = Walk {
            root: program.to_owned(),
            backend,
            fallbacks: route,
            current: program.to_owned(),
            pending: Vec::new(),
            loaded: Vec::new(),
        };
        assert(texts(walk.pending@) =~= Seq::<Seq<char>>::empty());
        assert(programs(walk.loaded@) =~= Seq::<ProgramText>::empty());
        Step::Ask(walk)
    }
}

/// The outcome of a bounded resolution as the model sees it.
pub open spec fn outcome_view(outcome: Option<Result<ResolvedProgram, ResolveError>>) -> Option<
    Result<Resolution, Fault>,
> {
    match outcome {
        Some(r) => Some(result_view(r)),
        None => None,
    }
}

/// Whether `ask` answers as `answers` says: whatever it returns for a
/// backend and a name is what `answers` holds for them.
pub open spec fn faithful<F: Fn(Backend, &str) -> Lookup>(
    ask: F,
    answers: spec_fn(Backend, Seq<char>) -> Answer,
) -> bool {
    forall|backend: Backend, name: &str, answer: Lookup| #[trigger]
        ask.ensures((backend, name), answer) ==> answer@ == answers(backend, name@)
}

/// Resolves `program` with `resolver`, putting each question to `ask`, and
/// at most `limit` questions in all. `None` means that the questions ran
/// out before the resolution ended.
pub fn resolve_with<R: Resolver, F: Fn(Backend, &str) -> Lookup>(
    resolver: &R,
    program: &str,
    ask: F,
    limit: usize,
) -> (r: Option<Result<ResolvedProgram, ResolveError>>)
    requires
        forall|backend: Backend, name: &str| #[trigger] ask.requires((backend, name)),
    ensures
        forall|answers: spec_fn(Backend, Seq<char>) -> Answer| #[trigger]
            faithful(ask, answers) ==> outcome_view(r) == settle(
                opening(resolver.route(), program@),
                answers,
                limit as nat,
            ),
{
    let mut step = begin(resolver, program);
    let mut left = limit;
    loop
        invariant
            forall|backend: Backend, name: &str| #[trigger] ask.requires((backend, name)),
            forall|answers: spec_fn(Backend, Seq<char>) -> Answer| #[trigger]
                faithful(ask, answers) ==> settle(step@, answers, left as nat) == settle(
                    opening(resolver.route(), program@),
                    answers,
                    limit as nat,
                ),
        decreases left,
    {
        match step {
            Step::Done(result) => {
                return Some(result);
            },
            Step::Ask(walk) => {
                if left == 0 {
                    return None;
                }
                let ghost before = walk@;
                let answer = ask(walk.backend(), walk.program());
                let ghost heard = answer@;
                step = walk.resume(answer);
                left = left - 1;
                assert forall|answers: spec_fn(Backend, Seq<char>) -> Answer| #[trigger]
                    faithful(ask, answers) implies settle(step@, answers, left as nat) == settle(
                    opening(resolver.route(), program@),
                    answers,
                    limit as nat,
                ) by {
                    assert(heard == answers(before.backend, before.current));
                    assert(settle(Move::Ask(before), answers, (left + 1) as nat) == settle(
                        step@,
                        answers,
                        left as nat,
                    ));
                }
            },
        }
    }
}

} // verus!
