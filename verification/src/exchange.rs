//! What passes between this library and the caller that acts for it.
//!
//! The library does not touch the file system, the environment or any process. Where it
//! needs to know something, it hands out a [`Query`]; the caller finds the answer and hands
//! it back as an [`Answer`]. A function that needs answers takes the ones given so far and
//! returns a [`Step`]: the next query, the result, or a violation.

use crate::text::{maybe, names, texts};
use posix_errors::PosixError;
use vstd::prelude::*;

verus! {

/// One call of an external program: what to run, with which arguments, and where. The
/// caller waits for its end and keeps all that it prints, on both of its outputs.
#[derive(Debug, PartialEq, Eq)]
pub struct Invocation {
    pub program: String,
    pub args: Vec<String>,
    /// Environment variables to set for the call, in the order in which they were added.
    pub env: Vec<(String, String)>,
    /// The working directory of the call, where it is not the caller's own.
    pub cwd: Option<String>,
}

/// An `Invocation` as specifications see it.
pub struct InvocationView {
    pub program: Seq<char>,
    pub args: Seq<Seq<char>>,
    pub env: Seq<(Seq<char>, Seq<char>)>,
    pub cwd: Option<Seq<char>>,
}

/// The views of a list of pairs of strings.
pub open spec fn pairs(list: Seq<(String, String)>) -> Seq<(Seq<char>, Seq<char>)> {
    list.map_values(|p: (String, String)| (p.0@, p.1@))
}

impl View for Invocation {
    type V = InvocationView;

    open spec fn view(&self) -> InvocationView {
        InvocationView {
            program: self.program@,
            args: texts(self.args@),
            env: pairs(self.env@),
            cwd: maybe(self.cwd),
        }
    }
}

impl InvocationView {
    /// A call of `program` without arguments, in the caller's environment and directory.
    pub open spec fn new(program: Seq<char>) -> InvocationView {
        InvocationView { program, args: Seq::empty(), env: Seq::empty(), cwd: None }
    }

    /// The same call with one more argument.
    pub open spec fn arg(self, arg: Seq<char>) -> InvocationView {
        InvocationView { args: self.args.push(arg), ..self }
    }

    /// The same call with more arguments.
    pub open spec fn args(self, args: Seq<Seq<char>>) -> InvocationView {
        InvocationView { args: self.args + args, ..self }
    }

    /// The same call with one more environment variable.
    pub open spec fn env(self, key: Seq<char>, value: Seq<char>) -> InvocationView {
        InvocationView { env: self.env.push((key, value)), ..self }
    }

    /// The same call in the directory `dir`.
    pub open spec fn current_dir(self, dir: Seq<char>) -> InvocationView {
        InvocationView { cwd: Some(dir), ..self }
    }
}

impl Invocation {
    /// A call of `program` without arguments, in the caller's environment and directory.
    pub fn new(program: &str) -> (call: Invocation)
        ensures
            call@ == InvocationView::new(program@),
    {
        let call = Invocation {
            program: program.to_owned(),
            args: Vec::new(),
            env: Vec::new(),
            cwd: None,
        };
        assert(texts(call.args@) =~= Seq::empty());
        assert(pairs(call.env@) =~= Seq::empty());
        call
    }

    /// Adds one argument behind those that the call has.
    pub fn arg(self, arg: &str) -> (call: Invocation)
        ensures
            call@ == self@.arg(arg@),
    {
        let mut call = self;
        let ghost before = call.args@;
        let owned = arg.to_owned();
        call.args.push(owned);
        assert(texts(call.args@) =~= texts(before).push(arg@));
        call
    }

    /// Adds arguments behind those that the call has.
    pub fn args(self, args: &[&str]) -> (call: Invocation)
        ensures
            call@ == self@.args(names(args@)),
    {
        let mut call = self;
        let ghost start = call@;
        let ghost wanted = names(args@);
        let mut i: usize = 0;
        while i < args.len()
            invariant
                0 <= i <= args.len(),
                wanted == names(args@),
                call@ == start.args(wanted.take(i as int)),
            decreases args.len() - i,
        {
            let ghost before = call@;
            call = call.arg(args[i]);
            assert(before.args.push(wanted[i as int]) =~= start.args + wanted.take(i + 1));
            i += 1;
        }
        assert(wanted.take(i as int) =~= wanted);
        call
    }

    /// Sets the environment variable `key` to `value` for the call.
    pub fn env(self, key: &str, value: &str) -> (call: Invocation)
        ensures
            call@ == self@.env(key@, value@),
    {
        let mut call = self;
        let ghost before = call.env@;
        call.env.push((key.to_owned(), value.to_owned()));
        assert(pairs(call.env@) =~= pairs(before).push((key@, value@)));
        call
    }

    /// Makes `dir` the working directory of the call.
    pub fn current_dir(self, dir: &str) -> (call: Invocation)
        ensures
            call@ == self@.current_dir(dir@),
    {
        let mut call = self;
        call.cwd = Some(dir.to_owned());
        call
    }
}

/// How a call ended, with all that it printed.
#[derive(Debug, PartialEq, Eq)]
pub struct Outcome {
    /// The exit code; `None` where the program was ended by a signal.
    pub code: Option<i32>,
    pub stdout: Vec<u8>,
    pub stderr: Vec<u8>,
}

/// An `Outcome` as specifications see it.
pub struct OutcomeView {
    pub code: Option<i32>,
    pub stdout: Seq<u8>,
    pub stderr: Seq<u8>,
}

impl View for Outcome {
    type V = OutcomeView;

    open spec fn view(&self) -> OutcomeView {
        OutcomeView { code: self.code, stdout: self.stdout@, stderr: self.stderr@ }
    }
}

impl OutcomeView {
    /// The program ended with exit code 0.
    pub open spec fn success(self) -> bool {
        self.code == Some(0i32)
    }

    /// The exit code, and 1 where the program was ended by a signal.
    pub open spec fn code_or_one(self) -> i32 {
        match self.code {
            Some(code) => code,
            None => 1,
        }
    }
}

impl Clone for Outcome {
    fn clone(&self) -> (copy: Self)
        ensures
            copy@ == self@,
    {
        let copy = Outcome {
            code: self.code,
            stdout: self.stdout.clone(),
            stderr: self.stderr.clone(),
        };
        assert(copy.stdout@ =~= self.stdout@);
        assert(copy.stderr@ =~= self.stderr@);
        copy
    }
}

impl Outcome {
    /// Whether the program ended with exit code 0.
    pub fn success(&self) -> (yes: bool)
        ensures
            yes == self@.success(),
    {
        match self.code {
            Some(code) => code == 0,
            None => false,
        }
    }

    /// The exit code, and 1 where the program was ended by a signal.
    pub fn code_or_one(&self) -> (code: i32)
        ensures
            code == self@.code_or_one(),
    {
        match self.code {
            Some(code) => code,
            None => 1,
        }
    }
}

/// What the library needs to know next.
#[derive(Debug, PartialEq, Eq)]
pub enum Query {
    /// The value of an environment variable.
    Variable(String),
    /// The current working directory.
    CurrentDir,
    /// The canonical, absolute form of a path, which exists only where the path does.
    Canonical(String),
    /// Whether a path names a file.
    IsFile(String),
    /// Whether a path names a directory.
    IsDir(String),
    /// Whether a path names anything.
    Exists(String),
    /// How a call ends.
    Run(Invocation),
}

/// A `Query` as specifications see it.
pub enum QueryView {
    Variable(Seq<char>),
    CurrentDir,
    Canonical(Seq<char>),
    IsFile(Seq<char>),
    IsDir(Seq<char>),
    Exists(Seq<char>),
    Run(InvocationView),
}

impl View for Query {
    type V = QueryView;

    open spec fn view(&self) -> QueryView {
        match self {
            Query::Variable(name) => QueryView::Variable(name@),
            Query::CurrentDir => QueryView::CurrentDir,
            Query::Canonical(path) => QueryView::Canonical(path@),
            Query::IsFile(path) => QueryView::IsFile(path@),
            Query::IsDir(path) => QueryView::IsDir(path@),
            Query::Exists(path) => QueryView::Exists(path@),
            Query::Run(call) => QueryView::Run(call@),
        }
    }
}

/// What the caller found.
#[derive(Debug, PartialEq)]
pub enum Answer {
    /// To `Variable`, `CurrentDir` and `Canonical`: the text, `None` where there is none
    /// to be had.
    Text(Option<String>),
    /// To `IsFile`, `IsDir` and `Exists`.
    Flag(bool),
    /// To `Run`: how the call ended.
    Ran(Outcome),
    /// To `Run`: the call could not be made, or its end could not be waited for.
    Failed(PosixError),
}

/// An `Answer` as specifications see it.
pub enum AnswerView {
    Text(Option<Seq<char>>),
    Flag(bool),
    Ran(OutcomeView),
    Failed(PosixError),
}

impl View for Answer {
    type V = AnswerView;

    open spec fn view(&self) -> AnswerView {
        match self {
            Answer::Text(text) => AnswerView::Text(maybe(*text)),
            Answer::Flag(flag) => AnswerView::Flag(*flag),
            Answer::Ran(outcome) => AnswerView::Ran(outcome@),
            Answer::Failed(error) => AnswerView::Failed(*error),
        }
    }
}

/// An input that no run of the library with a working tool and an honest caller meets.
/// It is no failure of the operation: the caller ends the operation abnormally.
#[derive(Clone, Copy, Debug, PartialEq, Eq, Structural)]
pub enum Violation {
    /// An argument that the operation does not take.
    Argument,
    /// The answer is of another kind than the query asked for.
    Answer,
    /// The tool could not be run.
    Launch,
    /// A path that must exist has no canonical form.
    Path,
    /// The tool ended with a status that its documentation does not give for the call.
    Status,
    /// The tool printed what cannot be what its documentation describes.
    Output,
}

/// Where an operation stands after the answers it was given.
#[derive(Debug, PartialEq)]
pub enum Step<T> {
    /// It needs the answer to this query. Call again with the answer behind the others.
    Ask(Query),
    /// It has ended, with this result.
    Done(T),
    /// It met a violation.
    Fatal(Violation),
}

/// The step asks for the call `call`.
pub open spec fn asks<T>(step: Step<T>, call: InvocationView) -> bool {
    step matches Step::Ask(query) && query@ == QueryView::Run(call)
}

/// The step is the violation `violation`.
pub open spec fn fatal<T>(step: Step<T>, violation: Violation) -> bool {
    step matches Step::Fatal(met) && met == violation
}

/// The strings of `list`, owned.
pub fn owned(list: &[&str]) -> (all: Vec<String>)
    ensures
        texts(all@) == names(list@),
{
    let mut all: Vec<String> = Vec::new();
    let mut i: usize = 0;
    assert(texts(all@) =~= names(list@).take(0));
    while i < list.len()
        invariant
            0 <= i <= list.len(),
            texts(all@) == names(list@).take(i as int),
        decreases list.len() - i,
    {
        let ghost before = texts(all@);
        let item = list[i].to_owned();
        all.push(item);
        assert(texts(all@) =~= before.push(list@[i as int]@));
        assert(before.push(list@[i as int]@) =~= names(list@).take(i + 1));
        i += 1;
    }
    assert(names(list@).take(i as int) =~= names(list@));
    all
}

} // verus!
