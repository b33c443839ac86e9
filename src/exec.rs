use vstd::prelude::*;

verus! {

/// How the standard streams of a child process are wired, and how its exit
/// status is judged.
#[derive(Clone, Copy, Debug, PartialEq, Eq, Structural)]
pub enum ExecMode {
    /// Output shown to the user; a non-zero exit is a failure.
    Captured,
    /// All three streams inherited from the terminal; the exit status is not judged.
    Interactive,
    /// Output discarded; the call is best effort and its result is discarded too.
    Silent,
}

/// What became of an attempt to run a child process.
#[derive(Clone, Copy, Debug, PartialEq, Eq, Structural)]
pub enum Outcome {
    /// The program could not be started (not found, permission denied).
    NotStarted,
    /// The program ran and ended, with its exit code (`None` when a signal ended it).
    Exited(Option<i32>),
}

impl Outcome {
    pub open spec fn spec_succeeded(self) -> bool {
        self == Outcome::Exited(Some(0i32))
    }

    /// Whether the process ran and exited with status zero.
    #[verifier::when_used_as_spec(spec_succeeded)]
    pub fn succeeded(self) -> (r: bool)
        ensures
            r == self.spec_succeeded(),
    {
        match self {
            Outcome::Exited(Some(code)) => code == 0,
            _ => false,
        }
    }
}


/// A failed external call, naming the command line that failed.
pub enum Failure {
    /// The program could not be started.
    Launch { command: String },
    /// The program ran and exited unsuccessfully.
    Exit { command: String, code: Option<i32> },
}

/// The mathematical model of a [`Failure`].
pub ghost enum FailureView {
    Launch { command: Seq<char> },
    Exit { command: Seq<char>, code: Option<i32> },
}

impl View for Failure {
    type V = FailureView;

    open spec fn view(&self) -> FailureView {
        match self {
            Failure::Launch { command } => FailureView::Launch { command: command@ },
            Failure::Exit { command, code } => FailureView::Exit { command: command@, code: *code },
        }
    }
}

impl Failure {
    /// A copy of this failure.
    pub fn duplicate(&self) -> (r: Failure)
        ensures
            r@ == self@,
    {
        match self {
            Failure::Launch { command } => Failure::Launch { command: command.clone() },
            Failure::Exit { command, code } => Failure::Exit { command: command.clone(), code: *code },
        }
    }
}

/// One external call: a program, its arguments, the directory it runs in and
/// how its streams are wired.
pub struct Invocation {
    pub program: String,
    pub args: Vec<String>,
    pub dir: String,
    pub mode: ExecMode,
}

/// The mathematical model of an [`Invocation`].
pub ghost struct InvocationView {
    pub program: Seq<char>,
    pub args: Seq<Seq<char>>,
    pub dir: Seq<char>,
    pub mode: ExecMode,
}

impl View for Invocation {
    type V = InvocationView;

    open spec fn view(&self) -> InvocationView {
        InvocationView {
            program: self.program@,
            args: texts(self.args@),
            dir: self.dir@,
            mode: self.mode,
        }
    }
}

/// The character sequences of a list of strings.
pub open spec fn texts(v: Seq<String>) -> Seq<Seq<char>> {
    v.map_values(|s: String| s@)
}

/// The words joined with single spaces between them.
pub open spec fn join_words(words: Seq<Seq<char>>) -> Seq<char>
    decreases words.len(),
{
    if words.len() == 0 {
        Seq::empty()
    } else if words.len() == 1 {
        words[0]
    } else {
        join_words(words.drop_last()) + seq![' '] + words.last()
    }
}

/// The command line of an invocation as shown in messages: the program, a
/// space, and the arguments joined with spaces.
pub open spec fn command_line_of(inv: InvocationView) -> Seq<char> {
    inv.program + seq![' '] + join_words(inv.args)
}

/// How one finished call is judged under its mode: a captured call fails when
/// it did not start or exited unsuccessfully, the other two only when it did
/// not start.
pub open spec fn verdict(inv: InvocationView, outcome: Outcome) -> Option<FailureView> {
    match outcome {
        Outcome::NotStarted => Some(FailureView::Launch { command: command_line_of(inv) }),
        Outcome::Exited(code) => {
            if inv.mode == ExecMode::Captured && !outcome.spec_succeeded() {
                Some(FailureView::Exit { command: command_line_of(inv), code })
            } else {
                None
            }
        },
    }
}

impl Invocation {
    /// A copy of this invocation.
    pub fn duplicate(&self) -> (r: Invocation)
        ensures
            r@ == self@,
    {
        let mut args: Vec<String> = Vec::new();
        let mut i: usize = 0;
        while i < self.args.len()
            invariant
                i <= self.args.len(),
                args@.len() == i,
                forall|k: int| 0 <= k < i ==> args@[k]@ == self.args@[k]@,
            decreases self.args.len() - i,
        {
            args.push(self.args[i].clone());
            i = i + 1;
        }
        assert(texts(args@) =~= texts(self.args@));
        Invocation {
            program: self.program.clone(),
            args,
            dir: self.dir.clone(),
            mode: self.mode,
        }
    }

    /// The command line shown in messages about this invocation.
    pub fn command_line(&self) -> (r: String)
        ensures
            r@ == command_line_of(self@),
    {
        proof {
            reveal_strlit(" ");
        }
        let mut r = self.program.clone();
        r.append(" ");
        let ghost head = r@;
        let mut i: usize = 0;
        while i < self.args.len()
            invariant
                i <= self.args.len(),
                head == self.program@ + seq![' '],
                r@ == head + join_words(texts(self.args@).take(i as int)),
            decreases self.args.len() - i,
        {
            proof {
                reveal_strlit(" ");
            }
            let ghost prev = texts(self.args@).take(i as int);
            let ghost words = texts(self.args@).take(i as int + 1);
            assert(words.drop_last() =~= prev);
            assert(words.last() == self.args@[i as int]@);
            if i > 0 {
                r.append(" ");
            } else {
                assert(prev =~= Seq::<Seq<char>>::empty());
            }
            r.append(self.args[i].as_str());
            i = i + 1;
            assert(r@ =~= head + join_words(words));
        }
        assert(texts(self.args@).take(i as int) =~= texts(self.args@));
        r
    }

    /// Judges a finished call of this invocation: `Ok` when it counts as done,
    /// the failure otherwise.
    pub fn settle(&self, outcome: Outcome) -> (r: Result<(), Failure>)
        ensures
            match verdict(self@, outcome) {
                None => r is Ok,
                Some(f) => r matches Err(e) && e@ == f,
            },
    {
        match outcome {
            Outcome::NotStarted => Err(Failure::Launch { command: self.command_line() }),
            Outcome::Exited(code) => {
                if matches!(self.mode, ExecMode::Captured) && !outcome.succeeded() {
                    Err(Failure::Exit { command: self.command_line(), code })
                } else {
                    Ok(())
                }
            },
        }
    }
}

} // verus!
