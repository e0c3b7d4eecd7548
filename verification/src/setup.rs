use vstd::prelude::*;

use crate::outcome::CmdOutcome;

verus! {

/// One step of the setup sequence: a program to launch with its
/// arguments, and the progress notice to emit just before launching.
pub struct Stage {
    pub program: String,
    pub args: Vec<String>,
    pub notice: String,
}

/// The mathematical content of a `Stage`.
#[verifier::ext_equal]
pub ghost struct StageView {
    pub program: Seq<char>,
    pub args: Seq<Seq<char>>,
    pub notice: Seq<char>,
}

impl View for Stage {
    type V = StageView;

    open spec fn view(&self) -> StageView {
        StageView {
            program: self.program@,
            args: self.args@.map_values(|a: String| a@),
            notice: self.notice@,
        }
    }
}

/// The operating-system families the setup sequence distinguishes.
#[derive(PartialEq, Eq, Structural, Clone, Copy, Debug)]
pub enum OsFamily {
    Windows,
    /// The macOS/Linux family, installed through a shell script.
    Unix,
    /// Any other identifier: setup is refused.
    Other,
}

/// The family a raw OS identifier belongs to.
pub open spec fn os_family_of(os: Seq<char>) -> OsFamily {
    if os == "windows"@ {
        OsFamily::Windows
    } else if os == "macos"@ || os == "linux"@ {
        OsFamily::Unix
    } else {
        OsFamily::Other
    }
}

/// String equality, usable from executable code.
fn str_eq(a: &str, b: &str) -> (r: bool)
    ensures
        r == (a@ == b@),
{
    let sa = a.to_owned();
    let sb = b.to_owned();
    sa == sb
}

/// Classifies a raw OS identifier (as the platform reports it, e.g.
/// "windows", "macos", "linux") into its setup family.
pub fn classify_os(os: &str) -> (r: OsFamily)
    ensures
        r == os_family_of(os@),
{
    if str_eq(os, "windows") {
        OsFamily::Windows
    } else if str_eq(os, "macos") {
        OsFamily::Unix
    } else if str_eq(os, "linux") {
        OsFamily::Unix
    } else {
        OsFamily::Other
    }
}

/// Whether the setup sequence begins with a presence probe of the
/// tool: only the macOS/Linux family checks before installing, so that
/// an install can be skipped; every other family probes nothing.
pub fn needs_presence_probe(os: &str) -> (r: bool)
    ensures
        r == (os_family_of(os@) == OsFamily::Unix),
{
    let family = classify_os(os);
    family == OsFamily::Unix
}

/// The stages for the Windows family: a package-manager install, then
/// a model pull, both through the command interpreter.
pub open spec fn windows_stages() -> Seq<StageView> {
    seq![
        StageView {
            program: "cmd"@,
            args: seq!["/C"@, "winget install -e --id Ollama.Ollama"@],
            notice: "Installing Ollama (Windows)..."@,
        },
        StageView {
            program: "cmd"@,
            args: seq!["/C"@, "ollama pull deepseek-r1:1.5b"@],
            notice: "Pulling deepseek-r1:1.5b..."@,
        },
    ]
}

/// The stages for the macOS/Linux family: a shell-script install only
/// when the tool is absent, then — always — a model pull.
pub open spec fn unix_stages(tool_present: bool) -> Seq<StageView> {
    let pull = StageView {
        program: "ollama"@,
        args: seq!["pull"@, "deepseek-r1:1.5b"@],
        notice: "Pulling Model: deepseek-r1:1.5b (this may take a while)..."@,
    };
    if tool_present {
        seq![pull]
    } else {
        seq![
            StageView {
                program: "sh"@,
                args: seq!["-c"@, "curl -fsSL https://ollama.com/install.sh | sh"@],
                notice: "Installing Ollama..."@,
            },
            pull,
        ]
    }
}

/// The planned stages for an OS family; `Other` has none.
pub open spec fn planned_stages(family: OsFamily, tool_present: bool) -> Seq<StageView> {
    match family {
        OsFamily::Windows => windows_stages(),
        OsFamily::Unix => unix_stages(tool_present),
        OsFamily::Other => Seq::empty(),
    }
}

/// The message with which setup on an unrecognized OS is refused.
pub open spec fn unsupported_os_message(os: Seq<char>) -> Seq<char> {
    "Unsupported OS: "@ + os
}

/// The failure reason recorded for a stage of `program` that ended in
/// `outcome`: the captured standard error after a non-zero exit, or
/// the launch error's description when the process could not start.
/// (A success records no reason.)
pub open spec fn failure_reason(program: Seq<char>, outcome: CmdOutcome) -> Seq<char> {
    match outcome {
        CmdOutcome::Success { .. } => Seq::empty(),
        CmdOutcome::ExitFailure { stderr } => "Command failed: "@ + stderr@,
        CmdOutcome::LaunchFailure { message } => "Failed to run "@ + program + ": "@ + message@,
    }
}

/// The sequencer's mathematical state: the planned stages, how many
/// have run and succeeded, and the recorded reason once one failed.
#[verifier::ext_equal]
pub ghost struct SequencerView {
    pub stages: Seq<StageView>,
    pub done: int,
    pub failure: Option<Seq<char>>,
}

impl SequencerView {
    /// A stage is pending: nothing has failed and stages remain.
    pub open spec fn running(self) -> bool {
        self.failure is None && self.done < self.stages.len()
    }

    /// Every planned stage ran and succeeded.
    pub open spec fn completed(self) -> bool {
        self.failure is None && self.done == self.stages.len()
    }

    pub open spec fn wf(self) -> bool {
        &&& 0 <= self.done <= self.stages.len()
        &&& (self.failure is Some ==> self.done < self.stages.len())
    }
}

/// One transition of the sequencer: a successful stage advances the
/// cursor by one; a failing stage records its reason and ends the run;
/// a sequencer that is no longer running never moves again.
pub open spec fn step(v: SequencerView, outcome: CmdOutcome) -> SequencerView {
    if !v.running() {
        v
    } else if outcome is Success {
        SequencerView { done: v.done + 1, ..v }
    } else {
        SequencerView { failure: Some(failure_reason(v.stages[v.done].program, outcome)), ..v }
    }
}

/// The sequencer's state after the outcomes in `outcomes` have been
/// recorded in order.
pub open spec fn run_steps(v: SequencerView, outcomes: Seq<CmdOutcome>) -> SequencerView
    decreases outcomes.len(),
{
    if outcomes.len() == 0 {
        v
    } else {
        run_steps(step(v, outcomes[0]), outcomes.drop_first())
    }
}

/// The notices of the stages actually launched during a run: one per
/// outcome recorded while the sequencer was still running, each
/// emitted just before its stage's command.
pub open spec fn run_notices(v: SequencerView, outcomes: Seq<CmdOutcome>) -> Seq<Seq<char>>
    decreases outcomes.len(),
{
    if outcomes.len() == 0 || !v.running() {
        Seq::empty()
    } else {
        seq![v.stages[v.done].notice] + run_notices(step(v, outcomes[0]), outcomes.drop_first())
    }
}

/// The notices of all stages of a plan, in plan order.
pub open spec fn plan_notices(stages: Seq<StageView>) -> Seq<Seq<char>> {
    stages.map(|i: int, s: StageView| s.notice)
}

/// Builds a stage with exactly two arguments (every planned stage has
/// two).
fn make_stage(program: &str, arg0: &str, arg1: &str, notice: &str) -> (r: Stage)
    ensures
        r@ == (StageView { program: program@, args: seq![arg0@, arg1@], notice: notice@ }),
{
    let mut args: Vec<String> = Vec::new();
    args.push(String::from_str(arg0));
    args.push(String::from_str(arg1));
    let r = Stage {
        program: String::from_str(program),
        args,
        notice: String::from_str(notice),
    };
    proof {
        assert(r@.args =~= seq![arg0@, arg1@]);
        assert(r@ =~~= (StageView { program: program@, args: seq![arg0@, arg1@], notice: notice@ }));
    }
    r
}

/// Runs the ordered, OS-conditioned setup sequence one stage at a
/// time. The caller emits each pending stage's notice, launches its
/// command synchronously, and reports the outcome back; the sequencer
/// decides what comes next and halts at the first failure. No stage is
/// rolled back on a later failure.
pub struct SetupSequencer {
    stages: Vec<Stage>,
    done: usize,
    failure: Option<String>,
}

impl View for SetupSequencer {
    type V = SequencerView;

    closed spec fn view(&self) -> SequencerView {
        SequencerView {
            stages: self.stages@.map_values(|s: Stage| s@),
            done: self.done as int,
            failure: match self.failure {
                Some(f) => Some(f@),
                None => None,
            },
        }
    }
}

impl SetupSequencer {
    /// Plans the setup sequence for the given OS identifier.
    /// `tool_present` is the result of the presence probe; only the
    /// macOS/Linux family's plan reads it (it decides whether the
    /// install stage is skipped). An unrecognized identifier is
    /// refused before any stage exists, with a message naming it.
    pub fn new(os: &str, tool_present: bool) -> (r: Result<SetupSequencer, String>)
        ensures
            match r {
                Ok(s) => {
                    &&& os_family_of(os@) != OsFamily::Other
                    &&& s@.wf()
                    &&& s@.stages == planned_stages(os_family_of(os@), tool_present)
                    &&& s@.done == 0
                    &&& s@.failure is None
                },
                Err(e) => os_family_of(os@) == OsFamily::Other && e@ == unsupported_os_message(
                    os@,
                ),
            },
    {
        let family = classify_os(os);
        if family == OsFamily::Other {
            let mut msg = String::from_str("Unsupported OS: ");
            msg.append(os);
            return Err(msg);
        }
        let mut stages: Vec<Stage> = Vec::new();
        if family == OsFamily::Windows {
            stages.push(
                make_stage(
                    "cmd",
                    "/C",
                    "winget install -e --id Ollama.Ollama",
                    "Installing Ollama (Windows)...",
                ),
            );
            stages.push(
                make_stage("cmd", "/C", "ollama pull deepseek-r1:1.5b", "Pulling deepseek-r1:1.5b..."),
            );
            proof {
                assert(stages@.map_values(|s: Stage| s@) =~~= windows_stages());
            }
        } else {
            if !tool_present {
                stages.push(
                    make_stage(
                        "sh",
                        "-c",
                        "curl -fsSL https://ollama.com/install.sh | sh",
                        "Installing Ollama...",
                    ),
                );
            }
            stages.push(
                make_stage(
                    "ollama",
                    "pull",
                    "deepseek-r1:1.5b",
                    "Pulling Model: deepseek-r1:1.5b (this may take a while)...",
                ),
            );
            proof {
                assert(stages@.map_values(|s: Stage| s@) =~~= unix_stages(tool_present));
            }
        }
        Ok(SetupSequencer { stages, done: 0, failure: None })
    }

    /// The stage to run next: the caller emits its notice, launches
    /// its command, and reports the outcome. `None` once the sequence
    /// has completed or failed — no stage follows a failure.
    pub fn current_stage(&self) -> (r: Option<&Stage>)
        ensures
            match r {
                Some(st) => self@.running() && st@ == self@.stages[self@.done],
                None => !self@.running(),
            },
    {
        match &self.failure {
            Some(_) => None,
            None => {
                if self.done < self.stages.len() {
                    Some(&self.stages[self.done])
                } else {
                    None
                }
            },
        }
    }

    /// Records the pending stage's outcome. Success advances to the
    /// next stage; a non-zero exit or a launch failure records its
    /// reason and halts the sequence for good.
    pub fn record_outcome(&mut self, outcome: &CmdOutcome)
        requires
            old(self)@.wf(),
            old(self)@.running(),
        ensures
            final(self)@.wf(),
            final(self)@ == step(old(self)@, *outcome),
    {
        let n = self.stages.len();
        proof {
            assert(self@.stages.len() == self.stages@.len());
        }
        match outcome {
            CmdOutcome::Success { .. } => {
                assert(self.done < n);
                self.done = self.done + 1;
            },
            CmdOutcome::ExitFailure { stderr } => {
                let mut msg = String::from_str("Command failed: ");
                msg.append(stderr.as_str());
                self.failure = Some(msg);
            },
            CmdOutcome::LaunchFailure { message } => {
                let mut msg = String::from_str("Failed to run ");
                msg.append(self.stages[self.done].program.as_str());
                msg.append(": ");
                msg.append(message.as_str());
                self.failure = Some(msg);
            },
        }
        proof {
            assert(self@ =~~= step(old(self)@, *outcome));
        }
    }

    /// The final outcome: `Ok("Success")` once every planned stage has
    /// succeeded, `Err` with the recorded reason after a failure, and
    /// `None` while stages remain to run.
    pub fn result(&self) -> (r: Option<Result<String, String>>)
        requires
            self@.wf(),
        ensures
            match r {
                Some(res) => match res {
                    Ok(s) => self@.completed() && s@ == "Success"@,
                    Err(e) => self@.failure == Some(e@),
                },
                None => self@.running(),
            },
    {
        match &self.failure {
            Some(f) => Some(Err(f.clone())),
            None => {
                if self.done == self.stages.len() {
                    Some(Ok(String::from_str("Success")))
                } else {
                    None
                }
            },
        }
    }
}

/// The notice emitted once, before any stage runs.
pub fn starting_notice() -> (r: String)
    ensures
        r@ == "Starting setup..."@,
{
    String::from_str("Starting setup...")
}

/// The notice emitted after the whole sequence has succeeded — and
/// only then: `SetupSequencer::result` is `Ok` exactly on a completed
/// run.
pub fn completion_notice() -> (r: String)
    ensures
        r@ == "Setup Complete!"@,
{
    String::from_str("Setup Complete!")
}

/// Law: on the macOS/Linux family, the plan launches the install
/// script exactly when the tool is absent, and always ends with the
/// model pull — with the tool present, the pull stage is the whole
/// plan and no install command appears in it.
pub proof fn lemma_unix_plan_shape(tool_present: bool)
    ensures
        unix_stages(tool_present).len() == if tool_present {
            1int
        } else {
            2int
        },
        unix_stages(tool_present).last().program == "ollama"@,
        unix_stages(tool_present).last().args == seq!["pull"@, "deepseek-r1:1.5b"@],
        !tool_present ==> unix_stages(tool_present)[0].program == "sh"@,
        tool_present ==> forall|i: int|
            0 <= i < unix_stages(tool_present).len() ==> unix_stages(tool_present)[i].program
                != "sh"@,
{
    reveal_strlit("ollama");
    reveal_strlit("sh");
    assert("ollama"@.len() == 6);
    assert("sh"@.len() == 2);
    if tool_present {
        assert forall|i: int| 0 <= i < unix_stages(true).len() implies unix_stages(true)[i].program
            != "sh"@ by {
            assert(unix_stages(true)[i] == unix_stages(true)[0]);
            assert(unix_stages(true)[0].program == "ollama"@);
        }
    }
}

/// Law: a halted run is inert — once a failure is recorded, later
/// reports change nothing and no further stage is launched.
pub proof fn lemma_halted_run_is_inert(v: SequencerView, outcomes: Seq<CmdOutcome>)
    requires
        v.failure is Some,
    ensures
        run_steps(v, outcomes) == v,
        run_notices(v, outcomes) == Seq::<Seq<char>>::empty(),
    decreases outcomes.len(),
{
    if outcomes.len() > 0 {
        lemma_halted_run_is_inert(v, outcomes.drop_first());
    }
}

/// Law: when every remaining stage's command succeeds, the sequencer
/// completes, and the notices emitted during the run are exactly the
/// remaining planned stages' notices, in plan order.
pub proof fn lemma_all_success_completes(v: SequencerView, outcomes: Seq<CmdOutcome>)
    requires
        v.wf(),
        v.failure is None,
        outcomes.len() == v.stages.len() - v.done,
        forall|i: int| 0 <= i < outcomes.len() ==> outcomes[i] is Success,
    ensures
        run_steps(v, outcomes).completed(),
        run_steps(v, outcomes).stages == v.stages,
        run_notices(v, outcomes) =~= plan_notices(v.stages).skip(v.done),
    decreases outcomes.len(),
{
    if outcomes.len() == 0 {
        assert(plan_notices(v.stages).skip(v.done) =~= Seq::<Seq<char>>::empty());
    } else {
        let v1 = step(v, outcomes[0]);
        assert(outcomes[0] is Success);
        assert(v1 == SequencerView { done: v.done + 1, ..v });
        assert forall|i: int| 0 <= i < outcomes.drop_first().len() implies outcomes.drop_first()[i]
            is Success by {
            assert(outcomes.drop_first()[i] == outcomes[i + 1]);
        }
        lemma_all_success_completes(v1, outcomes.drop_first());
        assert(run_notices(v, outcomes) =~= seq![v.stages[v.done].notice] + plan_notices(
            v.stages,
        ).skip(v.done + 1));
        assert(plan_notices(v.stages)[v.done] == v.stages[v.done].notice);
    }
}

/// Law: when the pending stage at offset `k` fails after `k`
/// successes, the run halts there: the recorded reason is the failing
/// stage's, exactly the first `k + 1` remaining stages were launched
/// (their notices, in plan order, are all that was emitted), and no
/// later stage runs, however many more outcomes the caller would
/// report.
pub proof fn lemma_failure_halts(v: SequencerView, outcomes: Seq<CmdOutcome>, k: int)
    requires
        v.wf(),
        v.failure is None,
        0 <= k < outcomes.len(),
        v.done + k < v.stages.len(),
        forall|i: int| 0 <= i < k ==> outcomes[i] is Success,
        !(outcomes[k] is Success),
    ensures
        run_steps(v, outcomes).failure == Some(
            failure_reason(v.stages[v.done + k].program, outcomes[k]),
        ),
        run_steps(v, outcomes).done == v.done + k,
        run_steps(v, outcomes).stages == v.stages,
        run_notices(v, outcomes) =~= plan_notices(v.stages).subrange(v.done, v.done + k + 1),
    decreases outcomes.len(),
{
    if k == 0 {
        let v1 = step(v, outcomes[0]);
        assert(v1.failure == Some(failure_reason(v.stages[v.done].program, outcomes[0])));
        lemma_halted_run_is_inert(v1, outcomes.drop_first());
        assert(run_notices(v, outcomes) =~= seq![v.stages[v.done].notice]);
        assert(plan_notices(v.stages).subrange(v.done, v.done + 1) =~= seq![
            v.stages[v.done].notice,
        ]);
    } else {
        let v1 = step(v, outcomes[0]);
        assert(outcomes[0] is Success);
        assert(v1 == SequencerView { done: v.done + 1, ..v });
        assert forall|i: int| 0 <= i < k - 1 implies outcomes.drop_first()[i] is Success by {
            assert(outcomes.drop_first()[i] == outcomes[i + 1]);
        }
        assert(outcomes.drop_first()[k - 1] == outcomes[k]);
        lemma_failure_halts(v1, outcomes.drop_first(), k - 1);
        assert(run_notices(v, outcomes) =~= seq![v.stages[v.done].notice] + plan_notices(
            v.stages,
        ).subrange(v.done + 1, v.done + k + 1));
        assert(plan_notices(v.stages)[v.done] == v.stages[v.done].notice);
    }
}

} // verus!
