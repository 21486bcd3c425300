//! Missions: ordered lists of steps that the supervisor runs, and the
//! checks a mission must pass before it is stored.
use vstd::prelude::*;
use crate::text::{chars_of, chars_eq_str, upper_chars, upper_seq};

verus! {

/// A JSON document, carried through unchanged as a notification body.
#[verifier::external_type_specification]
#[verifier::external_body]
pub struct ExJsonValue(serde_json::Value);

/// One step of a mission.
pub enum MissionStep {
    StartAgents { ids: Vec<String> },
    StopAgents { ids: Vec<String> },
    WaitForStatus { agent_id: String, status: String, timeout_seconds: u64 },
    TailLogsUntil { agent_id: String, contains: String, timeout_seconds: u64 },
    RunOps { agent_id: String, cmd: String },
    HttpNotify { url: String, method: String, body: Option<serde_json::Value> },
}

/// Why a mission is refused.
#[derive(Debug, Clone, Copy, PartialEq, Eq, Structural)]
pub enum MissionError {
    EmptySteps,
    EmptyAgentIds,
    ZeroTimeout,
    OpsNotAllowlisted,
    MethodUnsupported,
}

/// The message of each refusal.
pub open spec fn mission_error_message(e: MissionError) -> Seq<char> {
    match e {
        MissionError::EmptySteps => "mission steps cannot be empty"@,
        MissionError::EmptyAgentIds => "agent id list cannot be empty"@,
        MissionError::ZeroTimeout => "timeout_seconds must be > 0"@,
        MissionError::OpsNotAllowlisted => "run_ops command not allowlisted"@,
        MissionError::MethodUnsupported => "http_notify method unsupported"@,
    }
}

impl MissionError {
    /// The message of the refusal.
    pub fn message(&self) -> (res: &'static str)
        ensures
            res@ == mission_error_message(*self),
    {
        match self {
            MissionError::EmptySteps => "mission steps cannot be empty",
            MissionError::EmptyAgentIds => "agent id list cannot be empty",
            MissionError::ZeroTimeout => "timeout_seconds must be > 0",
            MissionError::OpsNotAllowlisted => "run_ops command not allowlisted",
            MissionError::MethodUnsupported => "http_notify method unsupported",
        }
    }
}

/// The operator commands a mission may run, written exactly so.
pub open spec fn mission_ops_allowed(cmd: Seq<char>) -> bool {
    ||| cmd == "docker ps"@
    ||| cmd == "compose up"@
    ||| cmd == "compose down"@
    ||| cmd == "compose logs"@
    ||| cmd == "show config"@
    ||| cmd == "open folder"@
}

/// The HTTP methods a notification may use, in any letter case.
pub open spec fn notify_method_allowed(method: Seq<char>) -> bool {
    let m = upper_seq(method);
    m == "POST"@ || m == "PUT"@ || m == "PATCH"@
}

/// What is wrong with one step, if anything.
pub open spec fn step_error(step: MissionStep) -> Option<MissionError> {
    match step {
        MissionStep::StartAgents { ids } => if ids@.len() == 0 {
            Some(MissionError::EmptyAgentIds)
        } else {
            None
        },
        MissionStep::StopAgents { ids } => if ids@.len() == 0 {
            Some(MissionError::EmptyAgentIds)
        } else {
            None
        },
        MissionStep::WaitForStatus { timeout_seconds, .. } => if timeout_seconds == 0 {
            Some(MissionError::ZeroTimeout)
        } else {
            None
        },
        MissionStep::TailLogsUntil { timeout_seconds, .. } => if timeout_seconds == 0 {
            Some(MissionError::ZeroTimeout)
        } else {
            None
        },
        MissionStep::RunOps { cmd, .. } => if mission_ops_allowed(cmd@) {
            None
        } else {
            Some(MissionError::OpsNotAllowlisted)
        },
        MissionStep::HttpNotify { method, .. } => if notify_method_allowed(method@) {
            None
        } else {
            Some(MissionError::MethodUnsupported)
        },
    }
}

/// The error of the first faulty step, if any.
pub open spec fn first_step_error(steps: Seq<MissionStep>) -> Option<MissionError>
    decreases steps.len(),
{
    if steps.len() == 0 {
        None
    } else {
        match step_error(steps[0]) {
            Some(e) => Some(e),
            None => first_step_error(steps.drop_first()),
        }
    }
}

/// What validating a mission gives: an empty mission is refused, and
/// otherwise the first faulty step decides.
pub open spec fn mission_verdict(steps: Seq<MissionStep>) -> Result<(), MissionError> {
    if steps.len() == 0 {
        Err(MissionError::EmptySteps)
    } else {
        match first_step_error(steps) {
            Some(e) => Err(e),
            None => Ok(()),
        }
    }
}

proof fn lemma_first_step_error(steps: Seq<MissionStep>, i: int)
    requires
        0 <= i <= steps.len(),
        forall|j: int| 0 <= j < i ==> step_error(#[trigger] steps[j]) is None,
    ensures
        i == steps.len() ==> first_step_error(steps) is None,
        i < steps.len() ==> (step_error(steps[i]) is Some ==> first_step_error(steps)
            == step_error(steps[i])),
    decreases i,
{
    if i > 0 {
        let rest = steps.drop_first();
        assert forall|j: int| 0 <= j < i - 1 implies step_error(#[trigger] rest[j]) is None by {
            assert(rest[j] == steps[j + 1]);
        }
        lemma_first_step_error(rest, i - 1);
        assert(step_error(steps[0]) is None);
        if i < steps.len() {
            assert(rest[i - 1] == steps[i]);
        }
    }
}

fn run_ops_allowed(cmd: &String) -> (res: bool)
    ensures
        res == mission_ops_allowed(cmd@),
{
    let v = chars_of(cmd.as_str());
    chars_eq_str(&v, "docker ps") || chars_eq_str(&v, "compose up") || chars_eq_str(
        &v,
        "compose down",
    ) || chars_eq_str(&v, "compose logs") || chars_eq_str(&v, "show config") || chars_eq_str(
        &v,
        "open folder",
    )
}

fn notify_method_ok(method: &String) -> (res: bool)
    ensures
        res == notify_method_allowed(method@),
{
    let m = upper_chars(&chars_of(method.as_str()));
    chars_eq_str(&m, "POST") || chars_eq_str(&m, "PUT") || chars_eq_str(&m, "PATCH")
}

fn check_step(step: &MissionStep) -> (res: Option<MissionError>)
    ensures
        res == step_error(*step),
{
    match step {
        MissionStep::StartAgents { ids } | MissionStep::StopAgents { ids } => if ids.len() == 0 {
            Some(MissionError::EmptyAgentIds)
        } else {
            None
        },
        MissionStep::WaitForStatus { timeout_seconds, .. }
        | MissionStep::TailLogsUntil { timeout_seconds, .. } => if *timeout_seconds == 0 {
            Some(MissionError::ZeroTimeout)
        } else {
            None
        },
        MissionStep::RunOps { cmd, .. } => if run_ops_allowed(cmd) {
            None
        } else {
            Some(MissionError::OpsNotAllowlisted)
        },
        MissionStep::HttpNotify { method, .. } => if notify_method_ok(method) {
            None
        } else {
            Some(MissionError::MethodUnsupported)
        },
    }
}

/// Checks a mission before it is stored: it must have a step, every
/// start/stop step must name an agent, every wait must have a timeout,
/// operator commands must be on the allowlist, and notifications must use
/// POST, PUT or PATCH. The first faulty step decides the error.
pub fn validate_mission_steps(steps: &[MissionStep]) -> (res: Result<(), MissionError>)
    ensures
        res == mission_verdict(steps@),
{
    if steps.len() == 0 {
        return Err(MissionError::EmptySteps);
    }
    let mut i: usize = 0;
    while i < steps.len()
        invariant
            i <= steps@.len(),
            steps@.len() > 0,
            forall|j: int| 0 <= j < i ==> step_error(#[trigger] steps@[j]) is None,
        decreases steps@.len() - i,
    {
        match check_step(&steps[i]) {
            Some(e) => {
                proof {
                    lemma_first_step_error(steps@, i as int);
                }
                return Err(e);
            },
            None => {},
        }
        i = i + 1;
    }
    proof {
        lemma_first_step_error(steps@, i as int);
    }
    Ok(())
}

/// Checking steps one after another is checking their concatenation: the
/// first faulty step of `a + b` is the first faulty step of `a`, or, when
/// `a` has none, that of `b`.
pub proof fn lemma_first_step_error_concat(a: Seq<MissionStep>, b: Seq<MissionStep>)
    ensures
        first_step_error(a + b) == match first_step_error(a) {
            Some(e) => Some(e),
            None => first_step_error(b),
        },
    decreases a.len(),
{
    if a.len() == 0 {
        assert(a + b =~= b);
    } else {
        assert((a + b)[0] == a[0]);
        assert((a + b).drop_first() =~= a.drop_first() + b);
        lemma_first_step_error_concat(a.drop_first(), b);
    }
}

/// A mission made of two non-empty parts is refused with the first
/// part's error, or, when the first part passes, judged by the second.
pub proof fn lemma_mission_verdict_concat(a: Seq<MissionStep>, b: Seq<MissionStep>)
    requires
        a.len() > 0,
        b.len() > 0,
    ensures
        mission_verdict(a + b) == match mission_verdict(a) {
            Err(e) => Err(e),
            Ok(()) => mission_verdict(b),
        },
{
    lemma_first_step_error_concat(a, b);
}

/// A notification may use POST, PUT or PATCH in any letter case: a
/// mission made of one notification step is accepted exactly when its
/// method, upper-cased, is one of these three, and is otherwise refused
/// as using an unsupported method.
pub proof fn lemma_notify_methods(url: String, method: String, body: Option<serde_json::Value>)
    ensures
        ({
            let m = upper_seq(method@);
            let verdict = mission_verdict(seq![MissionStep::HttpNotify { url, method, body }]);
            &&& (m == "POST"@ || m == "PUT"@ || m == "PATCH"@) ==> verdict == Ok::<
                (),
                MissionError,
            >(())
            &&& !(m == "POST"@ || m == "PUT"@ || m == "PATCH"@) ==> verdict == Err::<
                (),
                MissionError,
            >(MissionError::MethodUnsupported)
        }),
{
    let step = MissionStep::HttpNotify { url, method, body };
    let steps = seq![step];
    assert(steps.drop_first() =~= Seq::<MissionStep>::empty());
    assert(first_step_error(steps.drop_first()) is None);
    assert(steps[0] == step);
    assert(first_step_error(steps) == step_error(step));
}

} // verus!
