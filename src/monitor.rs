use vstd::prelude::*;

verus! {

/// Polls after which a session ends even when nothing happened.
pub const MAX_POLLS: u32 = 5;

/// Errors of a monitoring session.
#[derive(Debug, Clone, Copy, PartialEq, Eq, Structural)]
pub enum MonitorError {
    /// The contract address or the event name was empty.
    InvalidContractAddress,
    /// The ledger reported a failure that retrying cannot mend.
    MonitoringFailed,
    /// Transient failures used up the retry budget.
    TransientError,
}

/// What the ledger answered to one query for new matching events.
#[derive(Debug, Clone, Copy, PartialEq, Eq, Structural)]
pub enum PollOutcome {
    NoEvent,
    Found,
    TransientError,
    FatalError,
}

/// A session in the polling state. Every poll counts as one attempt, whatever
/// its outcome, so transient failures use up the poll cap as well as the
/// retry budget.
#[derive(Debug, Clone, Copy, PartialEq, Eq, Structural)]
pub struct MonitorSession {
    /// Polls made so far.
    pub attempts: u32,
    /// Transient failures seen so far.
    pub retries: u32,
    /// Transient failures after which the session gives up.
    pub max_retries: u8,
}

/// How a session ended, and after how many polls.
#[derive(Debug, Clone, Copy)]
pub struct MonitorReport {
    pub result: Result<(), MonitorError>,
    pub polls: u32,
}

/// What a session does after a poll: poll again, or stop.
#[derive(Debug, Clone, Copy)]
pub enum MonitorStep {
    Poll(MonitorSession),
    Finished(MonitorReport),
}

impl MonitorSession {
    /// A session still polling: below the cap, with no more failures than polls.
    pub open spec fn wf(self) -> bool {
        self.attempts < MAX_POLLS && self.retries <= self.attempts
    }

    /// A fresh session with the given retry budget.
    pub open spec fn initial(max_retries: u8) -> MonitorSession {
        MonitorSession { attempts: 0, retries: 0, max_retries }
    }

    /// The step that a poll with the given outcome leads to.
    pub open spec fn after(self, outcome: PollOutcome) -> MonitorStep {
        let attempts = (self.attempts + 1) as u32;
        let done_quietly = MonitorStep::Finished(MonitorReport { result: Ok(()), polls: attempts });
        match outcome {
            PollOutcome::Found => done_quietly,
            PollOutcome::FatalError => MonitorStep::Finished(
                MonitorReport { result: Err(MonitorError::MonitoringFailed), polls: attempts },
            ),
            PollOutcome::TransientError => {
                if self.retries + 1 >= self.max_retries {
                    MonitorStep::Finished(
                        MonitorReport { result: Err(MonitorError::TransientError), polls: attempts },
                    )
                } else if attempts >= MAX_POLLS {
                    done_quietly
                } else {
                    MonitorStep::Poll(
                        MonitorSession {
                            attempts,
                            retries: (self.retries + 1) as u32,
                            max_retries: self.max_retries,
                        },
                    )
                }
            },
            PollOutcome::NoEvent => {
                if attempts >= MAX_POLLS {
                    done_quietly
                } else {
                    MonitorStep::Poll(MonitorSession { attempts, ..self })
                }
            },
        }
    }

    /// Applies the outcome of one poll.
    pub fn record_poll(&self, outcome: PollOutcome) -> (r: MonitorStep)
        requires
            self.wf(),
        ensures
            r == self.after(outcome),
            r matches MonitorStep::Poll(s) ==> s.wf() && s.attempts == self.attempts + 1,
            r matches MonitorStep::Finished(rep) ==> 1 <= rep.polls <= MAX_POLLS,
    {
        let attempts = self.attempts + 1;
        match outcome {
            PollOutcome::Found => MonitorStep::Finished(MonitorReport { result: Ok(()), polls: attempts }),
            PollOutcome::FatalError => MonitorStep::Finished(
                MonitorReport { result: Err(MonitorError::MonitoringFailed), polls: attempts },
            ),
            PollOutcome::TransientError => {
                let retries = self.retries + 1;
                if retries >= self.max_retries as u32 {
                    MonitorStep::Finished(
                        MonitorReport { result: Err(MonitorError::TransientError), polls: attempts },
                    )
                } else if attempts >= MAX_POLLS {
                    MonitorStep::Finished(MonitorReport { result: Ok(()), polls: attempts })
                } else {
                    MonitorStep::Poll(
                        MonitorSession { attempts, retries, max_retries: self.max_retries },
                    )
                }
            },
            PollOutcome::NoEvent => {
                if attempts >= MAX_POLLS {
                    MonitorStep::Finished(MonitorReport { result: Ok(()), polls: attempts })
                } else {
                    MonitorStep::Poll(
                        MonitorSession {
                            attempts,
                            retries: self.retries,
                            max_retries: self.max_retries,
                        },
                    )
                }
            },
        }
    }
}

/// Opens a session: the contract address and the event name must both be
/// non-empty.
pub fn start_monitor(contract_address: &str, event_name: &str, max_retries: u8) -> (r: Result<
    MonitorSession,
    MonitorError,
>)
    ensures
        contract_address@.len() == 0 || event_name@.len() == 0 ==> r == Err::<
            MonitorSession,
            MonitorError,
        >(MonitorError::InvalidContractAddress),
        contract_address@.len() > 0 && event_name@.len() > 0 ==> r == Ok::<
            MonitorSession,
            MonitorError,
        >(MonitorSession::initial(max_retries)),
{
    if contract_address.is_empty() || event_name.is_empty() {
        return Err(MonitorError::InvalidContractAddress);
    }
    Ok(MonitorSession { attempts: 0, retries: 0, max_retries })
}

/// The ledger's answer to the poll of the given index: the scripted one, or
/// no event past the end of the script.
pub open spec fn answer(outcomes: Seq<PollOutcome>, k: int) -> PollOutcome {
    if 0 <= k < outcomes.len() {
        outcomes[k]
    } else {
        PollOutcome::NoEvent
    }
}

/// How a session ends when the ledger answers its polls as scripted.
pub open spec fn session_outcome(s: MonitorSession, outcomes: Seq<PollOutcome>) -> MonitorReport
    decreases MAX_POLLS - s.attempts,
{
    if s.attempts >= MAX_POLLS {
        MonitorReport { result: Ok(()), polls: s.attempts }
    } else {
        match s.after(answer(outcomes, s.attempts as int)) {
            MonitorStep::Poll(next) => session_outcome(next, outcomes),
            MonitorStep::Finished(rep) => rep,
        }
    }
}

/// Runs a whole session against a ledger whose answers, poll by poll, are
/// given; polls past the end of the answers find no event.
pub fn run_monitor(
    contract_address: &str,
    event_name: &str,
    max_retries: u8,
    outcomes: &[PollOutcome],
) -> (r: MonitorReport)
    ensures
        contract_address@.len() == 0 || event_name@.len() == 0 ==> r == (MonitorReport {
            result: Err(MonitorError::InvalidContractAddress),
            polls: 0,
        }),
        contract_address@.len() > 0 && event_name@.len() > 0 ==> r == session_outcome(
            MonitorSession::initial(max_retries),
            outcomes@,
        ),
        r.polls <= MAX_POLLS,
{
    let mut session = match start_monitor(contract_address, event_name, max_retries) {
        Ok(s) => s,
        Err(e) => {
            return MonitorReport { result: Err(e), polls: 0 };
        },
    };
    loop
        invariant
            session.wf(),
            contract_address@.len() > 0 && event_name@.len() > 0,
            session_outcome(session, outcomes@) == session_outcome(
                MonitorSession::initial(max_retries),
                outcomes@,
            ),
        decreases MAX_POLLS - session.attempts,
    {
        let k = session.attempts as usize;
        let outcome = if k < outcomes.len() {
            outcomes[k]
        } else {
            PollOutcome::NoEvent
        };
        match session.record_poll(outcome) {
            MonitorStep::Poll(next) => {
                session = next;
            },
            MonitorStep::Finished(rep) => {
                return rep;
            },
        }
    }
}

/// A session in which the ledger reports no failure, transient or fatal,
/// ends in success within the poll cap; when it never reports the event
/// either, it ends after exactly the capped number of polls.
pub proof fn lemma_quiet_session_completes(max_retries: u8, outcomes: Seq<PollOutcome>)
    requires
        forall|i: int|
            0 <= i < outcomes.len() ==> #[trigger] outcomes[i] == PollOutcome::NoEvent
                || outcomes[i] == PollOutcome::Found,
    ensures
        session_outcome(MonitorSession::initial(max_retries), outcomes).result == Ok::<
            (),
            MonitorError,
        >(()),
        session_outcome(MonitorSession::initial(max_retries), outcomes).polls <= MAX_POLLS,
        (forall|i: int| 0 <= i < outcomes.len() ==> #[trigger] outcomes[i] == PollOutcome::NoEvent)
            ==> session_outcome(MonitorSession::initial(max_retries), outcomes).polls == MAX_POLLS,
{
    lemma_quiet_from(MonitorSession::initial(max_retries), outcomes);
}

proof fn lemma_quiet_from(s: MonitorSession, outcomes: Seq<PollOutcome>)
    requires
        s.wf(),
        forall|i: int|
            0 <= i < outcomes.len() ==> #[trigger] outcomes[i] == PollOutcome::NoEvent
                || outcomes[i] == PollOutcome::Found,
    ensures
        session_outcome(s, outcomes).result == Ok::<(), MonitorError>(()),
        session_outcome(s, outcomes).polls <= MAX_POLLS,
        (forall|i: int| 0 <= i < outcomes.len() ==> #[trigger] outcomes[i] == PollOutcome::NoEvent)
            ==> session_outcome(s, outcomes).polls == MAX_POLLS,
    decreases MAX_POLLS - s.attempts,
{
    let o = answer(outcomes, s.attempts as int);
    assert(o == PollOutcome::NoEvent || o == PollOutcome::Found);
    if o == PollOutcome::NoEvent && s.attempts + 1 < MAX_POLLS {
        let next = MonitorSession { attempts: (s.attempts + 1) as u32, ..s };
        lemma_quiet_from(next, outcomes);
    }
}

} // verus!
