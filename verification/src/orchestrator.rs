//! The restore orchestration state machine.
//!
//! One restore attempt is a dialogue between this machine and two outside
//! capabilities: a command runner that executes an invocation inside the
//! container and hands back exit status and captured output, and a prompt
//! that asks the operator one line of input.  The machine holds every
//! decision; the front end merely performs the outside step the current
//! phase names and feeds the result back through [`RestoreOrchestrator::step`].
//!
//! The flow: probe for the target database; when it is missing, ask the
//! operator and create it; run the restore; recover from a missing
//! credential by prompting for the password once and retrying the failed
//! operation, and from a missing database by re-entering the
//! confirm-and-create flow; report success with the restore's captured
//! output, or the failure that ended the attempt.

use vstd::prelude::*;

use crate::classify::Existence;
use crate::classify::FailureKind;
use crate::classify::check_existence;
use crate::classify::classify_failure;
use crate::classify::spec_classify;
use crate::classify::spec_probe_exists;
use crate::profile::Args;
use crate::text::is_affirmative;
use crate::text::spec_affirmative;

verus! {

/// How a restore attempt can fail.
#[derive(Debug)]
pub enum RestoreError {
    /// The profile lacks host, port, user or container; detected before any
    /// outside call, never retried.
    MissingProfileData,
    /// The operator declined a confirmation prompt; terminal.
    UserCancelled,
    /// An unclassified failure of the external client, carrying its
    /// diagnostic text verbatim; fatal to the attempt.
    ExecutionFailure { stderr: String },
}

/// The phase of one restore attempt.  Every non-terminal phase names the one
/// outside step the caller must perform next.
#[derive(Debug)]
pub enum Phase {
    /// Run the existence probe and report its result.
    Probe,
    /// Ask the operator whether the missing database may be created.
    ConfirmCreate,
    /// Run the creation invocation and report its result.
    Create,
    /// Ask the operator for the password; the flag records which operation
    /// the fresh credential retries.
    PromptPassword { retry_restore: bool },
    /// Run the restore invocation and report its result.
    Restore,
    /// Terminal: the restore succeeded; `output` is its captured stdout.
    Done { output: String },
    /// Terminal: the attempt failed.
    Failed { error: RestoreError },
}

/// What the outside world reports back to the machine.
#[derive(Debug)]
pub enum Event {
    /// A command finished, with its exit status and captured streams.
    Completed { exit_success: bool, stdout: String, stderr: String },
    /// The operator answered a prompt with one line, surrounding whitespace
    /// already removed.
    Answered { line: String },
}

/// One restore attempt: the profile it runs under, the target database, and
/// the current phase.
#[derive(Debug)]
pub struct RestoreOrchestrator {
    /// The connection profile; the password-recovery path replaces it by a
    /// copy carrying the freshly entered password.
    pub profile: Args,
    /// The target database name.
    pub namedb: String,
    /// Where the attempt stands.
    pub phase: Phase,
}

impl RestoreOrchestrator {
    /// The machine only ever runs under a restore-capable profile.
    pub open spec fn wf(self) -> bool {
        self.profile.spec_restore_capable()
    }

    /// The attempt has ended.
    pub open spec fn spec_terminal(self) -> bool {
        self.phase is Done || self.phase is Failed
    }

    /// The phases that wait for a command result.
    pub open spec fn spec_expects_command(self) -> bool {
        self.phase is Probe || self.phase is Create || self.phase is Restore
    }

    /// The phases that wait for an operator's answer.
    pub open spec fn spec_expects_answer(self) -> bool {
        self.phase is ConfirmCreate || self.phase is PromptPassword
    }

    /// The event fits what the current phase waits for.
    pub open spec fn spec_accepts(self, event: Event) -> bool {
        match event {
            Event::Completed { .. } => self.spec_expects_command(),
            Event::Answered { .. } => self.spec_expects_answer(),
        }
    }

    /// The transition relation of the machine, one outside report at a time.
    ///
    /// - A probe result branches on [`spec_probe_exists`]: to the restore
    ///   when the database exists, to the confirmation prompt otherwise.
    /// - A confirmation answer proceeds to creation only when affirmative;
    ///   anything else cancels the attempt.
    /// - A failed creation or restore with diagnostic text classified as a
    ///   missing credential, while the profile carries no password, prompts
    ///   for the password and retries the same operation; once a password is
    ///   present this branch is closed.
    /// - A failed restore classified as a missing database re-enters the
    ///   confirmation flow; the retry after a successful creation runs the
    ///   restore again without a further existence probe.
    /// - Every other failure is fatal, carrying the diagnostic text.
    pub open spec fn spec_step(self, event: Event) -> RestoreOrchestrator {
        match (self.phase, event) {
            (Phase::Probe, Event::Completed { exit_success, stdout, stderr }) => {
                if spec_probe_exists(exit_success, stdout@) {
                    RestoreOrchestrator { phase: Phase::Restore, ..self }
                } else {
                    RestoreOrchestrator { phase: Phase::ConfirmCreate, ..self }
                }
            },
            (Phase::ConfirmCreate, Event::Answered { line }) => {
                if spec_affirmative(line@) {
                    RestoreOrchestrator { phase: Phase::Create, ..self }
                } else {
                    RestoreOrchestrator {
                        phase: Phase::Failed { error: RestoreError::UserCancelled },
                        ..self
                    }
                }
            },
            (Phase::Create, Event::Completed { exit_success, stdout, stderr }) => {
                if exit_success {
                    RestoreOrchestrator { phase: Phase::Restore, ..self }
                } else if spec_classify(stderr@) is CredentialMissing && self.profile.password
                    is None {
                    RestoreOrchestrator {
                        phase: Phase::PromptPassword { retry_restore: false },
                        ..self
                    }
                } else {
                    RestoreOrchestrator {
                        phase: Phase::Failed { error: RestoreError::ExecutionFailure { stderr } },
                        ..self
                    }
                }
            },
            (Phase::PromptPassword { retry_restore }, Event::Answered { line }) => {
                RestoreOrchestrator {
                    profile: Args { password: Some(line), ..self.profile },
                    phase: if retry_restore {
                        Phase::Restore
                    } else {
                        Phase::Create
                    },
                    ..self
                }
            },
            (Phase::Restore, Event::Completed { exit_success, stdout, stderr }) => {
                if exit_success {
                    RestoreOrchestrator { phase: Phase::Done { output: stdout }, ..self }
                } else if spec_classify(stderr@) is CredentialMissing && self.profile.password
                    is None {
                    RestoreOrchestrator {
                        phase: Phase::PromptPassword { retry_restore: true },
                        ..self
                    }
                } else if spec_classify(stderr@) is TargetMissing {
                    RestoreOrchestrator { phase: Phase::ConfirmCreate, ..self }
                } else {
                    RestoreOrchestrator {
                        phase: Phase::Failed { error: RestoreError::ExecutionFailure { stderr } },
                        ..self
                    }
                }
            },
            _ => self,
        }
    }

    /// Begin a restore attempt for `namedb` under `profile`.
    ///
    /// Fails with [`RestoreError::MissingProfileData`] exactly when the
    /// profile is not restore-capable; no orchestrator exists then, so no
    /// outside command is ever composed or run for an incapable profile.
    pub fn new(profile: Args, namedb: String) -> (r: Result<RestoreOrchestrator, RestoreError>)
        ensures
            r is Ok <==> profile.spec_restore_capable(),
            r matches Ok(o) ==> o == (RestoreOrchestrator { profile, namedb, phase: Phase::Probe }),
            r matches Err(e) ==> e is MissingProfileData,
    {
        if profile.is_restore_capable() {
            Ok(RestoreOrchestrator { profile, namedb, phase: Phase::Probe })
        } else {
            Err(RestoreError::MissingProfileData)
        }
    }

    /// Feed one outside report to the machine.
    pub fn step(&mut self, event: Event)
        requires
            !old(self).spec_terminal(),
            old(self).spec_accepts(event),
        ensures
            *final(self) == old(self).spec_step(event),
    {
        match event {
            Event::Completed { exit_success, stdout, stderr } => {
                match &self.phase {
                    Phase::Probe => {
                        let e = check_existence(exit_success, stdout.as_str());
                        if e == Existence::Exists {
                            self.phase = Phase::Restore;
                        } else {
                            self.phase = Phase::ConfirmCreate;
                        }
                    },
                    Phase::Create => {
                        if exit_success {
                            self.phase = Phase::Restore;
                        } else {
                            let k = classify_failure(stderr.as_str());
                            if k == FailureKind::CredentialMissing && self.profile.password.is_none() {
                                self.phase = Phase::PromptPassword { retry_restore: false };
                            } else {
                                self.phase = Phase::Failed {
                                    error: RestoreError::ExecutionFailure { stderr },
                                };
                            }
                        }
                    },
                    Phase::Restore => {
                        if exit_success {
                            self.phase = Phase::Done { output: stdout };
                        } else {
                            let k = classify_failure(stderr.as_str());
                            if k == FailureKind::CredentialMissing && self.profile.password.is_none() {
                                self.phase = Phase::PromptPassword { retry_restore: true };
                            } else if k == FailureKind::TargetMissing {
                                self.phase = Phase::ConfirmCreate;
                            } else {
                                self.phase = Phase::Failed {
                                    error: RestoreError::ExecutionFailure { stderr },
                                };
                            }
                        }
                    },
                    _ => {
                        proof {
                            assert(false);
                        }
                    },
                }
            },
            Event::Answered { line } => {
                match &self.phase {
                    Phase::ConfirmCreate => {
                        if is_affirmative(line.as_str()) {
                            self.phase = Phase::Create;
                        } else {
                            self.phase = Phase::Failed { error: RestoreError::UserCancelled };
                        }
                    },
                    Phase::PromptPassword { retry_restore } => {
                        let rr = *retry_restore;
                        self.profile.password = Some(line);
                        self.phase = if rr {
                            Phase::Restore
                        } else {
                            Phase::Create
                        };
                    },
                    _ => {
                        proof {
                            assert(false);
                        }
                    },
                }
            },
        }
    }
}

/// A step never changes the target database, never touches the profile's
/// connection fields, and keeps the machine under a capable profile; only
/// the password-recovery path replaces the password.
pub proof fn lemma_step_preserves_profile(o: RestoreOrchestrator, event: Event)
    requires
        o.wf(),
    ensures
        o.spec_step(event).wf(),
        o.spec_step(event).namedb == o.namedb,
        o.spec_step(event).profile.xhost == o.profile.xhost,
        o.spec_step(event).profile.port == o.profile.port,
        o.spec_step(event).profile.username == o.profile.username,
        o.spec_step(event).profile.container_id == o.profile.container_id,
        o.spec_step(event).profile.dir_backup == o.profile.dir_backup,
        !(o.phase is PromptPassword) ==> o.spec_step(event).profile == o.profile,
{
}

/// The probe's verdict alone decides the branch after the existence check:
/// straight to the restore when the database exists, to the
/// confirm-and-create flow in every other case, a failing probe included.
pub proof fn lemma_probe_branches(
    o: RestoreOrchestrator,
    exit_success: bool,
    stdout: String,
    stderr: String,
)
    requires
        o.phase is Probe,
    ensures
        ({
            let n = o.spec_step(Event::Completed { exit_success, stdout, stderr });
            &&& spec_probe_exists(exit_success, stdout@) ==> n.phase is Restore
            &&& !spec_probe_exists(exit_success, stdout@) ==> n.phase is ConfirmCreate
        }),
{
}

/// Creation happens only behind an affirmative answer: any other answer ends
/// the attempt as cancelled by the operator, and the machine never reaches
/// the creation phase from it.
pub proof fn lemma_confirmation_gates_creation(o: RestoreOrchestrator, line: String)
    requires
        o.phase is ConfirmCreate,
    ensures
        ({
            let n = o.spec_step(Event::Answered { line });
            &&& spec_affirmative(line@) ==> n.phase is Create
            &&& !spec_affirmative(line@) ==> n.phase == (Phase::Failed {
                error: RestoreError::UserCancelled,
            })
            &&& !spec_affirmative(line@) ==> n.spec_terminal()
        }),
{
}

/// A creation failure whose diagnostic text signals a missing credential,
/// while no password was forwarded, prompts for the password exactly once:
/// the answer lands in a fresh profile, creation is retried under it, and a
/// successful retry proceeds to the restore.
pub proof fn lemma_credential_recovery(
    o: RestoreOrchestrator,
    stdout: String,
    stderr: String,
    pw: String,
    stdout2: String,
    stderr2: String,
)
    requires
        o.phase is Create,
        o.profile.password is None,
        spec_classify(stderr@) is CredentialMissing,
    ensures
        ({
            let prompted = o.spec_step(
                Event::Completed { exit_success: false, stdout, stderr },
            );
            let retried = prompted.spec_step(Event::Answered { line: pw });
            let done = retried.spec_step(
                Event::Completed { exit_success: true, stdout: stdout2, stderr: stderr2 },
            );
            &&& prompted.phase == (Phase::PromptPassword { retry_restore: false })
            &&& retried.profile.password == Some(pw)
            &&& retried.phase is Create
            &&& done.phase is Restore
        }),
{
}

/// Once the profile carries a password, no step ever prompts for one again:
/// at most one password prompt occurs per failed operation.
pub proof fn lemma_at_most_one_prompt(o: RestoreOrchestrator, event: Event)
    requires
        o.profile.password is Some,
        o.spec_accepts(event),
    ensures
        o.spec_step(event).profile.password is Some,
        !(o.spec_step(event).phase is PromptPassword),
{
}

/// A restore failure whose diagnostic text signals that the target database
/// does not exist re-enters the confirm-and-create flow for the same
/// database, and a confirmed, successful creation leads straight back to the
/// restore — with no further existence probe on the way.
pub proof fn lemma_missing_database_recovery(
    o: RestoreOrchestrator,
    stdout: String,
    stderr: String,
    ans: String,
    stdout2: String,
    stderr2: String,
)
    requires
        o.phase is Restore,
        spec_classify(stderr@) is TargetMissing,
        spec_affirmative(ans@),
    ensures
        ({
            let confirming = o.spec_step(
                Event::Completed { exit_success: false, stdout, stderr },
            );
            let creating = confirming.spec_step(Event::Answered { line: ans });
            let retried = creating.spec_step(
                Event::Completed { exit_success: true, stdout: stdout2, stderr: stderr2 },
            );
            &&& confirming.phase is ConfirmCreate
            &&& creating.phase is Create
            &&& retried.phase is Restore
            &&& retried.namedb == o.namedb
            &&& !(confirming.phase is Probe) && !(creating.phase is Probe) && !(retried.phase
                is Probe)
        }),
{
}

} // verus!
