use crate::utils::components_of;
use crate::utils::parent_of;
use crate::utils::spec_rem;
use crate::utils::PathExt;
use crate::utils::PurePath;
use vstd::prelude::*;

verus! {

/// Lifecycle of the child-process slot of a harness.
#[derive(Debug, Clone, Copy, PartialEq, Eq, Structural)]
pub enum ChildState {
    /// No process has been spawned yet.
    NotStarted,
    /// A process is running; the harness owns its handle.
    Running,
    /// The last process was waited for or stopped; the slot is free again.
    Finished,
}

/// The observable outcome of a terminated process: whether termination was
/// successful, and the exit code where the platform supplied one (a process
/// ended by a signal has none).
#[derive(Debug, Clone, Copy, PartialEq, Eq)]
pub struct ExitOutcome {
    pub success: bool,
    pub code: Option<i32>,
}

/// A fatal harness failure: a lifecycle usage error, a construction error,
/// or a declared expectation that the captured outcome did not meet. The
/// expectation variants carry both the expected and the actual value.
#[derive(Debug, Clone, PartialEq, Eq)]
pub enum HarnessError {
    /// `spawn` was requested while a process is already running.
    AlreadySpawned,
    /// `wait` or `stop` was requested with no process running.
    NotSpawned,
    /// The calling-file path has no parent directory.
    NoParentDirectory,
    /// Success was declared but the process did not terminate successfully.
    ExpectedSuccess { status: ExitOutcome },
    /// Failure was declared but the process terminated successfully.
    ExpectedFailure { status: ExitOutcome },
    /// An exact exit code was declared and the actual code differs or is
    /// absent.
    WrongStatusCode { expected: i32, actual: Option<i32> },
    /// Exact stdout bytes were declared and the captured bytes differ.
    WrongStdout { expected: Vec<u8>, actual: Vec<u8> },
    /// Exact stderr bytes were declared and the captured bytes differ.
    WrongStderr { expected: Vec<u8>, actual: Vec<u8> },
}

/// The working directory of a harness: the remainder of the caller's
/// directory after its overlap with the manifest directory; the caller's
/// directory itself when there is no overlap; `.` when the remainder is
/// empty.
pub open spec fn work_dir(manifest: Seq<Seq<char>>, caller_dir: Seq<Seq<char>>) -> Seq<Seq<char>> {
    match spec_rem(manifest, caller_dir) {
        Some(rest) => if rest.len() == 0 {
            seq![seq!['.']]
        } else {
            rest
        },
        None => caller_dir,
    }
}

/// Builder and lifecycle manager for one child-process invocation:
/// configures program, arguments, working directory, input and declared
/// expectations, then tracks the spawn/wait/stop lifecycle and validates
/// the captured outcome.
#[derive(Debug)]
pub struct Command {
    /// Path or name of the program to execute.
    pub program: String,
    /// Arguments passed to the spawned program, in order.
    pub program_args: Vec<String>,
    /// Directory the program is executed in.
    pub current_dir: PurePath,
    /// Lifecycle of the child-process slot.
    pub state: ChildState,
    /// Raw bytes to write to the child's standard input, if declared.
    pub stdin: Option<Vec<u8>>,
    /// Captured standard output of the last terminated process.
    pub stdout: Vec<u8>,
    /// Captured standard error of the last terminated process.
    pub stderr: Vec<u8>,
    /// Exit outcome of the last terminated process.
    pub status: ExitOutcome,
    /// Whether successful termination is expected.
    pub expected_success: Option<bool>,
    /// Whether unsuccessful termination is expected.
    pub expected_failure: Option<bool>,
    /// Expected exit code.
    pub expected_status: Option<i32>,
    /// Expected exact stdout bytes.
    pub expected_stdout: Option<Vec<u8>>,
    /// Expected exact stderr bytes.
    pub expected_stderr: Option<Vec<u8>>,
}

impl Command {
    /// The identity fields agree: program, arguments, working directory.
    pub open spec fn same_setup(self, o: Command) -> bool {
        &&& self.program == o.program
        &&& self.program_args == o.program_args
        &&& self.current_dir == o.current_dir
    }

    /// The lifecycle and captured-run fields agree.
    pub open spec fn same_run_state(self, o: Command) -> bool {
        &&& self.state == o.state
        &&& self.stdin == o.stdin
        &&& self.stdout == o.stdout
        &&& self.stderr == o.stderr
        &&& self.status == o.status
    }

    /// The declared expectations agree.
    pub open spec fn same_expectations(self, o: Command) -> bool {
        &&& self.expected_success == o.expected_success
        &&& self.expected_failure == o.expected_failure
        &&& self.expected_status == o.expected_status
        &&& self.expected_stdout == o.expected_stdout
        &&& self.expected_stderr == o.expected_stderr
    }

    /// At most one of the success and failure expectations is set.
    pub open spec fn expectations_consistent(self) -> bool {
        !(self.expected_success is Some && self.expected_failure is Some)
    }

    /// The declared success expectation is violated.
    pub open spec fn success_mismatch(self) -> bool {
        self.expected_success == Some(true) && !self.status.success
    }

    /// The declared failure expectation is violated.
    pub open spec fn failure_mismatch(self) -> bool {
        self.expected_failure == Some(true) && self.status.success
    }

    /// The declared exit-code expectation is violated; an absent code
    /// (signal termination) violates it as well.
    pub open spec fn code_mismatch(self) -> bool {
        match self.expected_status {
            Some(expected) => self.status.code != Some(expected),
            None => false,
        }
    }

    /// The declared exact-stdout expectation is violated.
    pub open spec fn stdout_mismatch(self) -> bool {
        match self.expected_stdout {
            Some(expected) => expected@ != self.stdout@,
            None => false,
        }
    }

    /// The declared exact-stderr expectation is violated.
    pub open spec fn stderr_mismatch(self) -> bool {
        match self.expected_stderr {
            Some(expected) => expected@ != self.stderr@,
            None => false,
        }
    }

    /// Every declared expectation is met by the captured outcome; an unset
    /// expectation imposes no constraint.
    pub open spec fn all_expectations_met(self) -> bool {
        &&& !self.success_mismatch()
        &&& !self.failure_mismatch()
        &&& !self.code_mismatch()
        &&& !self.stdout_mismatch()
        &&& !self.stderr_mismatch()
    }

    /// How the outcome comparison reports: `Ok` exactly when every declared
    /// expectation is met, otherwise the first mismatched expectation in
    /// order (success, failure, exit code, stdout, stderr) with expected and actual values.
    pub open spec fn mismatch_report(self, r: Result<(), HarnessError>) -> bool {
        if self.success_mismatch() {
            r == Err::<(), HarnessError>(HarnessError::ExpectedSuccess { status: self.status })
        } else if self.failure_mismatch() {
            r == Err::<(), HarnessError>(HarnessError::ExpectedFailure { status: self.status })
        } else if self.code_mismatch() {
            r == Err::<(), HarnessError>(
                HarnessError::WrongStatusCode {
                    expected: self.expected_status.unwrap(),
                    actual: self.status.code,
                },
            )
        } else if self.stdout_mismatch() {
            r matches Err(HarnessError::WrongStdout { expected, actual }) && expected@
                == self.expected_stdout.unwrap()@ && actual@ == self.stdout@
        } else if self.stderr_mismatch() {
            r matches Err(HarnessError::WrongStderr { expected, actual }) && expected@
                == self.expected_stderr.unwrap()@ && actual@ == self.stderr@
        } else {
            r is Ok
        }
    }
}

/// Whether two byte vectors hold the same bytes.
fn bytes_equal(a: &Vec<u8>, b: &Vec<u8>) -> (r: bool)
    ensures
        r == (a@ == b@),
{
    if a.len() != b.len() {
        return false;
    }
    let mut i: usize = 0;
    while i < a.len()
        invariant
            i <= a@.len(),
            a@.len() == b@.len(),
            forall|j: int| 0 <= j < i ==> a@[j] == b@[j],
        decreases a@.len() - i,
    {
        if a[i] != b[i] {
            return false;
        }
        i = i + 1;
    }
    proof {
        assert(a@ =~= b@);
    }
    true
}

/// Builds the path `.`, the rendering of an empty remainder.
fn dot_path() -> (r: PurePath)
    ensures
        r@ == seq![seq!['.']],
{
    let mut name = String::new();
    name.push('.');
    let mut parts: Vec<String> = Vec::new();
    parts.push(name);
    let r = PurePath { parts };
    proof {
        assert(r@ =~= seq![seq!['.']]);
    }
    r
}

impl Command {
    /// Builds a harness for `program`. The working directory is derived
    /// from the manifest directory and the parent directory of the calling
    /// file; a calling-file path without a parent is a fatal construction
    /// error.
    pub fn new(program: &str, caller_file: &str, manifest_dir: &str) -> (r: Result<
        Command,
        HarnessError,
    >)
        ensures
            r is Err <==> parent_of(components_of(caller_file@)) is None,
            r is Err ==> r == Err::<Command, HarnessError>(HarnessError::NoParentDirectory),
            (r matches Ok(c) ==> {
                &&& c.program@ == program@
                &&& c.program_args@ == Seq::<String>::empty()
                &&& c.current_dir@ == work_dir(
                    components_of(manifest_dir@),
                    parent_of(components_of(caller_file@)).unwrap(),
                )
                &&& c.state == ChildState::NotStarted
                &&& c.stdin is None
                &&& c.stdout@ == Seq::<u8>::empty()
                &&& c.stderr@ == Seq::<u8>::empty()
                &&& c.status == (ExitOutcome { success: true, code: Some(0) })
                &&& c.expected_success is None
                &&& c.expected_failure is None
                &&& c.expected_status is None
                &&& c.expected_stdout is None
                &&& c.expected_stderr is None
            }),
    {
        let caller = PurePath::parse(caller_file);
        match caller.parent() {
            None => Err(HarnessError::NoParentDirectory),
            Some(caller_dir) => {
                let manifest = PurePath::parse(manifest_dir);
                let current_dir = match manifest.rem(&caller_dir) {
                    None => caller_dir,
                    Some(rest) => {
                        if rest.len() == 0 {
                            dot_path()
                        } else {
                            rest
                        }
                    },
                };
                Ok(
                    Command {
                        program: program.to_owned(),
                        program_args: Vec::new(),
                        current_dir,
                        state: ChildState::NotStarted,
                        stdin: None,
                        stdout: Vec::new(),
                        stderr: Vec::new(),
                        status: ExitOutcome { success: true, code: Some(0) },
                        expected_success: None,
                        expected_failure: None,
                        expected_status: None,
                        expected_stdout: None,
                        expected_stderr: None,
                    },
                )
            },
        }
    }

    /// Appends one argument to the ordered argument list.
    pub fn arg(self, arg: String) -> (r: Command)
        ensures
            r.program_args@ == self.program_args@.push(arg),
            r.program == self.program,
            r.current_dir == self.current_dir,
            r.same_run_state(self),
            r.same_expectations(self),
    {
        let mut r = self;
        r.program_args.push(arg);
        r
    }

    /// Declares that the process is expected to terminate successfully;
    /// clears any failure expectation.
    pub fn success(self) -> (r: Command)
        ensures
            r.expected_success == Some(true),
            r.expected_failure is None,
            r.expected_status == self.expected_status,
            r.expected_stdout == self.expected_stdout,
            r.expected_stderr == self.expected_stderr,
            r.same_setup(self),
            r.same_run_state(self),
            r.expectations_consistent(),
    {
        let mut r = self;
        r.expected_success = Some(true);
        r.expected_failure = None;
        r
    }

    /// Declares that the process is expected to terminate unsuccessfully;
    /// clears any success expectation.
    pub fn failure(self) -> (r: Command)
        ensures
            r.expected_failure == Some(true),
            r.expected_success is None,
            r.expected_status == self.expected_status,
            r.expected_stdout == self.expected_stdout,
            r.expected_stderr == self.expected_stderr,
            r.same_setup(self),
            r.same_run_state(self),
            r.expectations_consistent(),
    {
        let mut r = self;
        r.expected_failure = Some(true);
        r.expected_success = None;
        r
    }

    /// Declares the exact exit code expected.
    pub fn code(self, code: i32) -> (r: Command)
        ensures
            r.expected_status == Some(code),
            r.expected_success == self.expected_success,
            r.expected_failure == self.expected_failure,
            r.expected_stdout == self.expected_stdout,
            r.expected_stderr == self.expected_stderr,
            r.same_setup(self),
            r.same_run_state(self),
    {
        let mut r = self;
        r.expected_status = Some(code);
        r
    }

    /// Declares the raw bytes to write to the child's standard input.
    pub fn stdin(self, bytes: Vec<u8>) -> (r: Command)
        ensures
            r.stdin == Some(bytes),
            r.state == self.state,
            r.stdout == self.stdout,
            r.stderr == self.stderr,
            r.status == self.status,
            r.same_setup(self),
            r.same_expectations(self),
    {
        let mut r = self;
        r.stdin = Some(bytes);
        r
    }

    /// Declares the exact stdout bytes expected.
    pub fn stdout(self, bytes: Vec<u8>) -> (r: Command)
        ensures
            r.expected_stdout == Some(bytes),
            r.expected_success == self.expected_success,
            r.expected_failure == self.expected_failure,
            r.expected_status == self.expected_status,
            r.expected_stderr == self.expected_stderr,
            r.same_setup(self),
            r.same_run_state(self),
    {
        let mut r = self;
        r.expected_stdout = Some(bytes);
        r
    }

    /// Declares the exact stderr bytes expected.
    pub fn stderr(self, bytes: Vec<u8>) -> (r: Command)
        ensures
            r.expected_stderr == Some(bytes),
            r.expected_success == self.expected_success,
            r.expected_failure == self.expected_failure,
            r.expected_status == self.expected_status,
            r.expected_stdout == self.expected_stdout,
            r.same_setup(self),
            r.same_run_state(self),
    {
        let mut r = self;
        r.expected_stderr = Some(bytes);
        r
    }

    /// Checks every declared expectation against the captured outcome: the
    /// assertion pass that runs at the end of a wait.
    pub fn check(&self) -> (r: Result<(), HarnessError>)
        ensures
            self.mismatch_report(r),
            r is Ok <==> self.all_expectations_met(),
    {
        if let Some(true) = self.expected_success {
            if !self.status.success {
                return Err(HarnessError::ExpectedSuccess { status: self.status });
            }
        }
        if let Some(true) = self.expected_failure {
            if self.status.success {
                return Err(HarnessError::ExpectedFailure { status: self.status });
            }
        }
        if let Some(expected) = self.expected_status {
            let code_ok = match self.status.code {
                Some(actual) => actual == expected,
                None => false,
            };
            if !code_ok {
                return Err(
                    HarnessError::WrongStatusCode { expected, actual: self.status.code },
                );
            }
        }
        if let Some(expected) = &self.expected_stdout {
            if !bytes_equal(expected, &self.stdout) {
                return Err(
                    HarnessError::WrongStdout {
                        expected: expected.clone(),
                        actual: self.stdout.clone(),
                    },
                );
            }
        }
        if let Some(expected) = &self.expected_stderr {
            if !bytes_equal(expected, &self.stderr) {
                return Err(
                    HarnessError::WrongStderr {
                        expected: expected.clone(),
                        actual: self.stderr.clone(),
                    },
                );
            }
        }
        Ok(())
    }

    /// The decision half of `spawn`: admits a launch only while no process
    /// is running, and marks the harness as running. Launching the process
    /// and feeding its standard input are the caller's outside work.
    pub fn begin_spawn(&mut self) -> (r: Result<(), HarnessError>)
        ensures
            r is Ok <==> old(self).state != ChildState::Running,
            r is Err ==> r == Err::<(), HarnessError>(HarnessError::AlreadySpawned) && *final(self)
                == *old(self),
            r is Ok ==> {
                &&& final(self).state == ChildState::Running
                &&& final(self).same_setup(*old(self))
                &&& final(self).same_expectations(*old(self))
                &&& final(self).stdin == old(self).stdin
                &&& final(self).stdout == old(self).stdout
                &&& final(self).stderr == old(self).stderr
                &&& final(self).status == old(self).status
            },
    {
        match self.state {
            ChildState::Running => Err(HarnessError::AlreadySpawned),
            _ => {
                self.state = ChildState::Running;
                Ok(())
            },
        }
    }

    /// The recording half of `wait`: admitted only while a process is
    /// running; stores the captured streams and exit outcome, frees the
    /// running slot, and immediately checks every declared expectation.
    pub fn finish_wait(&mut self, status: ExitOutcome, stdout: Vec<u8>, stderr: Vec<u8>) -> (r:
        Result<(), HarnessError>)
        ensures
            old(self).state != ChildState::Running ==> r == Err::<(), HarnessError>(
                HarnessError::NotSpawned,
            ) && *final(self) == *old(self),
            old(self).state == ChildState::Running ==> {
                &&& final(self).state == ChildState::Finished
                &&& final(self).stdout == stdout
                &&& final(self).stderr == stderr
                &&& final(self).status == status
                &&& final(self).stdin == old(self).stdin
                &&& final(self).same_setup(*old(self))
                &&& final(self).same_expectations(*old(self))
                &&& final(self).mismatch_report(r)
                &&& (r is Ok <==> final(self).all_expectations_met())
            },
    {
        match self.state {
            ChildState::Running => {
                self.stdout = stdout;
                self.stderr = stderr;
                self.status = status;
                self.state = ChildState::Finished;
                self.check()
            },
            _ => Err(HarnessError::NotSpawned),
        }
    }

    /// The decision half of `stop`: admits a forced termination only while
    /// a process is running, and frees the running slot without checking
    /// any expectation. Killing the process is the caller's outside work.
    pub fn begin_stop(&mut self) -> (r: Result<(), HarnessError>)
        ensures
            r is Ok <==> old(self).state == ChildState::Running,
            r is Err ==> r == Err::<(), HarnessError>(HarnessError::NotSpawned) && *final(self)
                == *old(self),
            r is Ok ==> {
                &&& final(self).state == ChildState::Finished
                &&& final(self).same_setup(*old(self))
                &&& final(self).same_expectations(*old(self))
                &&& final(self).stdin == old(self).stdin
                &&& final(self).stdout == old(self).stdout
                &&& final(self).stderr == old(self).stderr
                &&& final(self).status == old(self).status
            },
    {
        match self.state {
            ChildState::Running => {
                self.state = ChildState::Finished;
                Ok(())
            },
            _ => Err(HarnessError::NotSpawned),
        }
    }

    /// The program identifier.
    pub fn get_program(&self) -> (r: &str)
        ensures
            r@ == self.program@,
    {
        self.program.as_str()
    }

    /// The directory the program is executed in.
    pub fn get_current_dir(&self) -> (r: &PurePath)
        ensures
            *r == self.current_dir,
    {
        &self.current_dir
    }

    /// Captured stdout of the last terminated process, raw.
    pub fn get_stdout_raw(&self) -> (r: &Vec<u8>)
        ensures
            *r == self.stdout,
    {
        &self.stdout
    }

    /// Captured stderr of the last terminated process, raw.
    pub fn get_stderr_raw(&self) -> (r: &Vec<u8>)
        ensures
            *r == self.stderr,
    {
        &self.stderr
    }

    /// Exit outcome of the last terminated process.
    pub fn get_status(&self) -> (r: ExitOutcome)
        ensures
            r == self.status,
    {
        self.status
    }

    /// Captured stdout as best-effort text; raw bytes stay the source of
    /// truth for expectations.
    pub fn get_stdout(&self) -> (r: String)
        ensures
            r@ == lossy_text_of(self.stdout@),
    {
        lossy_text(&self.stdout)
    }

    /// Captured stderr as best-effort text; raw bytes stay the source of
    /// truth for expectations.
    pub fn get_stderr(&self) -> (r: String)
        ensures
            r@ == lossy_text_of(self.stderr@),
    {
        lossy_text(&self.stderr)
    }
}

/// The text that best-effort UTF-8 decoding produces from these bytes.
pub uninterp spec fn lossy_text_of(bytes: Seq<u8>) -> Seq<char>;

/// Relies on `String::from_utf8_lossy`: the conversion never fails, its
/// result depends on the bytes alone, and bytes that are the valid UTF-8
/// encoding of a character sequence decode back to exactly that sequence.
#[verifier::external_body]
fn lossy_text(bytes: &Vec<u8>) -> (r: String)
    ensures
        r@ == lossy_text_of(bytes@),
        forall|s: Seq<char>| bytes@ == #[trigger] vstd::utf8::encode_utf8(s) ==> r@ == s,
{
    String::from_utf8_lossy(bytes.as_slice()).into_owned()
}

} // verus!
