//! Command descriptors and what becomes of the processes started from them.

use vstd::prelude::*;
use vstd::utf8::{
    decode_utf8, encode_utf8, encode_utf8_decode_utf8, encode_utf8_valid_utf8, valid_utf8,
};

verus! {

/// The texts of a list of owned strings, in order.
pub open spec fn texts(items: Seq<String>) -> Seq<Seq<char>> {
    items.map_values(|s: String| s@)
}

/// The texts of a list of borrowed strings, in order.
pub open spec fn slice_texts(items: Seq<&str>) -> Seq<Seq<char>> {
    items.map_values(|s: &str| s@)
}

/// The message that reports a command that could not be started.
pub open spec fn failure_text(program: Seq<char>) -> Seq<char> {
    "failed to execute command "@ + program
}

/// A program and the arguments to start it with.
///
/// Building one checks nothing: a program that does not exist only shows
/// when it is started. A descriptor never changes, and may be used for any
/// number of executions.
#[derive(Debug)]
pub struct Command {
    cmd: String,
    args: Vec<String>,
    expect: String,
}

impl Command {
    #[verifier::type_invariant]
    spec fn inv(&self) -> bool {
        self.expect@ == failure_text(self.cmd@)
    }

    /// The program's name or path.
    pub closed spec fn program(&self) -> Seq<char> {
        self.cmd@
    }

    /// The arguments, in the order in which the program gets them.
    pub closed spec fn arguments(&self) -> Seq<Seq<char>> {
        texts(self.args@)
    }

    /// A descriptor that holds `cmd` and `args` as given.
    pub fn new(cmd: &str, args: &Vec<&str>) -> (command: Command)
        ensures
            command.program() == cmd@,
            command.arguments() == slice_texts(args@),
    {
        let mut owned: Vec<String> = Vec::new();
        let mut i: usize = 0;
        while i < args.len()
            invariant
                i <= args.len(),
                owned@.len() == i,
                forall|j: int| 0 <= j < i ==> owned@[j]@ == args@[j]@,
            decreases args.len() - i,
        {
            owned.push(String::from_str(args[i]));
            i = i + 1;
        }
        assert(texts(owned@) =~= slice_texts(args@));
        let expect = String::from_str("failed to execute command ").concat(cmd);
        Command { cmd: String::from_str(cmd), args: owned, expect }
    }

    /// The program's name or path.
    pub fn cmd(&self) -> (program: &str)
        ensures
            program@ == self.program(),
    {
        self.cmd.as_str()
    }

    /// The arguments, in order.
    pub fn args(&self) -> (arguments: &Vec<String>)
        ensures
            texts(arguments@) == self.arguments(),
    {
        &self.args
    }

    /// The message to fail with when the program cannot be started.
    pub fn failure_message(&self) -> (message: &str)
        ensures
            message@ == failure_text(self.program()),
    {
        proof {
            use_type_invariant(self);
        }
        self.expect.as_str()
    }
}

/// What lenient decoding makes of a run of bytes: the text that
/// `String::from_utf8_lossy` gives for them, with each malformed
/// sequence replaced by U+FFFD.
pub uninterp spec fn lossy_text(bytes: Seq<u8>) -> Seq<char>;

/// Decodes `bytes` with `String::from_utf8_lossy`.
///
/// Trusted: the result is the lenient decoding of `bytes`, and bytes that
/// are well-formed UTF-8 come back as they are, as the bytes of the text.
/// The decoding never fails.
#[verifier::external_body]
fn decode_lossy(bytes: &[u8]) -> (text: String)
    ensures
        text@ == lossy_text(bytes@),
        valid_utf8(bytes@) ==> encode_utf8(text@) == bytes@,
{
    String::from_utf8_lossy(bytes).into_owned()
}

/// The text that a process wrote as `bytes`.
fn capture(bytes: &[u8]) -> (text: String)
    ensures
        text@ == lossy_text(bytes@),
        valid_utf8(bytes@) ==> text@ == decode_utf8(bytes@),
{
    let text = decode_lossy(bytes);
    proof {
        encode_utf8_decode_utf8(text@);
    }
    text
}

/// The log entry of a result with the given texts.
pub open spec fn log_text(status: Seq<char>, stdout: Seq<char>, stderr: Seq<char>) -> Seq<char> {
    "status: "@ + status + "\n"@ + "stdout:\n"@ + stdout + "\n"@ + "stderr:\n"@ + stderr
        + "\n"@
}

/// What a process left behind when it ran to its end.
#[derive(Debug)]
pub struct Output {
    /// The exit code, or `None` if the process did not exit by itself.
    pub code: Option<i32>,
    /// How the process ended, in words.
    pub status: String,
    /// What the process wrote to its standard output.
    pub stdout: String,
    /// What the process wrote to its standard error.
    pub stderr: String,
}

impl Output {
    /// The process ended well: it exited by itself, with code zero.
    pub open spec fn succeeded(&self) -> bool {
        self.code == Some(0i32)
    }

    /// The result of a process that ended as `status` describes, with exit
    /// code `code`, after writing `stdout` and `stderr`. Both are decoded
    /// leniently, so bytes that are no UTF-8 never make this fail.
    pub fn new(status: &str, code: Option<i32>, stdout: &[u8], stderr: &[u8]) -> (output: Output)
        ensures
            output.code == code,
            output.succeeded() <==> code == Some(0i32),
            output.status@ == status@,
            output.stdout@ == lossy_text(stdout@),
            output.stderr@ == lossy_text(stderr@),
            valid_utf8(stdout@) ==> output.stdout@ == decode_utf8(stdout@),
            valid_utf8(stderr@) ==> output.stderr@ == decode_utf8(stderr@),
    {
        Output {
            code,
            status: String::from_str(status),
            stdout: capture(stdout),
            stderr: capture(stderr),
        }
    }

    /// The log entry: the status, then the two captured texts under their
    /// headings, each ending its line.
    pub fn log(&self) -> (entry: String)
        ensures
            entry@ == log_text(self.status@, self.stdout@, self.stderr@),
    {
        let mut entry = String::from_str("status: ");
        entry.append(self.status.as_str());
        entry.append("\n");
        entry.append("stdout:\n");
        entry.append(self.stdout.as_str());
        entry.append("\n");
        entry.append("stderr:\n");
        entry.append(self.stderr.as_str());
        entry.append("\n");
        entry
    }

    /// Whether the process exited by itself with code zero.
    pub fn success(&self) -> (succeeded: bool)
        ensures
            succeeded == self.succeeded(),
    {
        match self.code {
            Some(code) => code == 0,
            None => false,
        }
    }
}

/// Capture is exact for well-formed output: where a process wrote the
/// UTF-8 encoding of `text`, what the result holds is `text`, unchanged.
pub proof fn lemma_capture_is_exact(text: Seq<char>, written: Seq<u8>, captured: Seq<char>)
    requires
        written == encode_utf8(text),
        valid_utf8(written) ==> captured == decode_utf8(written),
    ensures
        valid_utf8(written),
        captured == text,
{
    encode_utf8_valid_utf8(text);
    encode_utf8_decode_utf8(text);
}

/// `nix::errno::Errno`: the errors that the system reports, one variant
/// for each.
#[verifier::external_type_specification]
pub struct ExErrno(nix::errno::Errno);

/// Why an interrupt could not be delivered.
#[derive(Debug, Clone, Copy, PartialEq, Eq)]
pub enum KillError {
    /// No process has the recorded identifier: it has exited, for one.
    NoSuchProcess,
    /// The caller is not allowed to signal the process.
    PermissionDenied,
    /// Any other failure, as the system reported it.
    Other(nix::errno::Errno),
}

impl KillError {
    /// The error that stands for `errno`.
    pub open spec fn of(errno: nix::errno::Errno) -> KillError {
        match errno {
            nix::errno::Errno::ESRCH => KillError::NoSuchProcess,
            nix::errno::Errno::EPERM => KillError::PermissionDenied,
            other => KillError::Other(other),
        }
    }

    /// An error that a variant of its own stands for is not held as
    /// `Other`.
    pub open spec fn wf(self) -> bool {
        self matches KillError::Other(errno) ==> errno != nix::errno::Errno::ESRCH && errno
            != nix::errno::Errno::EPERM
    }

    /// The error that stands for what the system reported.
    pub fn from_errno(errno: nix::errno::Errno) -> (error: KillError)
        ensures
            error == KillError::of(errno),
            error.wf(),
    {
        match errno {
            nix::errno::Errno::ESRCH => KillError::NoSuchProcess,
            nix::errno::Errno::EPERM => KillError::PermissionDenied,
            other => KillError::Other(other),
        }
    }
}

/// What a caller gets for an attempt to deliver a signal: success where
/// the system accepted it, and else the error that stands for the system's.
pub open spec fn outcome(delivery: Result<(), nix::errno::Errno>) -> Result<(), KillError> {
    match delivery {
        Ok(()) => Ok(()),
        Err(errno) => Err(KillError::of(errno)),
    }
}

/// Turns what the system answered to a signal into what the caller gets.
pub fn delivery_outcome(delivery: Result<(), nix::errno::Errno>) -> (result: Result<(), KillError>)
    ensures
        result == outcome(delivery),
        result is Ok <==> delivery is Ok,
        result matches Err(error) ==> error.wf(),
{
    match delivery {
        Ok(()) => Ok(()),
        Err(errno) => Err(KillError::from_errno(errno)),
    }
}

/// Sends the interrupt signal to the process `pid` with
/// `nix::sys::signal::kill`.
///
/// Trusted: nothing is claimed of the outcome, which depends on what runs
/// on the machine at that moment. The caller names one process: zero and
/// negative numbers, which would reach whole groups of processes, are
/// left out.
#[verifier::external_body]
fn send_interrupt(pid: i32) -> (delivery: Result<(), nix::errno::Errno>)
    requires
        pid > 0,
{
    nix::sys::signal::kill(nix::unistd::Pid::from_raw(pid), nix::sys::signal::Signal::SIGINT)
}

/// A process that was started and left running, known by its identifier.
///
/// The handle cannot be copied: whoever holds it is the one to cancel the
/// process.
#[derive(Debug)]
pub struct Stream {
    id: i32,
}

impl Stream {
    #[verifier::type_invariant]
    spec fn inv(&self) -> bool {
        self.id > 0
    }

    /// The identifier that the system gave the process.
    pub closed spec fn process_id(&self) -> int {
        self.id as int
    }

    /// The handle of the process with identifier `process_id`, if that can
    /// be the identifier of one process: a positive number that a signed
    /// 32-bit integer holds.
    pub fn new(process_id: u32) -> (stream: Option<Stream>)
        ensures
            stream is Some <==> 0 < process_id <= i32::MAX,
            stream matches Some(s) ==> s.process_id() == process_id,
    {
        if 0 < process_id && process_id <= 2147483647u32 {
            Some(Stream { id: process_id as i32 })
        } else {
            None
        }
    }

    /// The identifier that the system gave the process.
    pub fn id(&self) -> (id: i32)
        ensures
            id == self.process_id(),
            id > 0,
    {
        proof {
            use_type_invariant(self);
        }
        self.id
    }

    /// Asks the process to end, by sending it the interrupt signal, and
    /// does not wait for it to do so.
    ///
    /// Whether the signal is delivered depends on the machine: on a process
    /// that has exited, or that the caller may not signal, this returns the
    /// error and does nothing else. The handle stays as it was.
    pub fn kill(&mut self) -> (delivery: Result<(), KillError>)
        ensures
            final(self).process_id() == old(self).process_id(),
            delivery matches Err(error) ==> error.wf(),
    {
        proof {
            use_type_invariant(&*self);
        }
        delivery_outcome(send_interrupt(self.id))
    }
}

} // verus!
