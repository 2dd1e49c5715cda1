//! The run itself, as a machine that names one system call at a time.
//!
//! A [`Launch`] is in one [`Stage`] at any moment. In every stage it asks
//! for one thing ([`Launch::request`]): a system call, or, at the end, that
//! the run be ended with a result. The caller makes the system call and
//! reports what it returned ([`Launch::advance`]), which moves the launch to
//! its next stage. What the launch decides depends on nothing else.

use vstd::prelude::*;
use crate::cstring::nul_padded;
use crate::error::RunError;
use crate::image::{is_elf_image, validate_elf_header};
use crate::options::RunOptions;
use crate::path::{build_path, fd_path, EXEC_PATH_LEN};
use crate::vector::{
    argv_error, argv_text, envp_error, prepare_argv, prepare_envp, slots, PreparedArgs,
    PreparedEnv,
};

verus! {

/// The flags the anonymous file is made with: none. Close-on-exec in
/// particular is not asked for, because the image is opened through the
/// descriptor when the process is replaced.
pub const MEMFD_FLAGS: u32 = 0;

/// Where a run stands.
#[derive(Clone, Copy, Debug)]
pub enum Stage {
    /// The anonymous file has been asked for.
    Allocating,
    /// The image is being written to the file.
    Writing { fd: u16 },
    /// The process is being duplicated.
    Forking { fd: u16 },
    /// The process is being replaced. Only a failure leads on from here.
    Replacing { fd: u16 },
    /// The child runs the image and the caller waits for it.
    Waiting { fd: u16, pid: i32 },
    /// The run has failed with `error` and the file is being released.
    Releasing { fd: u16, error: RunError },
    /// The run is over.
    Finished { result: Result<i32, RunError> },
}

/// What a system call returned.
#[derive(Clone, Copy, Debug)]
pub enum Reply {
    /// `memfd_create` returned this: a descriptor, or a negative error.
    MemfdCreate(i32),
    /// `write` returned this: a number of bytes, or a negative error.
    Write(isize),
    /// `close` returned this.
    Close(i32),
    /// `fork` returned this: zero in the child, the child's process id in the
    /// parent, or a negative error.
    Fork(i32),
    /// `execve` returned this, and so has failed.
    Execve(i32),
    /// `wait4` returned `ret`, a process id or a negative error, and stored
    /// `status`.
    Wait4 { ret: i32, status: i32 },
}

/// What a launch asks its caller to do next.
pub enum Request<'a> {
    /// Call `memfd_create` with an empty name and these flags.
    MemfdCreate { flags: u32 },
    /// Call `write` on `fd` with all of `bytes`.
    Write { fd: u16, bytes: &'a [u8] },
    /// Call `close` on `fd`.
    Close { fd: u16 },
    /// Call `fork`.
    Fork,
    /// Call `execve` with this path, argument vector and environment vector.
    Execve { path: [u8; EXEC_PATH_LEN], argv: PreparedArgs, envp: PreparedEnv },
    /// Call `wait4` for `pid`, with no options and no resource usage.
    Wait4 { pid: i32 },
    /// Make no further call: the run has ended with `result`.
    Finish { result: Result<i32, RunError> },
}

/// The descriptor that a non-negative return value of `memfd_create` stands
/// for. Descriptors are kept in sixteen bits, which is as far as the paths of
/// this library go; of a larger value the low sixteen bits are kept.
pub open spec fn descriptor(ret: i32) -> u16 {
    (ret % 0x1_0000) as u16
}

/// A return value that fits in sixteen bits is its own descriptor.
pub proof fn lemma_descriptor(ret: i32)
    requires
        0 <= ret <= u16::MAX,
    ensures
        descriptor(ret) == ret,
{
}

/// The exit code in a wait status: its bits 8 to 15.
pub open spec fn exit_code(status: i32) -> i32 {
    (status >> 8) & 0xff
}

/// What `write` returned, as the unsigned word that `BytesNotWritten`
/// reports: a negative value is read as two's complement.
pub open spec fn written_word(written: isize) -> usize {
    if written >= 0 {
        written as usize
    } else {
        (written + usize::MAX + 1) as usize
    }
}

/// Why the vectors of a run cannot be built from `options`, if they cannot.
/// The argument vector is built first.
pub open spec fn vectors_error(options: RunOptions) -> Option<RunError> {
    match argv_error(options.argv0_text(), options.args_text()) {
        Some(error) => Some(error),
        None => envp_error(options.env_text()),
    }
}

/// The stage of a process that is about to be replaced: it goes on to the
/// replacement if the vectors can be built, and gives up if not.
pub open spec fn replacing(fd: u16, options: RunOptions) -> Stage {
    match vectors_error(options) {
        Some(error) => Stage::Releasing { fd, error },
        None => Stage::Replacing { fd },
    }
}

/// The stage that follows `stage` when `reply` comes in, for a run of `image`
/// with `options`.
///
/// A system call has failed when it returned a negative value, and `execve`
/// when it returned at all. A reply to another call than the one the stage
/// waits for changes nothing, and nothing leads on from `Finished`.
///
/// The file is asked for before the image is looked at: an image that is not
/// accepted costs one allocation and one release. Every failure but that of
/// `memfd_create` passes through `Releasing`. A run that ends with an exit
/// code does not: the caller of a child keeps the descriptor open.
pub open spec fn next_stage(
    image: Seq<u8>,
    options: RunOptions,
    stage: Stage,
    reply: Reply,
) -> Stage {
    match (stage, reply) {
        (Stage::Allocating, Reply::MemfdCreate(ret)) => {
            if ret < 0 {
                Stage::Finished { result: Err(RunError::FdCreationFailed(ret)) }
            } else if !is_elf_image(image) {
                Stage::Releasing { fd: descriptor(ret), error: RunError::InvalidElfFormat }
            } else {
                Stage::Writing { fd: descriptor(ret) }
            }
        },
        (Stage::Writing { fd }, Reply::Write(written)) => {
            if written != image.len() {
                Stage::Releasing {
                    fd,
                    error: RunError::BytesNotWritten(written_word(written), image.len() as usize),
                }
            } else if options.replace {
                replacing(fd, options)
            } else {
                Stage::Forking { fd }
            }
        },
        (Stage::Forking { fd }, Reply::Fork(pid)) => {
            if pid < 0 {
                Stage::Releasing { fd, error: RunError::ForkError(pid) }
            } else if pid == 0 {
                replacing(fd, options)
            } else {
                Stage::Waiting { fd, pid }
            }
        },
        (Stage::Replacing { fd }, Reply::Execve(ret)) => {
            Stage::Releasing { fd, error: RunError::ExecError(ret) }
        },
        (Stage::Waiting { fd, pid }, Reply::Wait4 { ret, status }) => {
            if ret < 0 {
                Stage::Releasing { fd, error: RunError::WaitError(ret) }
            } else {
                Stage::Finished { result: Ok(exit_code(status)) }
            }
        },
        (Stage::Releasing { fd, error }, Reply::Close(_)) => {
            Stage::Finished { result: Err(error) }
        },
        _ => stage,
    }
}

/// Whether `request` is what a run of `image` with `options` asks for in
/// `stage`.
pub open spec fn asks(image: Seq<u8>, options: RunOptions, stage: Stage, request: Request) -> bool {
    match stage {
        Stage::Allocating => request matches Request::MemfdCreate { flags } && flags
            == MEMFD_FLAGS,
        Stage::Writing { fd } => request matches Request::Write { fd: file, bytes } && file
            == fd && bytes@ == image,
        Stage::Forking { .. } => request is Fork,
        Stage::Replacing { fd } => request matches Request::Execve { path, argv, envp } && path@
            == nul_padded(fd_path(fd), EXEC_PATH_LEN as nat) && argv@ == slots(
            argv_text(fd, options.argv0_text(), options.args_text()),
        ) && envp@ == slots(options.env_text()),
        Stage::Waiting { pid, .. } => request matches Request::Wait4 { pid: child } && child
            == pid,
        Stage::Releasing { fd, .. } => request matches Request::Close { fd: file } && file
            == fd,
        Stage::Finished { result } => request matches Request::Finish { result: ended } && ended
            == result,
    }
}

/// A run of one image with one set of options.
pub struct Launch<'a> {
    bytes: &'a [u8],
    options: RunOptions<'a>,
    stage: Stage,
}

impl<'a> Launch<'a> {
    #[verifier::type_invariant]
    spec fn well_formed(&self) -> bool {
        self.stage is Replacing ==> vectors_error(self.options) is None
    }

    /// The image that is run.
    pub closed spec fn image(&self) -> Seq<u8> {
        self.bytes@
    }

    /// The options it is run with.
    pub closed spec fn options(&self) -> RunOptions<'a> {
        self.options
    }

    /// Where the run stands.
    pub closed spec fn stage(&self) -> Stage {
        self.stage
    }

    /// What the launch asks for in the stage it is in. Asking changes
    /// nothing: until a reply is reported, the answer stays the same.
    pub fn request(&self) -> (request: Request<'a>)
        ensures
            asks(self.image(), self.options(), self.stage(), request),
    {
        proof {
            use_type_invariant(self);
        }
        match self.stage {
            Stage::Allocating => Request::MemfdCreate { flags: MEMFD_FLAGS },
            Stage::Writing { fd } => Request::Write { fd, bytes: self.bytes },
            Stage::Forking { .. } => Request::Fork,
            Stage::Replacing { fd } => {
                let path = build_path(fd);
                let argv = match prepare_argv(fd, &self.options) {
                    Ok(argv) => argv,
                    Err(_) => unreached(),
                };
                let envp = match prepare_envp(self.options.env) {
                    Ok(envp) => envp,
                    Err(_) => unreached(),
                };
                Request::Execve { path, argv, envp }
            },
            Stage::Waiting { pid, .. } => Request::Wait4 { pid },
            Stage::Releasing { fd, .. } => Request::Close { fd },
            Stage::Finished { result } => Request::Finish { result },
        }
    }

    /// Reports what the requested system call returned, and moves on.
    pub fn advance(&mut self, reply: Reply)
        ensures
            final(self).image() == old(self).image(),
            final(self).options() == old(self).options(),
            final(self).stage() == next_stage(
                old(self).image(),
                old(self).options(),
                old(self).stage(),
                reply,
            ),
    {
        proof {
            use_type_invariant(&*self);
        }
        let next = match (self.stage, reply) {
            (Stage::Allocating, Reply::MemfdCreate(ret)) => {
                if ret < 0 {
                    Stage::Finished { result: Err(RunError::FdCreationFailed(ret)) }
                } else {
                    let fd = (ret % 0x1_0000) as u16;
                    if validate_elf_header(self.bytes) {
                        Stage::Writing { fd }
                    } else {
                        Stage::Releasing { fd, error: RunError::InvalidElfFormat }
                    }
                }
            },
            (Stage::Writing { fd }, Reply::Write(written)) => {
                let expected = self.bytes.len();
                if written >= 0 && written as usize == expected {
                    if self.options.replace {
                        enter_replacement(fd, &self.options)
                    } else {
                        Stage::Forking { fd }
                    }
                } else {
                    let word = if written >= 0 {
                        written as usize
                    } else {
                        usize::MAX - ((-(written + 1)) as usize)
                    };
                    Stage::Releasing { fd, error: RunError::BytesNotWritten(word, expected) }
                }
            },
            (Stage::Forking { fd }, Reply::Fork(pid)) => {
                if pid < 0 {
                    Stage::Releasing { fd, error: RunError::ForkError(pid) }
                } else if pid == 0 {
                    enter_replacement(fd, &self.options)
                } else {
                    Stage::Waiting { fd, pid }
                }
            },
            (Stage::Replacing { fd }, Reply::Execve(ret)) => {
                Stage::Releasing { fd, error: RunError::ExecError(ret) }
            },
            (Stage::Waiting { fd, pid }, Reply::Wait4 { ret, status }) => {
                if ret < 0 {
                    Stage::Releasing { fd, error: RunError::WaitError(ret) }
                } else {
                    Stage::Finished { result: Ok((status >> 8) & 0xff) }
                }
            },
            (Stage::Releasing { fd, error }, Reply::Close(_)) => {
                Stage::Finished { result: Err(error) }
            },
            (stage, _) => stage,
        };
        self.stage = next;
    }
}

/// Decides how a process that is about to be replaced goes on: the vectors
/// are built once to see whether they can be.
fn enter_replacement(fd: u16, options: &RunOptions<'_>) -> (stage: Stage)
    ensures
        stage == replacing(fd, *options),
{
    match prepare_argv(fd, options) {
        Err(error) => Stage::Releasing { fd, error },
        Ok(_) => match prepare_envp(options.env) {
            Err(error) => Stage::Releasing { fd, error },
            Ok(_) => Stage::Replacing { fd },
        },
    }
}

/// Starts a run of the image in `bytes` with `options`. Nothing has happened
/// yet: the launch asks for the anonymous file first.
pub fn run_with_options<'a>(bytes: &'a [u8], options: RunOptions<'a>) -> (launch: Launch<'a>)
    ensures
        launch.image() == bytes@,
        launch.options() == options,
        launch.stage() == Stage::Allocating,
{
    Launch { bytes, options, stage: Stage::Allocating }
}

/// Starts a run of the image in `bytes` in a child process, without
/// arguments or environment, under the path it is run from.
pub fn run<'a>(bytes: &'a [u8]) -> (launch: Launch<'a>)
    ensures
        launch.image() == bytes@,
        launch.options() == RunOptions::blank(),
        launch.stage() == Stage::Allocating,
{
    run_with_options(bytes, RunOptions::new())
}

} // verus!
