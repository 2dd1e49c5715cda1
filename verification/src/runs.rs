//! What holds of whole runs, whatever the system calls return.

use vstd::prelude::*;
use crate::error::RunError;
use crate::image::is_elf_image;
use crate::launch::{descriptor, exit_code, next_stage, vectors_error, Reply, Stage};
use crate::options::RunOptions;

verus! {

/// The stage that a run reaches from `stage` when `replies` come in, in
/// their order.
pub open spec fn stage_after(
    image: Seq<u8>,
    options: RunOptions,
    stage: Stage,
    replies: Seq<Reply>,
) -> Stage
    decreases replies.len(),
{
    if replies.len() == 0 {
        stage
    } else {
        stage_after(
            image,
            options,
            next_stage(image, options, stage, replies.first()),
            replies.drop_first(),
        )
    }
}

/// The stages of a run whose image was not accepted: it waits for the file,
/// releases it, or has ended, with `InvalidElfFormat` or because the file
/// could not be had.
pub open spec fn refused(stage: Stage) -> bool {
    match stage {
        Stage::Allocating => true,
        Stage::Releasing { error, .. } => error == RunError::InvalidElfFormat,
        Stage::Finished { result } => result == Err::<i32, RunError>(RunError::InvalidElfFormat)
            || (result matches Err(RunError::FdCreationFailed(ret)) && ret < 0),
        _ => false,
    }
}

/// What holds of a stage in every run: the image is written, and the process
/// duplicated or replaced, only where the image was accepted; the process is
/// duplicated only where the options do not ask to replace the caller; and it
/// is replaced only where the vectors can be built.
pub open spec fn orderly(image: Seq<u8>, options: RunOptions, stage: Stage) -> bool {
    match stage {
        Stage::Allocating | Stage::Releasing { .. } | Stage::Finished { .. } => true,
        Stage::Writing { .. } => is_elf_image(image),
        Stage::Forking { .. } | Stage::Waiting { .. } => is_elf_image(image) && !options.replace,
        Stage::Replacing { .. } => is_elf_image(image) && vectors_error(options) is None,
    }
}

/// The descriptor that a stage holds, if it holds one.
pub open spec fn held(stage: Stage) -> Option<u16> {
    match stage {
        Stage::Allocating | Stage::Finished { .. } => None,
        Stage::Writing { fd } | Stage::Forking { fd } | Stage::Replacing { fd } | Stage::Waiting {
            fd,
            ..
        } | Stage::Releasing { fd, .. } => Some(fd),
    }
}

proof fn lemma_refused_is_kept(
    image: Seq<u8>,
    options: RunOptions,
    stage: Stage,
    replies: Seq<Reply>,
)
    requires
        !is_elf_image(image),
        refused(stage),
    ensures
        refused(stage_after(image, options, stage, replies)),
    decreases replies.len(),
{
    if replies.len() > 0 {
        lemma_refused_is_kept(
            image,
            options,
            next_stage(image, options, stage, replies.first()),
            replies.drop_first(),
        );
    }
}

/// A run of an image that is too short or does not start with the magic
/// bytes never writes the image, never duplicates the process and never
/// replaces it, whatever the system calls return. It ends, if it ends, with
/// `InvalidElfFormat`, or with `FdCreationFailed` where `memfd_create`
/// itself failed.
pub proof fn lemma_invalid_image_is_refused(
    image: Seq<u8>,
    options: RunOptions,
    replies: Seq<Reply>,
)
    requires
        !is_elf_image(image),
    ensures
        refused(stage_after(image, options, Stage::Allocating, replies)),
{
    lemma_refused_is_kept(image, options, Stage::Allocating, replies);
}

/// Once the file of an image that is not accepted has been allocated, the
/// run asks for its release and then ends with `InvalidElfFormat`.
pub proof fn lemma_invalid_image_after_allocation(
    image: Seq<u8>,
    options: RunOptions,
    ret: i32,
    status: i32,
)
    requires
        !is_elf_image(image),
        ret >= 0,
    ensures
        stage_after(image, options, Stage::Allocating, seq![Reply::MemfdCreate(ret)])
            == (Stage::Releasing { fd: descriptor(ret), error: RunError::InvalidElfFormat }),
        stage_after(
            image,
            options,
            Stage::Allocating,
            seq![Reply::MemfdCreate(ret), Reply::Close(status)],
        ) == (Stage::Finished { result: Err(RunError::InvalidElfFormat) }),
{
    reveal_with_fuel(stage_after, 3);
    let one = seq![Reply::MemfdCreate(ret)];
    let two = seq![Reply::MemfdCreate(ret), Reply::Close(status)];
    assert(one.drop_first() =~= Seq::empty());
    assert(two.drop_first() =~= seq![Reply::Close(status)]);
    assert(two.drop_first().drop_first() =~= Seq::empty());
}

proof fn lemma_orderly_is_kept(
    image: Seq<u8>,
    options: RunOptions,
    stage: Stage,
    replies: Seq<Reply>,
)
    requires
        orderly(image, options, stage),
    ensures
        orderly(image, options, stage_after(image, options, stage, replies)),
    decreases replies.len(),
{
    if replies.len() > 0 {
        lemma_orderly_is_kept(
            image,
            options,
            next_stage(image, options, stage, replies.first()),
            replies.drop_first(),
        );
    }
}

/// Whatever the system calls return, a run writes the image and duplicates
/// or replaces the process only with an image that was accepted, duplicates
/// the process only where it was not asked to replace the caller, and
/// replaces the process only with options whose vectors can be built.
pub proof fn lemma_runs_are_orderly(image: Seq<u8>, options: RunOptions, replies: Seq<Reply>)
    ensures
        orderly(image, options, stage_after(image, options, Stage::Allocating, replies)),
{
    lemma_orderly_is_kept(image, options, Stage::Allocating, replies);
}

/// The process is duplicated or replaced only after `write` has returned the
/// full length of the image: a step leads into `Forking` or `Replacing` from
/// no other stage than `Writing` on that reply, or, into `Replacing`, from
/// `Forking` in the child.
pub proof fn lemma_replaced_after_written(
    image: Seq<u8>,
    options: RunOptions,
    stage: Stage,
    reply: Reply,
)
    ensures
        ({
            let next = next_stage(image, options, stage, reply);
            let written = Reply::Write(image.len() as isize);
            &&& next is Forking && !(stage is Forking) ==> stage is Writing && reply == written
                && !options.replace
            &&& next is Replacing && !(stage is Replacing) ==> (stage is Writing && reply
                == written && options.replace) || (stage is Forking && reply == Reply::Fork(0))
        }),
{
}

/// Whether a step from `stage` on `reply` can end the run with `error`: out
/// of `Releasing` with the error held there, or where `memfd_create` failed.
pub open spec fn fails_with(stage: Stage, reply: Reply, error: RunError) -> bool {
    match stage {
        Stage::Releasing { error: kept, .. } => kept == error,
        Stage::Allocating => reply matches Reply::MemfdCreate(ret) && ret < 0 && error
            == RunError::FdCreationFailed(ret),
        _ => false,
    }
}

/// A run keeps the descriptor it was given, and fails only after it has
/// asked for its release: a step changes no descriptor, and leads to an
/// error from no other stage than `Releasing`, with the error held there,
/// but for the failure of `memfd_create`, where there is no descriptor.
pub proof fn lemma_failures_release_the_file(
    image: Seq<u8>,
    options: RunOptions,
    stage: Stage,
    reply: Reply,
    error: RunError,
)
    ensures
        held(stage) is Some && held(next_stage(image, options, stage, reply)) is Some ==> held(
            next_stage(image, options, stage, reply),
        ) == held(stage),
        !(stage is Finished) && next_stage(image, options, stage, reply) == (Stage::Finished {
            result: Err(error),
        }) ==> fails_with(stage, reply, error),
{
}

/// Nothing leads on from the end of a run.
pub proof fn lemma_finished_is_final(
    image: Seq<u8>,
    options: RunOptions,
    result: Result<i32, RunError>,
    replies: Seq<Reply>,
)
    ensures
        stage_after(image, options, Stage::Finished { result }, replies) == (Stage::Finished {
            result,
        }),
    decreases replies.len(),
{
    if replies.len() > 0 {
        lemma_finished_is_final(image, options, result, replies.drop_first());
    }
}

/// A run in a child whose system calls all succeed ends with the exit code
/// in the status that `wait4` stored.
pub proof fn lemma_child_run(
    image: Seq<u8>,
    options: RunOptions,
    fd: i32,
    pid: i32,
    waited: i32,
    status: i32,
)
    requires
        is_elf_image(image),
        image.len() <= isize::MAX,
        !options.replace,
        fd >= 0,
        pid > 0,
        waited >= 0,
    ensures
        stage_after(
            image,
            options,
            Stage::Allocating,
            seq![
                Reply::MemfdCreate(fd),
                Reply::Write(image.len() as isize),
                Reply::Fork(pid),
                Reply::Wait4 { ret: waited, status },
            ],
        ) == (Stage::Finished { result: Ok(exit_code(status)) }),
{
    reveal_with_fuel(stage_after, 5);
    let r0 = seq![
        Reply::MemfdCreate(fd),
        Reply::Write(image.len() as isize),
        Reply::Fork(pid),
        Reply::Wait4 { ret: waited, status },
    ];
    let r1 = r0.drop_first();
    let r2 = r1.drop_first();
    let r3 = r2.drop_first();
    assert(r3.drop_first() =~= Seq::empty());
    assert(r0.first() == Reply::MemfdCreate(fd));
    assert(r1.first() == Reply::Write(image.len() as isize));
    assert(r2.first() == Reply::Fork(pid));
    assert(r3.first() == Reply::Wait4 { ret: waited, status });
}

/// A run in place of the caller goes from the write to the replacement
/// without a duplication; if `execve` comes back, the file is released and
/// the run ends with `ExecError` and what `execve` returned.
pub proof fn lemma_replacing_run(
    image: Seq<u8>,
    options: RunOptions,
    fd: i32,
    ret: i32,
    closed: i32,
)
    requires
        is_elf_image(image),
        image.len() <= isize::MAX,
        options.replace,
        vectors_error(options) is None,
        fd >= 0,
    ensures
        stage_after(
            image,
            options,
            Stage::Allocating,
            seq![Reply::MemfdCreate(fd), Reply::Write(image.len() as isize)],
        ) == (Stage::Replacing { fd: descriptor(fd) }),
        stage_after(
            image,
            options,
            Stage::Replacing { fd: descriptor(fd) },
            seq![Reply::Execve(ret), Reply::Close(closed)],
        ) == (Stage::Finished { result: Err(RunError::ExecError(ret)) }),
{
    reveal_with_fuel(stage_after, 3);
    let there = seq![Reply::MemfdCreate(fd), Reply::Write(image.len() as isize)];
    assert(there.drop_first() =~= seq![Reply::Write(image.len() as isize)]);
    assert(there.drop_first().drop_first() =~= Seq::empty());
    let back = seq![Reply::Execve(ret), Reply::Close(closed)];
    assert(back.drop_first() =~= seq![Reply::Close(closed)]);
    assert(back.drop_first().drop_first() =~= Seq::empty());
}

/// The exit code of a status is the second byte of the status, and so lies
/// between 0 and 255: of a status made of an exit code `code` and any low
/// byte, it is `code`.
pub proof fn lemma_exit_code(status: i32, code: int, low: int)
    ensures
        0 <= exit_code(status) <= 255,
        exit_code(status) == (status / 256) % 256,
        0 <= code <= 255 && 0 <= low <= 255 && status == code * 256 + low ==> exit_code(status)
            == code,
{
    assert(0 <= (status >> 8) & 0xff <= 255) by (bit_vector);
    assert((status >> 8) & 0xff == (status / 256) % 256) by (bit_vector);
}

} // verus!
