//! The argument vector and the environment vector of the image: strings in
//! buffers of a fixed size, without allocation.

use vstd::prelude::*;
use crate::cstring::{c_string, lemma_c_string_of_padded, nul_padded, store, MAX_STRING_LEN};
use crate::error::RunError;
use crate::options::{texts, RunOptions};
use crate::path::{build_path, fd_path, lemma_decimal_len};

verus! {

/// The entries an argument vector has room for, the program name included.
pub const MAX_ARGS: usize = 32;

/// The entries an environment vector has room for.
pub const MAX_ENV: usize = 64;

/// The length of the pointer table of an argument vector: one more than its
/// entries, for the terminator.
pub const ARGV_SLOTS: usize = 33;

/// The length of the pointer table of an environment vector.
pub const ENVP_SLOTS: usize = 65;

/// A string of this length or more does not fit in a slot.
pub open spec fn too_long(text: Seq<u8>) -> bool {
    text.len() >= MAX_STRING_LEN
}

/// Each text as it is stored: terminated, in a buffer of `MAX_STRING_LEN`
/// bytes that is zero after it.
pub open spec fn slots(list: Seq<Seq<u8>>) -> Seq<Seq<u8>> {
    Seq::new(list.len(), |i: int| nul_padded(list[i], MAX_STRING_LEN as nat))
}

/// Why no argument vector is made of a program name and arguments, if one is
/// not. The program name is looked at first, then the number of arguments,
/// then each argument.
pub open spec fn argv_error(argv0: Option<Seq<u8>>, args: Seq<Seq<u8>>) -> Option<RunError> {
    if argv0 is Some && too_long(argv0->0) {
        Some(RunError::ArgTooLong)
    } else if args.len() > MAX_ARGS - 1 {
        Some(RunError::TooManyArgs)
    } else if exists|i: int| 0 <= i < args.len() && too_long(#[trigger] args[i]) {
        Some(RunError::ArgTooLong)
    } else {
        None
    }
}

/// The strings of an argument vector: the program name, which is the path of
/// the descriptor unless another was chosen, and then the arguments.
pub open spec fn argv_text(fd: u16, argv0: Option<Seq<u8>>, args: Seq<Seq<u8>>) -> Seq<Seq<u8>> {
    seq![
        match argv0 {
            Some(name) => name,
            None => fd_path(fd),
        },
    ] + args
}

/// Why no environment vector is made of `env`, if one is not. The number of
/// entries is looked at first, then each entry.
pub open spec fn envp_error(env: Seq<Seq<u8>>) -> Option<RunError> {
    if env.len() > MAX_ENV {
        Some(RunError::TooManyEnvVars)
    } else if exists|i: int| 0 <= i < env.len() && too_long(#[trigger] env[i]) {
        Some(RunError::EnvVarTooLong)
    } else {
        None
    }
}

/// An argument vector is made exactly when the program name, if one was
/// chosen, and every argument fit in a slot and there are fewer than
/// `MAX_ARGS` arguments. It then has one entry more than there are
/// arguments. With `MAX_ARGS` arguments or more and a program name that
/// fits, the error is `TooManyArgs`.
pub proof fn lemma_argv_limits(fd: u16, argv0: Option<Seq<u8>>, args: Seq<Seq<u8>>)
    ensures
        argv_error(argv0, args) is None <==> {
            &&& argv0 is Some ==> argv0->0.len() <= MAX_STRING_LEN - 1
            &&& args.len() <= MAX_ARGS - 1
            &&& forall|i: int|
                0 <= i < args.len() ==> (#[trigger] args[i]).len() <= MAX_STRING_LEN - 1
        },
        argv_error(argv0, args) is None ==> slots(argv_text(fd, argv0, args)).len() == args.len()
            + 1,
        args.len() >= MAX_ARGS && !(argv0 is Some && too_long(argv0->0)) ==> argv_error(
            argv0,
            args,
        ) == Some(RunError::TooManyArgs),
{
    if argv_error(argv0, args) is None {
        assert forall|i: int| 0 <= i < args.len() implies (#[trigger] args[i]).len()
            <= MAX_STRING_LEN - 1 by {
            assert(!too_long(args[i]));
        }
    }
}

/// A program name or an argument of `MAX_STRING_LEN` bytes or more is
/// refused with `ArgTooLong`, unless there are too many arguments, which is
/// found before any argument is looked at.
pub proof fn lemma_argv_refuses_long_text(argv0: Option<Seq<u8>>, args: Seq<Seq<u8>>, i: int)
    ensures
        argv0 is Some && argv0->0.len() >= MAX_STRING_LEN ==> argv_error(argv0, args) == Some(
            RunError::ArgTooLong,
        ),
        0 <= i < args.len() <= MAX_ARGS - 1 && args[i].len() >= MAX_STRING_LEN ==> argv_error(
            argv0,
            args,
        ) == Some(RunError::ArgTooLong),
{
    if 0 <= i < args.len() && args[i].len() >= MAX_STRING_LEN {
        assert(too_long(args[i]));
    }
}

/// An environment vector is made exactly when there are at most `MAX_ENV`
/// entries and every entry fits in a slot. It then has as many entries as
/// were given. More entries are refused with `TooManyEnvVars`; an entry of
/// `MAX_STRING_LEN` bytes or more among at most `MAX_ENV` is refused with
/// `EnvVarTooLong`.
pub proof fn lemma_envp_limits(env: Seq<Seq<u8>>, i: int)
    ensures
        envp_error(env) is None <==> {
            &&& env.len() <= MAX_ENV
            &&& forall|j: int|
                0 <= j < env.len() ==> (#[trigger] env[j]).len() <= MAX_STRING_LEN - 1
        },
        envp_error(env) is None ==> slots(env).len() == env.len(),
        env.len() > MAX_ENV ==> envp_error(env) == Some(RunError::TooManyEnvVars),
        0 <= i < env.len() <= MAX_ENV && env[i].len() >= MAX_STRING_LEN ==> envp_error(env)
            == Some(RunError::EnvVarTooLong),
{
    if envp_error(env) is None {
        assert forall|j: int| 0 <= j < env.len() implies (#[trigger] env[j]).len()
            <= MAX_STRING_LEN - 1 by {
            assert(!too_long(env[j]));
        }
    }
    if 0 <= i < env.len() && env[i].len() >= MAX_STRING_LEN {
        assert(too_long(env[i]));
    }
}

/// The image reads its first argument as the program name that was chosen,
/// byte for byte, where that name holds no zero byte; the path of the
/// descriptor is then no part of the vector's first entry.
pub proof fn lemma_chosen_name_is_seen(fd: u16, name: Seq<u8>, args: Seq<Seq<u8>>)
    requires
        argv_error(Some(name), args) is None,
        !name.contains(0u8),
    ensures
        c_string(slots(argv_text(fd, Some(name), args))[0]) == name,
{
    lemma_c_string_of_padded(name, MAX_STRING_LEN as nat);
}

/// An argument vector: up to `MAX_ARGS` NUL-terminated strings, each in a
/// buffer of its own.
pub struct PreparedArgs {
    storage: [[u8; MAX_STRING_LEN]; MAX_ARGS],
    count: usize,
}

/// An environment vector: up to `MAX_ENV` NUL-terminated strings, each in a
/// buffer of its own.
pub struct PreparedEnv {
    storage: [[u8; MAX_STRING_LEN]; MAX_ENV],
    count: usize,
}

impl View for PreparedArgs {
    type V = Seq<Seq<u8>>;

    /// The buffers in use, in order, each with all its `MAX_STRING_LEN` bytes.
    closed spec fn view(&self) -> Seq<Seq<u8>> {
        Seq::new(self.count as nat, |i: int| self.storage@[i]@)
    }
}

impl View for PreparedEnv {
    type V = Seq<Seq<u8>>;

    /// The buffers in use, in order, each with all its `MAX_STRING_LEN` bytes.
    closed spec fn view(&self) -> Seq<Seq<u8>> {
        Seq::new(self.count as nat, |i: int| self.storage@[i]@)
    }
}

impl PreparedArgs {
    #[verifier::type_invariant]
    spec fn well_formed(&self) -> bool {
        &&& self.count <= MAX_ARGS
        &&& forall|i: int| 0 <= i < self.count ==> (#[trigger] self.storage@[i])@.contains(0u8)
    }

    /// The pointer table of the vector: a reference to the buffer of each
    /// entry, in order, and `None` from there to the end. At least the last
    /// place holds `None`, and every buffer holds a terminator.
    pub fn as_ptr(&self) -> (table: [Option<&[u8; MAX_STRING_LEN]>; ARGV_SLOTS])
        ensures
            self@.len() <= MAX_ARGS,
            forall|i: int|
                0 <= i < self@.len() ==> (#[trigger] table@[i]) is Some && table@[i]->0@
                    == self@[i] && self@[i].len() == MAX_STRING_LEN && self@[i].contains(0u8),
            forall|i: int| self@.len() <= i < ARGV_SLOTS ==> (#[trigger] table@[i]) is None,
    {
        proof {
            use_type_invariant(self);
        }
        let mut table: [Option<&[u8; MAX_STRING_LEN]>; ARGV_SLOTS] = [None; ARGV_SLOTS];
        let mut i: usize = 0;
        while i < self.count
            invariant
                i <= self.count <= MAX_ARGS,
                forall|j: int|
                    0 <= j < i ==> (#[trigger] table@[j]) is Some && table@[j]->0@
                        == self.storage@[j]@,
                forall|j: int| i <= j < ARGV_SLOTS ==> (#[trigger] table@[j]) is None,
            decreases self.count - i,
        {
            table[i] = Some(&self.storage[i]);
            i += 1;
        }
        table
    }
}

impl PreparedEnv {
    #[verifier::type_invariant]
    spec fn well_formed(&self) -> bool {
        &&& self.count <= MAX_ENV
        &&& forall|i: int| 0 <= i < self.count ==> (#[trigger] self.storage@[i])@.contains(0u8)
    }

    /// The pointer table of the vector: a reference to the buffer of each
    /// entry, in order, and `None` from there to the end. At least the last
    /// place holds `None`, and every buffer holds a terminator.
    pub fn as_ptr(&self) -> (table: [Option<&[u8; MAX_STRING_LEN]>; ENVP_SLOTS])
        ensures
            self@.len() <= MAX_ENV,
            forall|i: int|
                0 <= i < self@.len() ==> (#[trigger] table@[i]) is Some && table@[i]->0@
                    == self@[i] && self@[i].len() == MAX_STRING_LEN && self@[i].contains(0u8),
            forall|i: int| self@.len() <= i < ENVP_SLOTS ==> (#[trigger] table@[i]) is None,
    {
        proof {
            use_type_invariant(self);
        }
        let mut table: [Option<&[u8; MAX_STRING_LEN]>; ENVP_SLOTS] = [None; ENVP_SLOTS];
        let mut i: usize = 0;
        while i < self.count
            invariant
                i <= self.count <= MAX_ENV,
                forall|j: int|
                    0 <= j < i ==> (#[trigger] table@[j]) is Some && table@[j]->0@
                        == self.storage@[j]@,
                forall|j: int| i <= j < ENVP_SLOTS ==> (#[trigger] table@[j]) is None,
            decreases self.count - i,
        {
            table[i] = Some(&self.storage[i]);
            i += 1;
        }
        table
    }
}

/// A text that fits in a slot is stored with a terminator after it.
proof fn lemma_slot_terminated(text: Seq<u8>)
    requires
        !too_long(text),
    ensures
        nul_padded(text, MAX_STRING_LEN as nat).contains(0u8),
{
    let slot = nul_padded(text, MAX_STRING_LEN as nat);
    assert(slot[text.len() as int] == 0u8);
}

/// Builds the argument vector of a run: the program name, then the arguments
/// of `options` in their order.
///
/// The program name is the one `options` chose, or else the path of `fd`. A
/// program name or an argument of `MAX_STRING_LEN` bytes or more is refused
/// with `ArgTooLong`, and `MAX_ARGS` arguments or more with `TooManyArgs`.
pub fn prepare_argv(fd: u16, options: &RunOptions<'_>) -> (result: Result<PreparedArgs, RunError>)
    ensures
        match result {
            Ok(argv) => argv_error(options.argv0_text(), options.args_text()) is None && argv@
                == slots(argv_text(fd, options.argv0_text(), options.args_text())),
            Err(error) => argv_error(options.argv0_text(), options.args_text()) == Some(error),
        },
{
    let ghost text = argv_text(fd, options.argv0_text(), options.args_text());
    let mut storage = [[0u8; MAX_STRING_LEN]; MAX_ARGS];
    match options.argv0 {
        Some(name) => {
            let bytes = name.as_bytes();
            if bytes.len() >= MAX_STRING_LEN {
                return Err(RunError::ArgTooLong);
            }
            storage[0] = store(bytes);
        },
        None => {
            let path = build_path(fd);
            proof {
                lemma_decimal_len(fd);
            }
            storage[0] = store(path.as_slice());
            assert(storage@[0]@ =~= nul_padded(fd_path(fd), MAX_STRING_LEN as nat));
        },
    }
    let mut count: usize = 1;
    if let Some(args) = options.args {
        if args.len() > MAX_ARGS - 1 {
            return Err(RunError::TooManyArgs);
        }
        let mut i: usize = 0;
        while i < args.len()
            invariant
                i <= args@.len() <= MAX_ARGS - 1,
                count == i + 1,
                options.args == Some(args),
                text == argv_text(fd, options.argv0_text(), options.args_text()),
                !too_long(text[0]),
                forall|j: int| 0 <= j < i ==> !too_long(#[trigger] options.args_text()[j]),
                forall|j: int|
                    0 <= j < count ==> (#[trigger] storage@[j])@ == nul_padded(
                        text[j],
                        MAX_STRING_LEN as nat,
                    ),
            decreases args@.len() - i,
        {
            let bytes = args[i].as_bytes();
            if bytes.len() >= MAX_STRING_LEN {
                assert(too_long(options.args_text()[i as int]));
                return Err(RunError::ArgTooLong);
            }
            storage[count] = store(bytes);
            assert(text[count as int] == options.args_text()[i as int]);
            count += 1;
            i += 1;
        }
    }
    proof {
        assert(text.len() == count);
        assert forall|j: int| 0 <= j < count implies (#[trigger] storage@[j])@.contains(0u8) by {
            assert(!too_long(text[j])) by {
                if j > 0 {
                    assert(text[j] == options.args_text()[j - 1]);
                }
            }
            lemma_slot_terminated(text[j]);
        }
    }
    let argv = PreparedArgs { storage, count };
    assert(argv@ =~= slots(text));
    Ok(argv)
}

/// Builds the environment vector of a run: the entries of `env` in their
/// order, each as it is; no entries where there is no list.
///
/// More than `MAX_ENV` entries are refused with `TooManyEnvVars`, and an
/// entry of `MAX_STRING_LEN` bytes or more with `EnvVarTooLong`.
pub fn prepare_envp(env: Option<&[&str]>) -> (result: Result<PreparedEnv, RunError>)
    ensures
        match result {
            Ok(envp) => envp_error(texts(env)) is None && envp@ == slots(texts(env)),
            Err(error) => envp_error(texts(env)) == Some(error),
        },
{
    let mut storage = [[0u8; MAX_STRING_LEN]; MAX_ENV];
    let mut count: usize = 0;
    if let Some(entries) = env {
        if entries.len() > MAX_ENV {
            return Err(RunError::TooManyEnvVars);
        }
        while count < entries.len()
            invariant
                count <= entries@.len() <= MAX_ENV,
                env == Some(entries),
                forall|j: int| 0 <= j < count ==> !too_long(#[trigger] texts(env)[j]),
                forall|j: int|
                    0 <= j < count ==> (#[trigger] storage@[j])@ == nul_padded(
                        texts(env)[j],
                        MAX_STRING_LEN as nat,
                    ),
            decreases entries@.len() - count,
        {
            let bytes = entries[count].as_bytes();
            if bytes.len() >= MAX_STRING_LEN {
                assert(too_long(texts(env)[count as int]));
                return Err(RunError::EnvVarTooLong);
            }
            storage[count] = store(bytes);
            count += 1;
        }
    }
    proof {
        assert(texts(env).len() == count);
        assert forall|j: int| 0 <= j < count implies (#[trigger] storage@[j])@.contains(0u8) by {
            lemma_slot_terminated(texts(env)[j]);
        }
    }
    let envp = PreparedEnv { storage, count };
    assert(envp@ =~= slots(texts(env)));
    Ok(envp)
}

} // verus!
