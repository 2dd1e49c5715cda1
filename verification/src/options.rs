//! What the caller chooses about a run.

use vstd::prelude::*;
use vstd::string::StringSliceAdditionalSpecFns;

verus! {

/// How an image is run: in a child or in place of the caller, and with which
/// arguments, environment and program name.
///
/// The options borrow their text; they copy none of it.
#[derive(Clone, Copy)]
pub struct RunOptions<'a> {
    /// Replace the calling process instead of running the image in a child.
    pub replace: bool,
    /// The arguments after the program name.
    pub args: Option<&'a [&'a str]>,
    /// The environment, one `KEY=VALUE` per entry. The entries are handed on
    /// as they are.
    pub env: Option<&'a [&'a str]>,
    /// The program name the image is to see, in place of the path it is run
    /// from.
    pub argv0: Option<&'a str>,
}

/// The bytes of each string of `list`, and no strings where there is no list.
pub open spec fn texts(list: Option<&[&str]>) -> Seq<Seq<u8>> {
    match list {
        Some(items) => Seq::new(items@.len(), |i: int| items@[i].spec_bytes()),
        None => Seq::empty(),
    }
}

impl<'a> RunOptions<'a> {
    /// The bytes of the arguments, in order.
    pub open spec fn args_text(&self) -> Seq<Seq<u8>> {
        texts(self.args)
    }

    /// The bytes of the environment entries, in order.
    pub open spec fn env_text(&self) -> Seq<Seq<u8>> {
        texts(self.env)
    }

    /// The bytes of the program name, where one was chosen.
    pub open spec fn argv0_text(&self) -> Option<Seq<u8>> {
        match self.argv0 {
            Some(name) => Some(name.spec_bytes()),
            None => None,
        }
    }

    /// The options of a plain run: in a child, without arguments or
    /// environment, under the path the image is run from.
    pub open spec fn blank() -> RunOptions<'a> {
        RunOptions { replace: false, args: None, env: None, argv0: None }
    }

    /// Options with nothing chosen yet.
    pub fn new() -> (options: Self)
        ensures
            options == Self::blank(),
    {
        RunOptions { replace: false, args: None, env: None, argv0: None }
    }

    /// Chooses whether the image replaces the calling process (`true`) or
    /// runs in a child that the caller waits for (`false`).
    pub fn with_replace(self, replace: bool) -> (options: Self)
        ensures
            options == (RunOptions { replace, ..self }),
    {
        RunOptions { replace, ..self }
    }

    /// Sets the arguments that follow the program name.
    pub fn with_args(self, args: &'a [&'a str]) -> (options: Self)
        ensures
            options == (RunOptions { args: Some(args), ..self }),
    {
        RunOptions { args: Some(args), ..self }
    }

    /// Sets the environment of the image.
    pub fn with_env(self, env: &'a [&'a str]) -> (options: Self)
        ensures
            options == (RunOptions { env: Some(env), ..self }),
    {
        RunOptions { env: Some(env), ..self }
    }

    /// Sets the program name that the image sees as its first argument.
    pub fn with_argv0(self, argv0: &'a str) -> (options: Self)
        ensures
            options == (RunOptions { argv0: Some(argv0), ..self }),
    {
        RunOptions { argv0: Some(argv0), ..self }
    }
}

impl<'a> Default for RunOptions<'a> {
    fn default() -> (options: Self)
        ensures
            options == Self::blank(),
    {
        RunOptions::new()
    }
}

} // verus!
