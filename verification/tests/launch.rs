use memfd_runner::{
    run, run_with_options, Launch, Reply, Request, RunError, RunOptions, MAX_ARGS, MAX_ENV,
    MAX_STRING_LEN,
};

const IMAGE: &[u8] = b"\x7fELF\x02\x01\x01\0\0\0\0\0\0\0\0\0 the rest of the image";

fn text_in(slot: &[u8; MAX_STRING_LEN]) -> &[u8] {
    let len = slot.iter().position(|&b| b == 0).unwrap();
    &slot[..len]
}

fn result_of(launch: &Launch<'_>) -> Option<Result<i32, RunError>> {
    match launch.request() {
        Request::Finish { result } => Some(result),
        _ => None,
    }
}

fn up_to_fork<'a>(bytes: &'a [u8], options: RunOptions<'a>) -> Launch<'a> {
    let mut launch = run_with_options(bytes, options);
    launch.advance(Reply::MemfdCreate(3));
    launch.advance(Reply::Write(bytes.len() as isize));
    launch
}

#[test]
fn test_launch_asks_for_the_file_first() {
    let launch = run(IMAGE);
    assert!(matches!(launch.request(), Request::MemfdCreate { flags: 0 }));
    let launch = run_with_options(b"junk", RunOptions::new().with_replace(true));
    assert!(matches!(launch.request(), Request::MemfdCreate { flags: 0 }));
}

#[test]
fn test_launch_request_does_not_move_the_launch() {
    let launch = run(IMAGE);
    assert!(matches!(launch.request(), Request::MemfdCreate { .. }));
    assert!(matches!(launch.request(), Request::MemfdCreate { .. }));
}

#[test]
fn test_launch_allocation_failure() {
    let mut launch = run(IMAGE);
    launch.advance(Reply::MemfdCreate(-24));
    assert_eq!(result_of(&launch), Some(Err(RunError::FdCreationFailed(-24))));
}

#[test]
fn test_launch_invalid_image_is_released_and_refused() {
    for image in [&b""[..], &b"\x7fELF"[..], &b"not an elf file, whatever its length"[..]] {
        let mut launch = run(image);
        assert!(matches!(launch.request(), Request::MemfdCreate { .. }));
        launch.advance(Reply::MemfdCreate(5));
        assert!(matches!(launch.request(), Request::Close { fd: 5 }));
        launch.advance(Reply::Close(0));
        assert_eq!(result_of(&launch), Some(Err(RunError::InvalidElfFormat)));
    }
}

#[test]
fn test_launch_invalid_image_is_never_run() {
    let replies = [
        Reply::MemfdCreate(4),
        Reply::Write(3),
        Reply::Fork(0),
        Reply::Execve(-2),
        Reply::Wait4 { ret: 1, status: 0 },
        Reply::Close(-9),
        Reply::Fork(0),
        Reply::Write(3),
    ];
    let mut launch = run_with_options(b"abc", RunOptions::new().with_replace(true));
    for reply in replies {
        let request = launch.request();
        assert!(!matches!(
            request,
            Request::Write { .. } | Request::Fork | Request::Execve { .. } | Request::Wait4 { .. }
        ));
        launch.advance(reply);
    }
    assert_eq!(result_of(&launch), Some(Err(RunError::InvalidElfFormat)));
}

#[test]
fn test_launch_invalid_image_with_failed_allocation() {
    let mut launch = run(b"abc");
    launch.advance(Reply::MemfdCreate(-12));
    assert_eq!(result_of(&launch), Some(Err(RunError::FdCreationFailed(-12))));
}

#[test]
fn test_launch_writes_the_whole_image() {
    let mut launch = run(IMAGE);
    launch.advance(Reply::MemfdCreate(3));
    match launch.request() {
        Request::Write { fd, bytes } => {
            assert_eq!(fd, 3);
            assert_eq!(bytes, IMAGE);
        }
        _ => panic!("the image is written once the file is there"),
    }
}

#[test]
fn test_launch_short_write() {
    let mut launch = run(IMAGE);
    launch.advance(Reply::MemfdCreate(3));
    launch.advance(Reply::Write(10));
    assert!(matches!(launch.request(), Request::Close { fd: 3 }));
    launch.advance(Reply::Close(0));
    assert_eq!(result_of(&launch), Some(Err(RunError::BytesNotWritten(10, IMAGE.len()))));
}

#[test]
fn test_launch_failed_write() {
    let mut launch = run(IMAGE);
    launch.advance(Reply::MemfdCreate(3));
    launch.advance(Reply::Write(-9));
    launch.advance(Reply::Close(0));
    assert_eq!(
        result_of(&launch),
        Some(Err(RunError::BytesNotWritten(usize::MAX - 8, IMAGE.len())))
    );
    assert_eq!(-9isize as usize, usize::MAX - 8);
}

#[test]
fn test_launch_long_write() {
    let mut launch = run(IMAGE);
    launch.advance(Reply::MemfdCreate(3));
    launch.advance(Reply::Write(IMAGE.len() as isize + 1));
    launch.advance(Reply::Close(0));
    assert_eq!(
        result_of(&launch),
        Some(Err(RunError::BytesNotWritten(IMAGE.len() + 1, IMAGE.len())))
    );
}

#[test]
fn test_launch_exit_status_0() {
    let mut launch = run(IMAGE);
    assert!(matches!(launch.request(), Request::MemfdCreate { flags: 0 }));
    launch.advance(Reply::MemfdCreate(3));
    assert!(matches!(launch.request(), Request::Write { fd: 3, .. }));
    launch.advance(Reply::Write(IMAGE.len() as isize));
    assert!(matches!(launch.request(), Request::Fork));
    launch.advance(Reply::Fork(4321));
    assert!(matches!(launch.request(), Request::Wait4 { pid: 4321 }));
    launch.advance(Reply::Wait4 { ret: 4321, status: 0 });
    assert_eq!(result_of(&launch), Some(Ok(0)));
}

#[test]
fn test_launch_exit_status_42() {
    let mut launch = up_to_fork(IMAGE, RunOptions::new());
    launch.advance(Reply::Fork(4321));
    launch.advance(Reply::Wait4 { ret: 4321, status: 42 << 8 });
    assert_eq!(result_of(&launch), Some(Ok(42)));
}

#[test]
fn test_launch_exit_code_is_bits_8_to_15() {
    for (status, code) in [
        (0x0000, 0),
        (0x0100, 1),
        (0xff00, 255),
        (0x2a7f, 42),
        (0x1234, 0x12),
        (0x0009, 0),
        (0x7fff_ffff, 0xff),
        (0x00ab_cd12, 0xcd),
        (-1, 255),
        (i32::MIN, 0),
        (-256, 255),
    ] {
        let mut launch = up_to_fork(IMAGE, RunOptions::new());
        launch.advance(Reply::Fork(2));
        launch.advance(Reply::Wait4 { ret: 2, status });
        assert_eq!(result_of(&launch), Some(Ok(code)));
    }
}

#[test]
fn test_launch_successful_run_does_not_close() {
    let mut launch = up_to_fork(IMAGE, RunOptions::new());
    launch.advance(Reply::Fork(9));
    assert!(matches!(launch.request(), Request::Wait4 { pid: 9 }));
    launch.advance(Reply::Wait4 { ret: 9, status: 0x0300 });
    assert!(matches!(launch.request(), Request::Finish { result: Ok(3) }));
}

#[test]
fn test_launch_fork_failure() {
    let mut launch = up_to_fork(IMAGE, RunOptions::new());
    launch.advance(Reply::Fork(-11));
    assert!(matches!(launch.request(), Request::Close { fd: 3 }));
    launch.advance(Reply::Close(0));
    assert_eq!(result_of(&launch), Some(Err(RunError::ForkError(-11))));
}

#[test]
fn test_launch_wait_failure() {
    let mut launch = up_to_fork(IMAGE, RunOptions::new());
    launch.advance(Reply::Fork(77));
    launch.advance(Reply::Wait4 { ret: -10, status: 0x2a00 });
    assert!(matches!(launch.request(), Request::Close { fd: 3 }));
    launch.advance(Reply::Close(0));
    assert_eq!(result_of(&launch), Some(Err(RunError::WaitError(-10))));
}

#[test]
fn test_launch_child_replaces_itself() {
    let args = ["Hello", "World!"];
    let env = ["PATH=/usr/bin", "HOME=/tmp"];
    let options = RunOptions::new().with_args(&args).with_env(&env);
    let mut launch = up_to_fork(IMAGE, options);
    launch.advance(Reply::Fork(0));
    match launch.request() {
        Request::Execve { path, argv, envp } => {
            assert_eq!(&path[..], b"/proc/self/fd/3\0\0\0\0\0");
            let argv = argv.as_ptr();
            assert_eq!(text_in(argv[0].unwrap()), b"/proc/self/fd/3");
            assert_eq!(text_in(argv[1].unwrap()), b"Hello");
            assert_eq!(text_in(argv[2].unwrap()), b"World!");
            assert!(argv[3].is_none());
            let envp = envp.as_ptr();
            assert_eq!(text_in(envp[0].unwrap()), b"PATH=/usr/bin");
            assert_eq!(text_in(envp[1].unwrap()), b"HOME=/tmp");
            assert!(envp[2].is_none());
        }
        _ => panic!("the child replaces itself"),
    }
}

#[test]
fn test_launch_exec_failure_in_the_child() {
    let mut launch = up_to_fork(IMAGE, RunOptions::new());
    launch.advance(Reply::Fork(0));
    assert!(matches!(launch.request(), Request::Execve { .. }));
    launch.advance(Reply::Execve(-8));
    assert!(matches!(launch.request(), Request::Close { fd: 3 }));
    launch.advance(Reply::Close(0));
    assert_eq!(result_of(&launch), Some(Err(RunError::ExecError(-8))));
}

#[test]
fn test_launch_replace_mode_does_not_fork() {
    let options = RunOptions::new().with_replace(true);
    let launch = up_to_fork(IMAGE, options);
    match launch.request() {
        Request::Execve { path, argv, envp } => {
            assert_eq!(&path[..15], b"/proc/self/fd/3");
            assert!(argv.as_ptr()[1].is_none());
            assert!(envp.as_ptr()[0].is_none());
        }
        _ => panic!("replace mode goes from the write to the replacement"),
    }
}

#[test]
fn test_launch_exec_failure_in_replace_mode() {
    let options = RunOptions::new().with_replace(true);
    let mut launch = up_to_fork(IMAGE, options);
    launch.advance(Reply::Execve(-13));
    assert!(matches!(launch.request(), Request::Close { fd: 3 }));
    launch.advance(Reply::Close(0));
    assert_eq!(result_of(&launch), Some(Err(RunError::ExecError(-13))));
}

#[test]
fn test_launch_custom_program_name_is_the_first_argument() {
    let args = ["Hello", "World!"];
    let options = RunOptions::new().with_argv0("my-echo").with_args(&args);
    let mut launch = up_to_fork(IMAGE, options);
    launch.advance(Reply::Fork(0));
    match launch.request() {
        Request::Execve { path, argv, .. } => {
            let argv = argv.as_ptr();
            assert_eq!(text_in(argv[0].unwrap()), b"my-echo");
            assert_eq!(text_in(argv[1].unwrap()), b"Hello");
            assert_eq!(&path[..15], b"/proc/self/fd/3");
        }
        _ => panic!("the child replaces itself"),
    }
}

#[test]
fn test_launch_too_many_args() {
    let args = vec!["arg"; MAX_ARGS];
    let options = RunOptions::new().with_args(&args);
    let mut launch = up_to_fork(IMAGE, options);
    launch.advance(Reply::Fork(0));
    assert!(matches!(launch.request(), Request::Close { fd: 3 }));
    launch.advance(Reply::Close(0));
    assert_eq!(result_of(&launch), Some(Err(RunError::TooManyArgs)));
}

#[test]
fn test_launch_arg_too_long_in_replace_mode() {
    let long = "a".repeat(MAX_STRING_LEN);
    let args = [long.as_str()];
    let options = RunOptions::new().with_replace(true).with_args(&args);
    let mut launch = up_to_fork(IMAGE, options);
    assert!(matches!(launch.request(), Request::Close { fd: 3 }));
    launch.advance(Reply::Close(0));
    assert_eq!(result_of(&launch), Some(Err(RunError::ArgTooLong)));
}

#[test]
fn test_launch_too_many_env_vars() {
    let env = vec!["VAR=value"; MAX_ENV + 1];
    let options = RunOptions::new().with_env(&env);
    let mut launch = up_to_fork(IMAGE, options);
    launch.advance(Reply::Fork(0));
    launch.advance(Reply::Close(0));
    assert_eq!(result_of(&launch), Some(Err(RunError::TooManyEnvVars)));
}

#[test]
fn test_launch_env_var_too_long() {
    let long = format!("VAR={}", "a".repeat(MAX_STRING_LEN));
    let env = [long.as_str()];
    let options = RunOptions::new().with_env(&env);
    let mut launch = up_to_fork(IMAGE, options);
    launch.advance(Reply::Fork(0));
    launch.advance(Reply::Close(0));
    assert_eq!(result_of(&launch), Some(Err(RunError::EnvVarTooLong)));
}

#[test]
fn test_launch_arguments_are_checked_before_the_environment() {
    let args = vec!["arg"; MAX_ARGS];
    let env = vec!["VAR=value"; MAX_ENV + 1];
    let options = RunOptions::new().with_args(&args).with_env(&env);
    let mut launch = up_to_fork(IMAGE, options);
    launch.advance(Reply::Fork(0));
    launch.advance(Reply::Close(0));
    assert_eq!(result_of(&launch), Some(Err(RunError::TooManyArgs)));
}

#[test]
fn test_launch_parent_does_not_look_at_the_options() {
    let args = vec!["arg"; MAX_ARGS];
    let options = RunOptions::new().with_args(&args);
    let mut launch = up_to_fork(IMAGE, options);
    launch.advance(Reply::Fork(10));
    launch.advance(Reply::Wait4 { ret: 10, status: 0x0100 });
    assert_eq!(result_of(&launch), Some(Ok(1)));
}

#[test]
fn test_launch_ignores_a_reply_to_another_call() {
    let mut launch = run(IMAGE);
    launch.advance(Reply::Fork(0));
    launch.advance(Reply::Close(0));
    launch.advance(Reply::Write(IMAGE.len() as isize));
    assert!(matches!(launch.request(), Request::MemfdCreate { flags: 0 }));
    launch.advance(Reply::MemfdCreate(8));
    launch.advance(Reply::MemfdCreate(9));
    launch.advance(Reply::Fork(0));
    assert!(matches!(launch.request(), Request::Write { fd: 8, .. }));
}

#[test]
fn test_launch_stays_finished() {
    let mut launch = up_to_fork(IMAGE, RunOptions::new());
    launch.advance(Reply::Fork(5));
    launch.advance(Reply::Wait4 { ret: 5, status: 0x0700 });
    assert_eq!(result_of(&launch), Some(Ok(7)));
    launch.advance(Reply::MemfdCreate(-1));
    launch.advance(Reply::Close(-1));
    launch.advance(Reply::Wait4 { ret: -1, status: 0 });
    assert_eq!(result_of(&launch), Some(Ok(7)));
}

#[test]
fn test_launch_close_result_does_not_change_the_error() {
    let mut launch = run(b"junk");
    launch.advance(Reply::MemfdCreate(3));
    launch.advance(Reply::Close(-9));
    assert_eq!(result_of(&launch), Some(Err(RunError::InvalidElfFormat)));
}

#[test]
fn test_launch_keeps_sixteen_bits_of_the_descriptor() {
    let mut launch = run(IMAGE);
    launch.advance(Reply::MemfdCreate(65535));
    assert!(matches!(launch.request(), Request::Write { fd: 65535, .. }));
    let mut launch = run(IMAGE);
    launch.advance(Reply::MemfdCreate(0));
    assert!(matches!(launch.request(), Request::Write { fd: 0, .. }));
    let mut launch = run(IMAGE);
    launch.advance(Reply::MemfdCreate(65536 + 3));
    assert!(matches!(launch.request(), Request::Write { fd: 3, .. }));
}

#[test]
fn test_launch_run_is_a_plain_child_run() {
    let mut launch = run(IMAGE);
    launch.advance(Reply::MemfdCreate(6));
    launch.advance(Reply::Write(IMAGE.len() as isize));
    assert!(matches!(launch.request(), Request::Fork));
    launch.advance(Reply::Fork(0));
    match launch.request() {
        Request::Execve { path, argv, envp } => {
            assert_eq!(&path[..], b"/proc/self/fd/6\0\0\0\0\0");
            let argv = argv.as_ptr();
            assert_eq!(text_in(argv[0].unwrap()), b"/proc/self/fd/6");
            assert!(argv[1].is_none());
            assert!(envp.as_ptr()[0].is_none());
        }
        _ => panic!("the child replaces itself"),
    }
}
