use spawning_adapter::error::i32_to_string;
use spawning_adapter::error::u64_to_string;
use spawning_adapter::map_exe_error;
use spawning_adapter::pipe_output;
use spawning_adapter::AdaptError;
use spawning_adapter::AdaptInfo;
use spawning_adapter::Command;
use spawning_adapter::ExitStatus;
use spawning_adapter::FeedAction;
use spawning_adapter::InputFeeder;
use spawning_adapter::ProcWaitReader;
use spawning_adapter::SpawnError;
use spawning_adapter::SpawningFileAdapter;
use spawning_adapter::SpawningFileAdapterTrait;

/// A strategy that runs a line-oriented substitution program with a fixed
/// rule, as a converter definition would configure it.
struct SedStrategy;

impl SpawningFileAdapterTrait for SedStrategy {
    fn get_exe(&self) -> &str {
        "sed"
    }

    fn command(&self, _filepath_hint: &str, mut command: Command) -> Result<Command, String> {
        command.arg("s/e/u/g");
        Ok(command)
    }
}

/// A strategy whose command construction always fails, to exercise the
/// configuration-error path.
struct BrokenStrategy;

impl SpawningFileAdapterTrait for BrokenStrategy {
    fn get_exe(&self) -> &str {
        "frobnicate"
    }

    fn command(&self, _filepath_hint: &str, _command: Command) -> Result<Command, String> {
        Err(String::from("bad template"))
    }
}

fn sample_info() -> AdaptInfo {
    AdaptInfo {
        filepath_hint: String::from("foo.txt"),
        line_prefix: String::from("PREFIX: "),
        archive_recursion_depth: 2,
        postprocess: true,
        is_real_file: true,
    }
}

#[test]
fn missing_executable_is_translated() {
    let err = SpawnError {
        not_found: true,
        message: String::from("No such file or directory (os error 2)"),
    };
    let r = map_exe_error(err, "pandoc", "Please install pandoc.");
    match r {
        AdaptError::MissingExecutable { message } => {
            assert_eq!(message, "Could not find executable \"pandoc\". Please install pandoc.");
        }
        other => panic!("wrong variant: {:?}", other),
    }
}

#[test]
fn missing_executable_with_empty_help() {
    let err = SpawnError { not_found: true, message: String::from("os error 2") };
    let r = map_exe_error(err, "sed", "");
    match r {
        AdaptError::MissingExecutable { message } => {
            assert_eq!(message, "Could not find executable \"sed\". ");
        }
        other => panic!("wrong variant: {:?}", other),
    }
}

#[test]
fn other_launch_error_passes_through() {
    let err = SpawnError { not_found: false, message: String::from("Permission denied (os error 13)") };
    let r = map_exe_error(err, "sed", "Please install sed.");
    match r {
        AdaptError::Launch { message } => {
            assert_eq!(message, "Permission denied (os error 13)");
        }
        other => panic!("wrong variant: {:?}", other),
    }
}

#[test]
fn pipe_output_spawn_failure_not_found() {
    let spawn: Result<(), SpawnError> =
        Err(SpawnError { not_found: true, message: String::from("os error 2") });
    match pipe_output(spawn, "helix", "Install helix first.") {
        Err(AdaptError::MissingExecutable { message }) => {
            assert_eq!(message, "Could not find executable \"helix\". Install helix first.");
        }
        other => panic!("wrong outcome: {:?}", other.map(|_| ())),
    }
}

#[test]
fn pipe_output_spawn_failure_other() {
    let spawn: Result<(), SpawnError> =
        Err(SpawnError { not_found: false, message: String::from("Too many open files") });
    match pipe_output(spawn, "sed", "") {
        Err(AdaptError::Launch { message }) => {
            assert_eq!(message, "Too many open files");
        }
        other => panic!("wrong outcome: {:?}", other.map(|_| ())),
    }
}

#[test]
fn tail_reader_success_then_noop() {
    let mut tail = ProcWaitReader::new();
    assert!(tail.needs_wait());
    let first = tail.read(Some(ExitStatus { code: Some(0) }));
    assert!(matches!(first, Ok(0)));
    assert!(!tail.needs_wait());
    // A second read performs no wait (no status is supplied) and stays a
    // harmless end-of-stream.
    let second = tail.read(None);
    assert!(matches!(second, Ok(0)));
    let third = tail.read(None);
    assert!(matches!(third, Ok(0)));
}

#[test]
fn tail_reader_failure_then_noop() {
    let mut tail = ProcWaitReader::new();
    let first = tail.read(Some(ExitStatus { code: Some(2) }));
    match first {
        Err(AdaptError::ProcessFailed { status }) => assert_eq!(status.code, Some(2)),
        other => panic!("wrong outcome: {:?}", other),
    }
    // Even after a reported failure, a later read is a no-op end-of-stream:
    // the child is never waited on twice.
    let second = tail.read(None);
    assert!(matches!(second, Ok(0)));
}

#[test]
fn tail_reader_signal_termination() {
    let mut tail = ProcWaitReader::new();
    match tail.read(Some(ExitStatus { code: None })) {
        Err(AdaptError::ProcessFailed { status }) => assert_eq!(status.code, None),
        other => panic!("wrong outcome: {:?}", other),
    }
}

#[test]
fn composite_stream_passes_output_through() {
    let mut out = pipe_output(Ok(()), "cat", "").unwrap();
    let input: Vec<Vec<u8>> = vec![b"This is the story of a\n".to_vec(), b"very strange lorry\n".to_vec()];
    let mut collected: Vec<u8> = Vec::new();
    for chunk in &input {
        assert!(out.wants_output());
        collected.extend_from_slice(&out.on_output(chunk.clone()));
    }
    let eof = out.on_output(Vec::new());
    assert!(eof.is_empty());
    assert!(!out.wants_output());
    assert!(out.needs_wait());
    let tail = out.on_exit(Some(ExitStatus { code: Some(0) }));
    assert!(matches!(tail, Ok(0)));
    let whole: Vec<u8> = input.concat();
    assert_eq!(collected, whole);
}

#[test]
fn partial_output_then_nonzero_exit_keeps_bytes() {
    let mut out = pipe_output(Ok(()), "converter", "").unwrap();
    let part1 = out.on_output(b"partial ".to_vec());
    let part2 = out.on_output(b"output".to_vec());
    let eof = out.on_output(Vec::new());
    assert_eq!(part1, b"partial ".to_vec());
    assert_eq!(part2, b"output".to_vec());
    assert!(eof.is_empty());
    // The bytes were all delivered before the status check; only then does
    // the stream report the failure, carrying the exit status.
    match out.on_exit(Some(ExitStatus { code: Some(1) })) {
        Err(AdaptError::ProcessFailed { status }) => {
            assert_eq!(status.code, Some(1));
            assert_eq!(status.success(), false);
        }
        other => panic!("wrong outcome: {:?}", other),
    }
    // Over-eager callers reading again get a quiet end-of-stream.
    assert!(matches!(out.on_exit(None), Ok(0)));
}

#[test]
fn input_feeder_copies_then_closes() {
    let mut feeder = InputFeeder::new();
    let a = feeder.on_input(&b"line one\n".to_vec());
    assert_eq!(a, FeedAction::WriteChunk);
    let b = feeder.on_input(&b"line two\n".to_vec());
    assert_eq!(b, FeedAction::WriteChunk);
    let end = feeder.on_input(&Vec::new());
    assert_eq!(end, FeedAction::CloseInput);
}

#[test]
fn adapt_derives_suffixed_synthetic_unit() {
    let adapter = SpawningFileAdapter::new(SedStrategy);
    let plan = adapter.adapt(sample_info()).unwrap();
    assert_eq!(plan.output.filepath_hint, "foo.txt.txt");
    assert_eq!(plan.output.is_real_file, false);
    assert_eq!(plan.output.line_prefix, "PREFIX: ");
    assert_eq!(plan.output.archive_recursion_depth, 2);
    assert_eq!(plan.output.postprocess, true);
    assert_eq!(plan.command.program, "sed");
    assert_eq!(plan.command.args, vec![String::from("s/e/u/g")]);
}

#[test]
fn adapt_marks_synthetic_even_for_synthetic_input() {
    let adapter = SpawningFileAdapter::new(SedStrategy);
    let mut info = sample_info();
    info.is_real_file = false;
    let plan = adapter.adapt(info).unwrap();
    assert_eq!(plan.output.is_real_file, false);
}

#[test]
fn adapt_with_custom_suffix() {
    let adapter = SpawningFileAdapter::with_suffix(SedStrategy, String::from(".converted"));
    let plan = adapter.adapt(sample_info()).unwrap();
    assert_eq!(plan.output.filepath_hint, "foo.txt.converted");
}

#[test]
fn adapt_reports_configuration_failure_with_exe_name() {
    let adapter = SpawningFileAdapter::new(BrokenStrategy);
    match adapter.adapt(sample_info()) {
        Err(e @ AdaptError::Config { .. }) => {
            match &e {
                AdaptError::Config { exe_name, cause } => {
                    assert_eq!(exe_name.as_str(), "frobnicate");
                    assert_eq!(cause.as_str(), "bad template");
                }
                _ => unreachable!(),
            }
            assert_eq!(e.message(), "Could not set cmd arguments for frobnicate: bad template");
        }
        other => panic!("wrong outcome: {:?}", other.map(|_| ())),
    }
}

#[test]
fn command_builds_program_and_arguments() {
    let mut cmd = Command::new("sed");
    cmd.arg("-e");
    cmd.arg("s/e/u/g");
    assert_eq!(cmd.program, "sed");
    assert_eq!(cmd.args, vec![String::from("-e"), String::from("s/e/u/g")]);
}

#[test]
fn messages_for_every_error_kind() {
    let config = AdaptError::Config {
        exe_name: String::from("sed"),
        cause: String::from("no placeholder"),
    };
    assert_eq!(config.message(), "Could not set cmd arguments for sed: no placeholder");

    let missing = AdaptError::MissingExecutable {
        message: String::from("Could not find executable \"sed\". "),
    };
    assert_eq!(missing.message(), "Could not find executable \"sed\". ");

    let launch = AdaptError::Launch { message: String::from("Permission denied") };
    assert_eq!(launch.message(), "Permission denied");

    let io = AdaptError::Io { message: String::from("broken pipe") };
    assert_eq!(io.message(), "broken pipe");

    let failed = AdaptError::ProcessFailed { status: ExitStatus { code: Some(1) } };
    assert_eq!(failed.message(), "subprocess failed: exit code 1");

    let negative = AdaptError::ProcessFailed { status: ExitStatus { code: Some(-7) } };
    assert_eq!(negative.message(), "subprocess failed: exit code -7");

    let signaled = AdaptError::ProcessFailed { status: ExitStatus { code: None } };
    assert_eq!(signaled.message(), "subprocess failed: terminated by signal");
}

#[test]
fn decimal_formatting_exact_values() {
    assert_eq!(u64_to_string(0), "0");
    assert_eq!(u64_to_string(9), "9");
    assert_eq!(u64_to_string(10), "10");
    assert_eq!(u64_to_string(405), "405");
    assert_eq!(u64_to_string(u64::MAX), "18446744073709551615");
    assert_eq!(i32_to_string(0), "0");
    assert_eq!(i32_to_string(137), "137");
    assert_eq!(i32_to_string(-1), "-1");
    assert_eq!(i32_to_string(i32::MIN), "-2147483648");
    assert_eq!(i32_to_string(i32::MAX), "2147483647");
}

#[test]
fn exit_status_success_only_on_zero() {
    assert!(ExitStatus { code: Some(0) }.success());
    assert!(!ExitStatus { code: Some(1) }.success());
    assert!(!ExitStatus { code: Some(-1) }.success());
    assert!(!ExitStatus { code: None }.success());
}
