use session_capture::ffmpeg::{
    diagnose_exit, FFmpegRecorder, NativeRecorder, SpawnOutcome, StopOutcome,
};
use session_capture::record::{Platform, Recorder};

fn linux_recorder() -> FFmpegRecorder {
    FFmpegRecorder::new_with_input(
        1920,
        1080,
        30,
        String::from("/data/recordings/recording_20240101_120000.mp4"),
        String::from("x11grab"),
        String::from(":0.0"),
        Platform::Linux,
    )
}

#[test]
fn linux_capture_invocation_is_exact() {
    let rec = linux_recorder();
    let args = rec.command_args();
    let expected: Vec<&str> = vec![
        "-f", "x11grab", "-video_size", "1920x1080", "-framerate", "30", "-i", ":0.0", "-c:v",
        "libx264", "-preset", "ultrafast", "-crf", "23", "-pix_fmt", "yuv420p", "-movflags",
        "+faststart", "-profile:v", "high", "-tune", "zerolatency", "-y",
        "/data/recordings/recording_20240101_120000.mp4",
    ];
    assert_eq!(args, expected.into_iter().map(String::from).collect::<Vec<_>>());
}

#[test]
fn windows_capture_invocation_adds_desktop_grab_flags() {
    let rec = FFmpegRecorder::new_with_input(
        2560,
        1440,
        30,
        String::from("C:/rec/recording_x.mp4"),
        String::from("gdigrab"),
        String::from("desktop"),
        Platform::Windows,
    );
    let args = rec.command_args();
    let expected_prefix: Vec<&str> = vec![
        "-f", "gdigrab", "-video_size", "2560x1440", "-framerate", "30", "-draw_mouse", "1",
        "-offset_x", "0", "-offset_y", "0", "-probesize", "10M", "-thread_queue_size", "1024",
        "-i", "desktop",
    ];
    assert_eq!(&args[..expected_prefix.len()], &expected_prefix.iter().map(|s| String::from(*s)).collect::<Vec<_>>()[..]);
    assert_eq!(args.last().unwrap(), "C:/rec/recording_x.mp4");
    assert!(args.contains(&String::from("libx264")));
    assert!(args.contains(&String::from("-y")));
}

#[test]
fn start_retains_handle_only_when_confirmed_running() {
    let mut rec = linux_recorder();
    assert!(!rec.running);
    rec.start(&SpawnOutcome::Running { output_dir_error: None }).unwrap();
    assert!(rec.running);
}

#[test]
fn launch_failure_is_reported_and_nothing_retained() {
    let mut rec = linux_recorder();
    let err = rec
        .start(&SpawnOutcome::LaunchFailed { error: String::from("text file busy") })
        .unwrap_err();
    assert_eq!(err.message, "Failed to start FFmpeg: text file busy");
    assert!(!err.remove_partial_artifact);
    assert!(!rec.running);
}

#[test]
fn probe_failure_is_reported() {
    let mut rec = linux_recorder();
    let err = rec
        .start(&SpawnOutcome::ProbeFailed { error: String::from("waitpid interrupted") })
        .unwrap_err();
    assert_eq!(err.message, "Failed to check FFmpeg process status: waitpid interrupted");
    assert!(!err.remove_partial_artifact);
}

#[test]
fn immediate_exit_marks_partial_artifact_for_removal() {
    let mut rec = linux_recorder();
    let err = rec
        .start(&SpawnOutcome::ExitedImmediately {
            status: String::from("exit status: 1"),
            diagnostics: String::from("x11grab: cannot open display"),
        })
        .unwrap_err();
    assert!(err.remove_partial_artifact);
    assert!(err.message.starts_with("FFmpeg process exited immediately with status: exit status: 1"));
    assert!(!rec.running);
}

#[test]
fn unwritable_output_directory_fails_start_on_windows() {
    let mut rec = FFmpegRecorder::new_with_input(
        800,
        600,
        30,
        String::from("C:/rec/recording_y.mp4"),
        String::from("gdigrab"),
        String::from("desktop"),
        Platform::Windows,
    );
    let err = rec
        .start(&SpawnOutcome::Running {
            output_dir_error: Some(String::from("Access is denied. (os error 5)")),
        })
        .unwrap_err();
    assert_eq!(
        err.message,
        "No write permission in output directory: Access is denied. (os error 5)"
    );
    assert!(!rec.running);
}

#[test]
fn stop_with_no_process_is_a_no_op_success() {
    let mut rec = linux_recorder();
    let r = rec.stop(&StopOutcome { artifact_exists: false, artifact_size: 0 });
    assert!(r.is_ok());
    let r = rec.stop(&StopOutcome { artifact_exists: false, artifact_size: 0 });
    assert!(r.is_ok());
}

#[test]
fn successful_stop_stands_for_a_non_empty_artifact() {
    let mut rec = linux_recorder();
    rec.start(&SpawnOutcome::Running { output_dir_error: None }).unwrap();
    let r = rec.stop(&StopOutcome { artifact_exists: true, artifact_size: 81920 });
    assert!(r.is_ok());
    assert!(!rec.running);
}

#[test]
fn missing_artifact_after_stop_is_a_failure() {
    let mut rec = linux_recorder();
    rec.start(&SpawnOutcome::Running { output_dir_error: None }).unwrap();
    let r = rec.stop(&StopOutcome { artifact_exists: false, artifact_size: 0 });
    assert_eq!(r.unwrap_err(), "FFmpeg failed to create output file");
}

#[test]
fn empty_artifact_after_stop_is_a_failure() {
    let mut rec = linux_recorder();
    rec.start(&SpawnOutcome::Running { output_dir_error: None }).unwrap();
    let r = rec.stop(&StopOutcome { artifact_exists: true, artifact_size: 0 });
    assert_eq!(r.unwrap_err(), "FFmpeg created empty output file");
}

#[test]
fn diagnosis_appends_windows_permission_hint() {
    let msg = diagnose_exit(
        "exit status: 1",
        "screen grab failed: Permission denied",
        Platform::Windows,
    );
    assert_eq!(
        msg,
        "FFmpeg process exited immediately with status: exit status: 1\nFFmpeg error output: screen grab failed: Permission denied\nHint: Try running the application as administrator."
    );
}

#[test]
fn diagnosis_prefers_device_hint_over_permission_hint() {
    let msg = diagnose_exit(
        "exit status: 1",
        "Could not find video device; Permission denied",
        Platform::Windows,
    );
    assert!(msg.contains("Hint: On Windows, make sure you have permission to access screen recording."));
    assert!(!msg.contains("administrator"));
}

#[test]
fn diagnosis_without_output_is_just_the_status() {
    let msg = diagnose_exit("exit status: 69", "", Platform::Windows);
    assert_eq!(msg, "FFmpeg process exited immediately with status: exit status: 69");
}

#[test]
fn diagnosis_off_windows_carries_no_hint() {
    let msg = diagnose_exit("exit status: 1", "Permission denied", Platform::Linux);
    assert_eq!(
        msg,
        "FFmpeg process exited immediately with status: exit status: 1\nFFmpeg error output: Permission denied"
    );
}

#[test]
fn native_recorder_satisfies_the_same_contract() {
    let mut rec = NativeRecorder::new(String::from("/tmp/recording_native.mp4"));
    assert!(!rec.running);
    rec.start(&SpawnOutcome::Running {
        output_dir_error: Some(String::from("Access is denied. (os error 5)")),
    })
    .unwrap();
    assert!(rec.running);
    let r = rec.stop(&StopOutcome { artifact_exists: true, artifact_size: 0 });
    assert_eq!(r.unwrap_err(), "FFmpeg created empty output file");
    let r = rec.stop(&StopOutcome { artifact_exists: false, artifact_size: 0 });
    assert!(r.is_ok());
}

#[test]
fn recorder_dispatch_reaches_the_bound_variant() {
    let mut rec = Recorder::FFmpeg(linux_recorder());
    rec.start(&SpawnOutcome::Running { output_dir_error: None }).unwrap();
    let r = rec.stop(&StopOutcome { artifact_exists: true, artifact_size: 10 });
    assert!(r.is_ok());

    let mut native = Recorder::Native(NativeRecorder::new(String::from("/tmp/n.mp4")));
    native.start(&SpawnOutcome::Running { output_dir_error: None }).unwrap();
    let r = native.stop(&StopOutcome { artifact_exists: false, artifact_size: 0 });
    assert_eq!(r.unwrap_err(), "FFmpeg failed to create output file");
}
