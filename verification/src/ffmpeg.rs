//! Screen capture process manager: the decisions around the external
//! video-encoder subprocess. The capture invocation is computed here; the
//! caller launches the tool, probes its liveness and reports the outcome
//! back, and the artifact checks and failure diagnosis are decided here.

use vstd::prelude::*;
use vstd::string::*;
use crate::record::Platform;
use crate::strutil::{contains_seq, contains_str, decimal, u32_string};

verus! {

/// The manager of one external capture subprocess: bound capture geometry,
/// one output path, the input selection, and whether a live subprocess
/// handle is retained for `stop`.
#[derive(Debug, Clone, PartialEq)]
pub struct FFmpegRecorder {
    pub width: u32,
    pub height: u32,
    pub fps: u32,
    pub output_path: String,
    pub running: bool,
    pub input_format: Option<String>,
    pub input_device: Option<String>,
    pub platform: Platform,
}

/// What the caller observed after launching the capture tool and probing it
/// without blocking: the launch failed outright, the process had already
/// exited (its buffered diagnostics captured), the probe itself failed, or
/// the process was confirmed running — with the error of the disposable
/// probe write, where the platform verifies the output directory.
#[derive(Debug, Clone, PartialEq)]
pub enum SpawnOutcome {
    LaunchFailed { error: String },
    ExitedImmediately { status: String, diagnostics: String },
    ProbeFailed { error: String },
    Running { output_dir_error: Option<String> },
}

/// A failed start: the actionable message, and whether a partial artifact
/// was left on disk and must be removed.
#[derive(Debug, Clone, PartialEq)]
pub struct StartError {
    pub message: String,
    pub remove_partial_artifact: bool,
}

/// Mathematical model of a failed start.
pub ghost struct StartErrorModel {
    pub message: Seq<char>,
    pub remove_partial_artifact: bool,
}

impl View for StartError {
    type V = StartErrorModel;

    open spec fn view(&self) -> StartErrorModel {
        StartErrorModel {
            message: self.message@,
            remove_partial_artifact: self.remove_partial_artifact,
        }
    }
}

/// What the caller observed after the graceful-quit signal, the grace
/// interval and the wait for exit: whether the artifact exists and its size.
#[derive(Debug, Clone, PartialEq)]
pub struct StopOutcome {
    pub artifact_exists: bool,
    pub artifact_size: u64,
}

/// The `WxH` geometry argument.
pub open spec fn size_arg(width: int, height: int) -> Seq<char> {
    decimal(width) + "x"@ + decimal(height)
}

/// The capture-mode arguments that depend on the input format: cursor and
/// offset flags for the desktop grabber, cursor capture for the native
/// foundation grabber.
pub open spec fn format_extra_args(format: Seq<char>) -> Seq<Seq<char>> {
    if format == "gdigrab"@ {
        seq![
            "-draw_mouse"@,
            "1"@,
            "-offset_x"@,
            "0"@,
            "-offset_y"@,
            "0"@,
            "-probesize"@,
            "10M"@,
            "-thread_queue_size"@,
            "1024"@,
        ]
    } else if format == "avfoundation"@ {
        seq!["-capture_cursor"@, "1"@]
    } else {
        Seq::empty()
    }
}

/// The input-selection arguments: grabber format, geometry and framerate
/// with the platform flags and the capture device, or the raw-video stdin
/// fallback when no input selection is bound.
pub open spec fn input_args(r: FFmpegRecorder) -> Seq<Seq<char>> {
    match (r.input_format, r.input_device) {
        (Some(f), Some(d)) => seq!["-f"@, f@, "-video_size"@, size_arg(r.width as int, r.height as int), "-framerate"@, decimal(r.fps as int)]
            + format_extra_args(f@) + seq!["-i"@, d@],
        _ => seq![
            "-f"@,
            "rawvideo"@,
            "-pixel_format"@,
            "rgb24"@,
            "-video_size"@,
            size_arg(r.width as int, r.height as int),
            "-framerate"@,
            decimal(r.fps as int),
            "-i"@,
            "-"@,
        ],
    }
}

/// The fixed output-encoding arguments: low-latency software encoder,
/// constant-quality target, compatibility pixel format, streaming-friendly
/// container flags and overwrite-if-exists, ending with the output path.
pub open spec fn output_args(r: FFmpegRecorder) -> Seq<Seq<char>> {
    seq![
        "-c:v"@,
        "libx264"@,
        "-preset"@,
        "ultrafast"@,
        "-crf"@,
        "23"@,
        "-pix_fmt"@,
        "yuv420p"@,
        "-movflags"@,
        "+faststart"@,
        "-profile:v"@,
        "high"@,
        "-tune"@,
        "zerolatency"@,
        "-y"@,
        r.output_path@,
    ]
}

/// The full capture invocation.
pub open spec fn command_args_spec(r: FFmpegRecorder) -> Seq<Seq<char>> {
    input_args(r) + output_args(r)
}

/// The diagnosis of a capture tool that exited during the liveness probe:
/// the exit status, any captured diagnostics, and a best-effort platform
/// hint matched against known permission and device-access causes.
pub open spec fn exit_diagnosis(status: Seq<char>, diagnostics: Seq<char>, platform: Platform) -> Seq<
    char,
> {
    let base = "FFmpeg process exited immediately with status: "@ + status;
    if diagnostics.len() == 0 {
        base
    } else {
        let with_output = base + "\nFFmpeg error output: "@ + diagnostics;
        if platform is Windows {
            if contains_seq(diagnostics, "Could not find video device"@) {
                with_output
                    + "\nHint: On Windows, make sure you have permission to access screen recording."@
            } else if contains_seq(diagnostics, "Permission denied"@) {
                with_output + "\nHint: Try running the application as administrator."@
            } else {
                with_output
            }
        } else {
            with_output
        }
    }
}

/// Build the actionable message for a capture tool that exited immediately.
pub fn diagnose_exit(status: &str, diagnostics: &str, platform: Platform) -> (r: String)
    ensures
        r@ == exit_diagnosis(status@, diagnostics@, platform),
{
    let mut msg = String::from_str("FFmpeg process exited immediately with status: ");
    msg.append(status);
    if !diagnostics.is_empty() {
        msg.append("\nFFmpeg error output: ");
        msg.append(diagnostics);
        if let Platform::Windows = platform {
            if contains_str(diagnostics, "Could not find video device") {
                msg.append(
                    "\nHint: On Windows, make sure you have permission to access screen recording.",
                );
            } else if contains_str(diagnostics, "Permission denied") {
                msg.append("\nHint: Try running the application as administrator.");
            }
        }
    }
    msg
}

/// How a start decides on the probe outcome: a launch failure, an immediate
/// exit (diagnosed, with the partial artifact marked for removal) and a
/// failed probe are hard failures leaving the manager unchanged; a confirmed
/// running process retains the handle, unless the platform verifies the
/// output directory and the probe write failed.
pub open spec fn ffmpeg_start_spec(r: FFmpegRecorder, o: SpawnOutcome) -> (FFmpegRecorder, Option<
    StartErrorModel,
>) {
    match o {
        SpawnOutcome::LaunchFailed { error } => (
            r,
            Some(
                StartErrorModel {
                    message: "Failed to start FFmpeg: "@ + error@,
                    remove_partial_artifact: false,
                },
            ),
        ),
        SpawnOutcome::ExitedImmediately { status, diagnostics } => (
            r,
            Some(
                StartErrorModel {
                    message: exit_diagnosis(status@, diagnostics@, r.platform),
                    remove_partial_artifact: true,
                },
            ),
        ),
        SpawnOutcome::ProbeFailed { error } => (
            r,
            Some(
                StartErrorModel {
                    message: "Failed to check FFmpeg process status: "@ + error@,
                    remove_partial_artifact: false,
                },
            ),
        ),
        SpawnOutcome::Running { output_dir_error } => if r.platform is Windows
            && output_dir_error is Some {
            (
                r,
                Some(
                    StartErrorModel {
                        message: "No write permission in output directory: "@
                            + output_dir_error->0@,
                        remove_partial_artifact: false,
                    },
                ),
            )
        } else {
            (FFmpegRecorder { running: true, ..r }, None)
        },
    }
}

/// How a stop decides: with no retained process it is an idempotent no-op;
/// otherwise the handle is released and the artifact is validated — a
/// missing or empty output file is a failure even though the process exited.
pub open spec fn ffmpeg_stop_spec(r: FFmpegRecorder, o: StopOutcome) -> (FFmpegRecorder, Option<
    Seq<char>,
>) {
    if !r.running {
        (r, None)
    } else {
        let released = FFmpegRecorder { running: false, ..r };
        if !o.artifact_exists {
            (released, Some("FFmpeg failed to create output file"@))
        } else if o.artifact_size == 0 {
            (released, Some("FFmpeg created empty output file"@))
        } else {
            (released, None)
        }
    }
}

impl FFmpegRecorder {
    /// Bind capture geometry, framerate, output path and input selection for
    /// one session; no process is retained yet.
    pub fn new_with_input(
        width: u32,
        height: u32,
        fps: u32,
        output_path: String,
        input_format: String,
        input_device: String,
        platform: Platform,
    ) -> (r: Self)
        ensures
            r.width == width,
            r.height == height,
            r.fps == fps,
            r.output_path == output_path,
            !r.running,
            r.input_format matches Some(f) && f == input_format,
            r.input_device matches Some(d) && d == input_device,
            r.platform == platform,
    {
        FFmpegRecorder {
            width,
            height,
            fps,
            output_path,
            running: false,
            input_format: Some(input_format),
            input_device: Some(input_device),
            platform,
        }
    }

    /// The capture invocation for this session: input-selection arguments
    /// followed by the fixed output-encoding arguments.
    pub fn command_args(&self) -> (args: Vec<String>)
        ensures
            args@.map_values(|s: String| s@) =~= command_args_spec(*self),
    {
        let mut args: Vec<String> = Vec::new();
        let has_input = self.input_format.is_some() && self.input_device.is_some();
        if has_input {
            let format = match &self.input_format {
                Some(f) => f.clone(),
                None => String::new(),
            };
            let device = match &self.input_device {
                Some(d) => d.clone(),
                None => String::new(),
            };
            args.push(String::from_str("-f"));
            args.push(format.clone());
            args.push(String::from_str("-video_size"));
            let mut size = u32_string(self.width);
            size.append("x");
            let h = u32_string(self.height);
            size.append(h.as_str());
            args.push(size);
            args.push(String::from_str("-framerate"));
            args.push(u32_string(self.fps));
            let gdigrab = String::from_str("gdigrab");
            let avfoundation = String::from_str("avfoundation");
            if format.eq(&gdigrab) {
                args.push(String::from_str("-draw_mouse"));
                args.push(String::from_str("1"));
                args.push(String::from_str("-offset_x"));
                args.push(String::from_str("0"));
                args.push(String::from_str("-offset_y"));
                args.push(String::from_str("0"));
                args.push(String::from_str("-probesize"));
                args.push(String::from_str("10M"));
                args.push(String::from_str("-thread_queue_size"));
                args.push(String::from_str("1024"));
            } else if format.eq(&avfoundation) {
                args.push(String::from_str("-capture_cursor"));
                args.push(String::from_str("1"));
            }
            args.push(String::from_str("-i"));
            args.push(device);
        } else {
            args.push(String::from_str("-f"));
            args.push(String::from_str("rawvideo"));
            args.push(String::from_str("-pixel_format"));
            args.push(String::from_str("rgb24"));
            args.push(String::from_str("-video_size"));
            let mut size = u32_string(self.width);
            size.append("x");
            let h = u32_string(self.height);
            size.append(h.as_str());
            args.push(size);
            args.push(String::from_str("-framerate"));
            args.push(u32_string(self.fps));
            args.push(String::from_str("-i"));
            args.push(String::from_str("-"));
        }
        args.push(String::from_str("-c:v"));
        args.push(String::from_str("libx264"));
        args.push(String::from_str("-preset"));
        args.push(String::from_str("ultrafast"));
        args.push(String::from_str("-crf"));
        args.push(String::from_str("23"));
        args.push(String::from_str("-pix_fmt"));
        args.push(String::from_str("yuv420p"));
        args.push(String::from_str("-movflags"));
        args.push(String::from_str("+faststart"));
        args.push(String::from_str("-profile:v"));
        args.push(String::from_str("high"));
        args.push(String::from_str("-tune"));
        args.push(String::from_str("zerolatency"));
        args.push(String::from_str("-y"));
        args.push(self.output_path.clone());
        args
    }

    /// Decide the start from the probe outcome the caller observed after
    /// launching the capture invocation: retain the handle only for a
    /// confirmed running process; diagnose an immediate exit and mark any
    /// partial artifact for removal.
    pub fn start(&mut self, outcome: &SpawnOutcome) -> (r: Result<(), StartError>)
        ensures
            *final(self) == ffmpeg_start_spec(*old(self), *outcome).0,
            (match r {
                Ok(()) => ffmpeg_start_spec(*old(self), *outcome).1 is None,
                Err(e) => (ffmpeg_start_spec(*old(self), *outcome).1 matches Some(m) && e@ == m),
            }),
            r is Ok ==> final(self).running,
    {
        match outcome {
            SpawnOutcome::LaunchFailed { error } => {
                let mut message = String::from_str("Failed to start FFmpeg: ");
                message.append(error.as_str());
                Err(StartError { message, remove_partial_artifact: false })
            },
            SpawnOutcome::ExitedImmediately { status, diagnostics } => {
                let message = diagnose_exit(status.as_str(), diagnostics.as_str(), self.platform);
                Err(StartError { message, remove_partial_artifact: true })
            },
            SpawnOutcome::ProbeFailed { error } => {
                let mut message = String::from_str("Failed to check FFmpeg process status: ");
                message.append(error.as_str());
                Err(StartError { message, remove_partial_artifact: false })
            },
            SpawnOutcome::Running { output_dir_error } => {
                let windows = matches!(self.platform, Platform::Windows);
                match (windows, output_dir_error) {
                    (true, Some(detail)) => {
                        let mut message = String::from_str(
                            "No write permission in output directory: ",
                        );
                        message.append(detail.as_str());
                        Err(StartError { message, remove_partial_artifact: false })
                    },
                    _ => {
                        self.running = true;
                        Ok(())
                    },
                }
            },
        }
    }

    /// Decide the stop from what the caller observed after the graceful-quit
    /// signal and the wait: idempotent with nothing retained; otherwise the
    /// artifact must exist and be non-empty, and a success therefore always
    /// stands for a usable video artifact of positive size.
    pub fn stop(&mut self, outcome: &StopOutcome) -> (r: Result<(), String>)
        ensures
            *final(self) == ffmpeg_stop_spec(*old(self), *outcome).0,
            (match r {
                Ok(()) => ffmpeg_stop_spec(*old(self), *outcome).1 is None,
                Err(m) => (ffmpeg_stop_spec(*old(self), *outcome).1 matches Some(s) && m@ == s),
            }),
            !old(self).running ==> *final(self) == *old(self) && r is Ok,
            r is Ok && old(self).running ==> outcome.artifact_exists && outcome.artifact_size > 0,
            !final(self).running,
    {
        if !self.running {
            return Ok(());
        }
        self.running = false;
        if !outcome.artifact_exists {
            return Err(String::from_str("FFmpeg failed to create output file"));
        }
        if outcome.artifact_size == 0 {
            return Err(String::from_str("FFmpeg created empty output file"));
        }
        Ok(())
    }
}

/// The native capture recorder one platform substitutes for the external
/// process, satisfying the identical start/stop contract.
#[derive(Debug, Clone, PartialEq)]
pub struct NativeRecorder {
    pub output_path: String,
    pub running: bool,
}

/// How the native recorder's start decides; the contract mirrors the
/// process-backed recorder's, with no output-directory probe.
pub open spec fn native_start_spec(r: NativeRecorder, o: SpawnOutcome) -> (NativeRecorder, Option<
    StartErrorModel,
>) {
    match o {
        SpawnOutcome::LaunchFailed { error } => (
            r,
            Some(
                StartErrorModel {
                    message: "Failed to start FFmpeg: "@ + error@,
                    remove_partial_artifact: false,
                },
            ),
        ),
        SpawnOutcome::ExitedImmediately { status, diagnostics } => (
            r,
            Some(
                StartErrorModel {
                    message: exit_diagnosis(status@, diagnostics@, Platform::MacOs),
                    remove_partial_artifact: true,
                },
            ),
        ),
        SpawnOutcome::ProbeFailed { error } => (
            r,
            Some(
                StartErrorModel {
                    message: "Failed to check FFmpeg process status: "@ + error@,
                    remove_partial_artifact: false,
                },
            ),
        ),
        SpawnOutcome::Running { .. } => (NativeRecorder { running: true, ..r }, None),
    }
}

/// How the native recorder's stop decides; identical artifact validation.
pub open spec fn native_stop_spec(r: NativeRecorder, o: StopOutcome) -> (NativeRecorder, Option<
    Seq<char>,
>) {
    if !r.running {
        (r, None)
    } else {
        let released = NativeRecorder { running: false, ..r };
        if !o.artifact_exists {
            (released, Some("FFmpeg failed to create output file"@))
        } else if o.artifact_size == 0 {
            (released, Some("FFmpeg created empty output file"@))
        } else {
            (released, None)
        }
    }
}

impl NativeRecorder {
    /// Bind the output path for one native capture session.
    pub fn new(output_path: String) -> (r: Self)
        ensures
            r.output_path == output_path,
            !r.running,
    {
        NativeRecorder { output_path, running: false }
    }

    /// Decide the start from the observed outcome; identical contract to the
    /// process-backed recorder.
    pub fn start(&mut self, outcome: &SpawnOutcome) -> (r: Result<(), StartError>)
        ensures
            *final(self) == native_start_spec(*old(self), *outcome).0,
            (match r {
                Ok(()) => native_start_spec(*old(self), *outcome).1 is None,
                Err(e) => (native_start_spec(*old(self), *outcome).1 matches Some(m) && e@ == m),
            }),
            r is Ok ==> final(self).running,
    {
        match outcome {
            SpawnOutcome::LaunchFailed { error } => {
                let mut message = String::from_str("Failed to start FFmpeg: ");
                message.append(error.as_str());
                Err(StartError { message, remove_partial_artifact: false })
            },
            SpawnOutcome::ExitedImmediately { status, diagnostics } => {
                let message = diagnose_exit(status.as_str(), diagnostics.as_str(), Platform::MacOs);
                Err(StartError { message, remove_partial_artifact: true })
            },
            SpawnOutcome::ProbeFailed { error } => {
                let mut message = String::from_str("Failed to check FFmpeg process status: ");
                message.append(error.as_str());
                Err(StartError { message, remove_partial_artifact: false })
            },
            SpawnOutcome::Running { .. } => {
                self.running = true;
                Ok(())
            },
        }
    }

    /// Decide the stop from the observed outcome; identical artifact
    /// validation.
    pub fn stop(&mut self, outcome: &StopOutcome) -> (r: Result<(), String>)
        ensures
            *final(self) == native_stop_spec(*old(self), *outcome).0,
            (match r {
                Ok(()) => native_stop_spec(*old(self), *outcome).1 is None,
                Err(m) => (native_stop_spec(*old(self), *outcome).1 matches Some(s) && m@ == s),
            }),
            !old(self).running ==> *final(self) == *old(self) && r is Ok,
            r is Ok && old(self).running ==> outcome.artifact_exists && outcome.artifact_size > 0,
            !final(self).running,
    {
        if !self.running {
            return Ok(());
        }
        self.running = false;
        if !outcome.artifact_exists {
            return Err(String::from_str("FFmpeg failed to create output file"));
        }
        if outcome.artifact_size == 0 {
            return Err(String::from_str("FFmpeg created empty output file"));
        }
        Ok(())
    }
}

/// Whether the diagnosis of an immediate exit carries the administrator
/// hint: exactly when the platform matches hints, diagnostics were captured
/// and they name a denied permission without a missing capture device.
pub proof fn lemma_permission_hint(status: Seq<char>, diagnostics: Seq<char>)
    requires
        diagnostics.len() > 0,
        contains_seq(diagnostics, "Permission denied"@),
        !contains_seq(diagnostics, "Could not find video device"@),
    ensures
        contains_seq(
            exit_diagnosis(status, diagnostics, Platform::Windows),
            "Try running the application as administrator"@,
        ),
{
    let with_output = "FFmpeg process exited immediately with status: "@ + status
        + "\nFFmpeg error output: "@ + diagnostics;
    let hint = "\nHint: Try running the application as administrator."@;
    let needle = "Try running the application as administrator"@;
    reveal_strlit("\nHint: Try running the application as administrator.");
    reveal_strlit("Try running the application as administrator");
    assert(crate::strutil::match_at(hint, needle, 7)) by {
        assert(hint.subrange(7, 7 + needle.len() as int) =~= needle);
    }
    crate::strutil::lemma_contains_concat_right(with_output, hint, needle);
}

} // verus!
