//! Recording-resource decisions.
//!
//! One recording is one external capture process writing a WAV file
//! (16 kHz, mono, signed 16-bit little-endian) to a caller-supplied path.
//! Spawning, signalling and waiting for that process are the driver's job;
//! the invocation it must use and the judgment of a finished stop are
//! decided here.

use vstd::prelude::*;

verus! {

/// Stopping a recording failed: the capture file is missing after the
/// recorder exited.
#[derive(Debug, Clone, PartialEq)]
pub struct RecordingFileMissing {
    pub path: String,
}

impl RecordingFileMissing {
    /// The user-facing message of this error.
    pub fn message(&self) -> (r: String)
        ensures
            r@ == "Recording file not found: "@ + self.path@,
    {
        let mut out = String::new();
        out.append("Recording file not found: ");
        out.append(self.path.as_str());
        proof {
            assert(out@ =~= "Recording file not found: "@ + self.path@);
        }
        out
    }
}

/// Judge a finished stop: a stop yields the capture file exactly when that
/// file exists, and otherwise fails explicitly — it never hands out a path
/// to a nonexistent file.
pub fn stop_outcome(file_exists: bool, path: String) -> (r: Result<String, RecordingFileMissing>)
    ensures
        match r {
            Ok(p) => file_exists && p@ == path@,
            Err(e) => !file_exists && e.path@ == path@,
        },
{
    if file_exists {
        Ok(path)
    } else {
        Err(RecordingFileMissing { path })
    }
}

/// The arguments the capture process is started with: WAV, PCM signed
/// 16-bit little-endian, 16000 Hz, mono, into the given path.
pub fn arecord_args(output_path: &str) -> (r: Vec<String>)
    ensures
        r.deep_view() == seq![
            "-f"@,
            "S16_LE"@,
            "-r"@,
            "16000"@,
            "-c"@,
            "1"@,
            "-t"@,
            "wav"@,
            output_path@,
        ],
{
    let mut args: Vec<String> = Vec::new();
    args.push(String::from_str("-f"));
    args.push(String::from_str("S16_LE"));
    args.push(String::from_str("-r"));
    args.push(String::from_str("16000"));
    args.push(String::from_str("-c"));
    args.push(String::from_str("1"));
    args.push(String::from_str("-t"));
    args.push(String::from_str("wav"));
    args.push(output_path.to_owned());
    proof {
        assert(args.deep_view() =~= seq![
            "-f"@,
            "S16_LE"@,
            "-r"@,
            "16000"@,
            "-c"@,
            "1"@,
            "-t"@,
            "wav"@,
            output_path@,
        ]);
    }
    args
}

/// The capture file's path inside a fresh temporary directory.
pub fn capture_path_in(dir: &str) -> (r: String)
    ensures
        r@ == dir@ + "/escucha_recording.wav"@,
{
    let mut out = dir.to_owned();
    out.append("/escucha_recording.wav");
    out
}

} // verus!
