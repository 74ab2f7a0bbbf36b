//! Audio diagnostics: a report of backend availability, and the
//! classification of audio error messages.

use vstd::prelude::*;

use super::backends::{
    backend_type_name, selected_backend, AudioSystem, BackendProbe, BackendType,
};
use crate::text::{contains, lowercase, seq_contains, to_lowercase};

verus! {

/// Whether Rodio is available according to the probe.
pub fn is_rodio_available(probe: &BackendProbe) -> (b: bool)
    ensures
        b == probe.rodio_available,
{
    probe.rodio_available
}

/// Whether SDL2 is available according to the probe.
pub fn is_sdl2_available(probe: &BackendProbe) -> (b: bool)
    ensures
        b == (probe.sdl2_init_error is None),
{
    probe.sdl2_available()
}

/// "Available" or "Not available".
pub open spec fn availability(b: bool) -> Seq<char> {
    if b {
        "Available"@
    } else {
        "Not available"@
    }
}

/// Lines describing the selected backend.
pub open spec fn selection_lines(t: BackendType) -> Seq<char> {
    match t {
        BackendType::Rodio => "  rodio (ALSA) - Standard Linux audio\n"@,
        BackendType::SDL2 => "  sdl2 (PulseAudio) - Qubes/custom systems\n"@,
        BackendType::FileOnly => "  none - No audio backend available\n"@
            + "  Use: thaleia speak --output file.wav\n"@,
    }
}

/// Hint lines for what probing found.
pub open spec fn hint_lines(rodio: bool, sdl2: bool) -> Seq<char> {
    if !rodio && !sdl2 {
        "  - No audio backends available\n"@ + "  - Check audio device configuration\n"@
            + "  - On Qubes: Set up sys-audio qube\n"@
            + "  - Use file-based output: thaleia speak --output audio.wav\n"@
    } else if !rodio && sdl2 {
        "  - Only SDL2 available (Qubes/PulseAudio mode)\n"@ + "  - Audio will use PulseAudio\n"@
    } else {
        Seq::empty()
    }
}

/// The diagnostic report for a probe.
pub open spec fn report_of(probe: BackendProbe) -> Seq<char> {
    let rodio = probe.rodio_available;
    let sdl2 = probe.sdl2_init_error is None;
    let t = selected_backend(probe);
    "=== Audio Diagnostics ===\n\n"@ + "Backend Availability:\n"@ + "  Rodio (ALSA):     "@
        + availability(rodio) + "\n"@ + "  SDL2 (PulseAudio): "@ + availability(sdl2) + "\n"@
        + "\nAuto-selected Backend:\n"@ + selection_lines(t) + "\nCurrent Backend: "@
        + backend_type_name(t) + "\n"@ + "\nHints:\n"@ + hint_lines(rodio, sdl2)
}

fn availability_str(b: bool) -> (s: &'static str)
    ensures
        s@ == availability(b),
{
    if b {
        "Available"
    } else {
        "Not available"
    }
}

/// A human-readable report: which backends are available, which one would
/// be selected, and hints.
pub fn full_diagnostic_report(probe: &BackendProbe) -> (r: String)
    ensures
        r@ == report_of(*probe),
{
    let rodio = is_rodio_available(probe);
    let sdl2 = is_sdl2_available(probe);
    let mut report = String::from_str("=== Audio Diagnostics ===\n\n");
    report.append("Backend Availability:\n");
    report.append("  Rodio (ALSA):     ");
    report.append(availability_str(rodio));
    report.append("\n");
    report.append("  SDL2 (PulseAudio): ");
    report.append(availability_str(sdl2));
    report.append("\n");
    report.append("\nAuto-selected Backend:\n");
    let system = AudioSystem::new(probe);
    match system {
        AudioSystem::Rodio(_) => {
            report.append("  rodio (ALSA) - Standard Linux audio\n");
        },
        AudioSystem::SDL2(_) => {
            report.append("  sdl2 (PulseAudio) - Qubes/custom systems\n");
        },
        AudioSystem::FileOnly => {
            report.append("  none - No audio backend available\n");
            report.append("  Use: thaleia speak --output file.wav\n");
        },
    }
    report.append("\nCurrent Backend: ");
    report.append(system.backend_name());
    report.append("\n");
    report.append("\nHints:\n");
    if !rodio && !sdl2 {
        report.append("  - No audio backends available\n");
        report.append("  - Check audio device configuration\n");
        report.append("  - On Qubes: Set up sys-audio qube\n");
        report.append("  - Use file-based output: thaleia speak --output audio.wav\n");
    } else if !rodio && sdl2 {
        report.append("  - Only SDL2 available (Qubes/PulseAudio mode)\n");
        report.append("  - Audio will use PulseAudio\n");
    }
    report
}

/// Title and advice for an audio error message whose lowercase form is
/// `l`, chosen by the first keyword group found in it.
pub open spec fn category_given(l: Seq<char>) -> (Seq<char>, Seq<char>) {
    if seq_contains(l, "no such file"@) || seq_contains(l, "unknown pcm"@) {
        (
            "No audio device found"@,
            "Check that speakers/headphones are connected. On Qubes: Set up sys-audio qube."@,
        )
    } else if seq_contains(l, "permission"@) || seq_contains(l, "denied"@) {
        (
            "Audio permission denied"@,
            "Your user may not have access to audio. Try adding yourself to the 'audio' group."@,
        )
    } else if seq_contains(l, "device"@) || seq_contains(l, "unplugged"@) {
        (
            "Audio device unavailable"@,
            "The audio device was disconnected. Check cable connection."@,
        )
    } else if seq_contains(l, "exclusive"@) || seq_contains(l, "busy"@) {
        (
            "Audio device in use"@,
            "Another application may be using the audio device. Close other audio apps and try again."@,
        )
    } else {
        ("Audio error"@, "Check audio configuration. Use --output for file-based output."@)
    }
}

/// Title and advice for an audio error message of the lowercase form
/// `l`.
pub fn categorize_lowered(l: &str) -> (r: (&'static str, &'static str))
    ensures
        (r.0@, r.1@) == category_given(l@),
{
    if contains(l, "no such file") || contains(l, "unknown pcm") {
        (
            "No audio device found",
            "Check that speakers/headphones are connected. On Qubes: Set up sys-audio qube.",
        )
    } else if contains(l, "permission") || contains(l, "denied") {
        (
            "Audio permission denied",
            "Your user may not have access to audio. Try adding yourself to the 'audio' group.",
        )
    } else if contains(l, "device") || contains(l, "unplugged") {
        ("Audio device unavailable", "The audio device was disconnected. Check cable connection.")
    } else if contains(l, "exclusive") || contains(l, "busy") {
        (
            "Audio device in use",
            "Another application may be using the audio device. Close other audio apps and try again.",
        )
    } else {
        ("Audio error", "Check audio configuration. Use --output for file-based output.")
    }
}

/// Title and advice for an audio error message, chosen by the first
/// keyword group found in the lowercased message.
pub open spec fn error_category(error: Seq<char>) -> (Seq<char>, Seq<char>) {
    category_given(lowercase(error))
}

/// Categorizes an audio error message for a better user message.
pub fn categorize_error(error: &str) -> (r: (&'static str, &'static str))
    ensures
        (r.0@, r.1@) == error_category(error@),
{
    let lower = to_lowercase(error);
    categorize_lowered(lower.as_str())
}

} // verus!
