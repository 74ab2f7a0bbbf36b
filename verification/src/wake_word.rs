//! Wake word detection: backend selection and the keyword reported. The
//! energy detector itself runs in the application.

use vstd::prelude::*;
use vstd::string::*;

verus! {

/// Selectable wake word backend.
#[derive(Debug, Clone, Copy, PartialEq, Eq, Structural)]
pub enum WakeWordBackendType {
    /// Silero ONNX-based wake word.
    Silero,
    /// Simple energy-based keyword spotting.
    Placeholder,
}

impl Default for WakeWordBackendType {
    fn default() -> (t: Self)
        ensures
            t == WakeWordBackendType::Silero,
    {
        WakeWordBackendType::Silero
    }
}

impl WakeWordBackendType {
    /// Name of the backend type.
    pub fn name(&self) -> (s: &'static str)
        ensures
            s@ == (match *self {
                WakeWordBackendType::Silero => "silero"@,
                WakeWordBackendType::Placeholder => "placeholder"@,
            }),
    {
        match self {
            WakeWordBackendType::Silero => "silero",
            WakeWordBackendType::Placeholder => "placeholder",
        }
    }
}

/// The keywords listened for by default: "hey_thaleia".
pub fn default_keywords() -> (v: Vec<String>)
    ensures
        v@.len() == 1,
        v@[0]@ == "hey_thaleia"@,
{
    let mut v: Vec<String> = Vec::new();
    v.push(String::from_str("hey_thaleia"));
    v
}

/// The keyword reported on a detection: the first configured keyword, or
/// the empty string when none is configured.
pub fn reported_keyword(keywords: &Vec<String>) -> (k: String)
    ensures
        keywords@.len() > 0 ==> k@ == keywords@[0]@,
        keywords@.len() == 0 ==> k@ == Seq::<char>::empty(),
{
    if keywords.len() > 0 {
        keywords[0].clone()
    } else {
        String::new()
    }
}

} // verus!
