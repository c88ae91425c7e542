//! Choosing the inference backend that the configuration names.

use vstd::prelude::*;
use vstd::string::*;
use crate::config::EngineConfig;

verus! {

/// The inference backends this daemon knows.
#[derive(Debug, Clone, Copy, PartialEq, Eq)]
pub enum ProviderKind {
    /// whisper.cpp, loaded from a GGML model file.
    WhisperCpp,
}

/// The configuration names a backend this daemon does not know.
#[derive(Debug, PartialEq, Eq)]
pub struct UnknownProvider {
    pub name: String,
}

impl UnknownProvider {
    /// The error text: `Unknown engine provider: ` followed by the name.
    pub fn message(&self) -> (text: String)
        ensures
            text@ == "Unknown engine provider: "@ + self.name@,
    {
        let mut text = String::from_str("Unknown engine provider: ");
        text.append(self.name.as_str());
        text
    }
}

/// The backend that `[engine].provider` names: `whisper_cpp` is the only one
/// known; any other name is refused, and the error carries it.
pub fn from_config(engine: &EngineConfig) -> (r: Result<ProviderKind, UnknownProvider>)
    ensures
        r is Ok <==> engine.provider@ == "whisper_cpp"@,
        r matches Ok(kind) ==> kind == ProviderKind::WhisperCpp,
        r matches Err(e) ==> e.name@ == engine.provider@,
{
    let known = String::from_str("whisper_cpp");
    if engine.provider == known {
        Ok(ProviderKind::WhisperCpp)
    } else {
        Err(UnknownProvider { name: engine.provider.clone() })
    }
}

} // verus!
