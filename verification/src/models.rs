//! The built-in downloadable models and related plain records. Downloading
//! itself, and the audio transcriber these results come from, are external
//! collaborators.

use vstd::prelude::*;
use vstd::string::StringExecFns;

verus! {

/// One downloadable model: where to get it and what to store it as.
#[derive(Debug, Clone)]
pub struct ModelInfo {
    pub name: String,
    pub url: String,
    pub filename: String,
    pub size_mb: u64,
}

/// The download half of a catalogue entry.
#[derive(Debug, Clone)]
pub struct ModelDownload {
    pub url: String,
    pub checksum_sha256: String,
    pub filename: String,
}

/// What an audio transcription hands back.
#[derive(Debug, Clone)]
pub struct TranscriptionResult {
    pub text: String,
}

/// Whether a download progress notice goes out, and with which percentage:
/// only at whole five-percent marks, only when the mark changed since the
/// last notice, and never when the total size is unknown.
pub fn download_progress(downloaded: u64, total: u64, last_percent: u8) -> (r: Option<u8>)
    ensures
        ({
            let ratio = downloaded as int * 100 / total as int;
            let pct = (if ratio > 255 {
                255int
            } else {
                ratio
            }) as u8;
            if total > 0 && pct != last_percent && pct as int % 5 == 0 {
                r == Some(pct)
            } else {
                r is None
            }
        }),
{
    if total == 0 {
        return None;
    }
    let wide = (downloaded as u128) * 100 / (total as u128);
    let pct: u8 = if wide > 255 {
        255
    } else {
        wide as u8
    };
    if pct != last_percent && pct % 5 == 0 {
        Some(pct)
    } else {
        None
    }
}

impl ModelInfo {
    /// The default small chat model.
    pub fn llama32_1b() -> (r: ModelInfo)
        ensures
            r.name@ == "Llama 3.2 1B Instruct"@,
            r.url@
                == "https://huggingface.co/bartowski/Llama-3.2-1B-Instruct-GGUF/resolve/main/Llama-3.2-1B-Instruct-Q4_K_M.gguf"@,
            r.filename@ == "llama3.2-1b.gguf"@,
            r.size_mb == 800,
    {
        ModelInfo {
            name: String::from_str("Llama 3.2 1B Instruct"),
            url: String::from_str(
                "https://huggingface.co/bartowski/Llama-3.2-1B-Instruct-GGUF/resolve/main/Llama-3.2-1B-Instruct-Q4_K_M.gguf",
            ),
            filename: String::from_str("llama3.2-1b.gguf"),
            size_mb: 800,
        }
    }

    /// A compact alternative chat model.
    pub fn gemma_1b() -> (r: ModelInfo)
        ensures
            r.name@ == "Gemma 3 1B Instruct"@,
            r.url@
                == "https://huggingface.co/bartowski/google_gemma-3-1b-it-GGUF/resolve/main/gemma-3-1b-it-Q4_0.gguf"@,
            r.filename@ == "gemma-3-1b-it-Q4_0.gguf"@,
            r.size_mb == 722,
    {
        ModelInfo {
            name: String::from_str("Gemma 3 1B Instruct"),
            url: String::from_str(
                "https://huggingface.co/bartowski/google_gemma-3-1b-it-GGUF/resolve/main/gemma-3-1b-it-Q4_0.gguf",
            ),
            filename: String::from_str("gemma-3-1b-it-Q4_0.gguf"),
            size_mb: 722,
        }
    }

    /// A mid-sized chat model.
    pub fn phi3_mini() -> (r: ModelInfo)
        ensures
            r.name@ == "Phi-3 Mini"@,
            r.url@
                == "https://huggingface.co/microsoft/Phi-3-mini-4k-instruct-gguf/resolve/main/Phi-3-mini-4k-instruct-q4.gguf"@,
            r.filename@ == "phi-3-mini-4k-instruct-q4.gguf"@,
            r.size_mb == 2300,
    {
        ModelInfo {
            name: String::from_str("Phi-3 Mini"),
            url: String::from_str(
                "https://huggingface.co/microsoft/Phi-3-mini-4k-instruct-gguf/resolve/main/Phi-3-mini-4k-instruct-q4.gguf",
            ),
            filename: String::from_str("phi-3-mini-4k-instruct-q4.gguf"),
            size_mb: 2300,
        }
    }
}

} // verus!
