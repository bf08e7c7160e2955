use chatcore::models::download_progress;
use chatcore::models::ModelInfo;
use chatcore::strutil::i64_to_string;
use chatcore::strutil::trim_str;
use chatcore::strutil::u64_to_string;

#[test]
fn builtin_models_are_fixed() {
    let llama = ModelInfo::llama32_1b();
    assert_eq!(llama.name, "Llama 3.2 1B Instruct");
    assert_eq!(llama.filename, "llama3.2-1b.gguf");
    assert_eq!(llama.size_mb, 800);
    assert!(llama.url.starts_with("https://huggingface.co/"));

    let gemma = ModelInfo::gemma_1b();
    assert_eq!(gemma.name, "Gemma 3 1B Instruct");
    assert_eq!(gemma.filename, "gemma-3-1b-it-Q4_0.gguf");
    assert_eq!(gemma.size_mb, 722);

    let phi = ModelInfo::phi3_mini();
    assert_eq!(phi.name, "Phi-3 Mini");
    assert_eq!(phi.filename, "phi-3-mini-4k-instruct-q4.gguf");
    assert_eq!(phi.size_mb, 2300);
}

#[test]
fn decimal_rendering() {
    assert_eq!(u64_to_string(0), "0");
    assert_eq!(u64_to_string(604800), "604800");
    assert_eq!(i64_to_string(-5), "-5");
    assert_eq!(i64_to_string(0), "0");
    assert_eq!(i64_to_string(i64::MIN), "-9223372036854775808");
    assert_eq!(i64_to_string(i64::MAX), "9223372036854775807");
}

#[test]
fn trimming_is_ascii_whitespace() {
    assert_eq!(trim_str("  a b \t\n"), "a b");
    assert_eq!(trim_str(""), "");
    assert_eq!(trim_str(" \r\n "), "");
}

#[test]
fn download_progress_notices_at_five_percent_marks() {
    assert_eq!(download_progress(50, 100, 0), Some(50));
    assert_eq!(download_progress(52, 100, 50), None);
    assert_eq!(download_progress(55, 100, 50), Some(55));
    assert_eq!(download_progress(55, 100, 55), None);
    assert_eq!(download_progress(10, 0, 0), None);
    assert_eq!(download_progress(100, 100, 95), Some(100));
}
