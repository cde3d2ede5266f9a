//! Where whisper models live, where they are downloaded from, and how the
//! text of transcribed segments is put together.

use vstd::prelude::*;
use crate::text::{concat2, concat3, trim, trimmed};

verus! {

/// Segments shorter than this many samples (100 ms at 16 kHz) are not transcribed.
pub const MIN_TRANSCRIBE_SAMPLES: usize = 1600;

/// The directory that holds downloaded models.
pub open spec fn models_dir_spec(app_data_dir: Seq<char>) -> Seq<char> {
    app_data_dir + "\\models"@
}

/// The file of a model: `<app data>\models\ggml-<name>.bin`.
pub open spec fn model_path_spec(app_data_dir: Seq<char>, model_name: Seq<char>) -> Seq<char> {
    app_data_dir + "\\models\\ggml-"@ + model_name + ".bin"@
}

/// The directory that holds downloaded models.
pub fn models_dir(app_data_dir: &str) -> (p: String)
    ensures
        p@ == models_dir_spec(app_data_dir@),
{
    concat2(app_data_dir, "\\models")
}

/// Returns the expected path for the whisper model in the app data directory.
pub fn model_path(app_data_dir: &str, model_name: &str) -> (p: String)
    ensures
        p@ == model_path_spec(app_data_dir@, model_name@),
{
    let mut p = concat3(app_data_dir, "\\models\\ggml-", model_name);
    p.append(".bin");
    p
}

/// Checks whether the model file at `model_path(app_data_dir, model_name)`
/// exists: `file_exists` is asked about that path, once, and its answer is returned.
pub fn model_exists<F: Fn(String) -> bool>(app_data_dir: &str, model_name: &str, file_exists: F) -> (b:
    bool)
    requires
        forall|p: String| file_exists.requires((p,)),
    ensures
        exists|p: String|
            p@ == model_path_spec(app_data_dir@, model_name@) && file_exists.ensures((p,), b),
{
    let p = model_path(app_data_dir, model_name);
    file_exists(p)
}

/// Where a model is downloaded from.
pub fn model_download_url(model_name: &str) -> (u: String)
    ensures
        u@ == "https://huggingface.co/ggerganov/whisper.cpp/resolve/main/ggml-"@ + model_name@
            + ".bin"@,
{
    concat3("https://huggingface.co/ggerganov/whisper.cpp/resolve/main/ggml-", model_name, ".bin")
}

/// A downloaded model is stored in the models directory under the file name
/// that `model_path` gives, so the model that was downloaded is the one that
/// is looked for.
pub proof fn lemma_model_path_in_models_dir(app_data_dir: Seq<char>, model_name: Seq<char>)
    ensures
        model_path_spec(app_data_dir, model_name) == models_dir_spec(app_data_dir) + "\\ggml-"@
            + model_name + ".bin"@,
{
    reveal_strlit("\\models\\ggml-");
    reveal_strlit("\\models");
    reveal_strlit("\\ggml-");
    assert(model_path_spec(app_data_dir, model_name) =~= models_dir_spec(app_data_dir)
        + "\\ggml-"@ + model_name + ".bin"@);
}

/// Whether a segment of this many samples is long enough to transcribe.
pub fn long_enough_to_transcribe(sample_count: usize) -> (b: bool)
    ensures
        b == (sample_count >= MIN_TRANSCRIBE_SAMPLES),
{
    sample_count >= MIN_TRANSCRIBE_SAMPLES
}

/// Each segment text that was read, followed by a space, in order.
pub open spec fn joined_segments(texts: Seq<Option<String>>) -> Seq<char>
    decreases texts.len(),
{
    if texts.len() == 0 {
        Seq::empty()
    } else {
        joined_segments(texts.drop_last()) + match texts.last() {
            Some(t) => t@ + " "@,
            None => Seq::empty(),
        }
    }
}

/// The transcript of a segment: the texts of its parts that could be read
/// (`None` marks one that could not), separated by spaces and trimmed.
pub fn transcript_from_segments(texts: &Vec<Option<String>>) -> (t: String)
    ensures
        t@ == trimmed(joined_segments(texts@)),
{
    let mut joined = String::new();
    let n = texts.len();
    let mut i: usize = 0;
    while i < n
        invariant
            n == texts@.len(),
            i <= n,
            joined@ == joined_segments(texts@.take(i as int)),
        decreases n - i,
    {
        assert(texts@.take(i as int + 1).drop_last() =~= texts@.take(i as int));
        match &texts[i] {
            Some(s) => {
                joined.append(s.as_str());
                joined.append(" ");
            },
            None => {},
        }
        i = i + 1;
    }
    assert(texts@.take(n as int) =~= texts@);
    trim(joined.as_str())
}

} // verus!
