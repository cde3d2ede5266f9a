//! The logic of the commands offered to the user interface. Each command
//! answers with a `CommandResult`: its data on success, a message otherwise.

use vstd::prelude::*;
use crate::groq::{GroqError, ModelInfo, available_models, groq_error_text, model_catalog};
use crate::keyring_store::{
    self, Credential, KeyStoreError, StoreAnswer, deleted_key_spec, has_key_spec,
    is_api_key_credential, key_store_error_text, loaded_key_spec, saved_key_spec,
};
use crate::text::{concat2, trim, trimmed};
use crate::transcriber::{model_exists, model_path_spec};

verus! {

/// Uniform answer of a command.
pub struct CommandResult<T> {
    pub success: bool,
    pub data: Option<T>,
    pub error: Option<String>,
}

/// `r` reports success with `data`.
pub open spec fn succeeded<T>(r: CommandResult<T>, data: T) -> bool {
    r.success && r.data == Some(data) && r.error is None
}

/// `r` reports failure with the message `msg`.
pub open spec fn failed<T>(r: CommandResult<T>, msg: Seq<char>) -> bool {
    &&& !r.success
    &&& r.data is None
    &&& r.error matches Some(m) && m@ == msg
}

impl<T> CommandResult<T> {
    pub fn ok(data: T) -> (r: Self)
        ensures
            succeeded(r, data),
    {
        CommandResult { success: true, data: Some(data), error: None }
    }

    pub fn err(msg: String) -> (r: Self)
        ensures
            !r.success,
            r.data is None,
            r.error == Some(msg),
    {
        CommandResult { success: false, data: None, error: Some(msg) }
    }
}

/// Every command result either succeeds with data and no message, or fails
/// with a message and no data.
pub open spec fn well_formed<T>(r: CommandResult<T>) -> bool {
    (r.success && r.data is Some && r.error is None) || (!r.success && r.data is None
        && r.error is Some)
}

/// Both constructors give well-formed results.
pub proof fn lemma_results_well_formed<T>(r: CommandResult<T>, data: T, msg: Seq<char>)
    requires
        succeeded(r, data) || failed(r, msg),
    ensures
        well_formed(r),
{
}

fn fail<T>(prefix: &str, detail: &str) -> (r: CommandResult<T>)
    ensures
        failed(r, prefix@ + detail@),
{
    CommandResult::err(concat2(prefix, detail))
}

/// The message for an empty key.
pub open spec fn empty_key_message() -> Seq<char> {
    "API key cannot be empty"@
}

/// A key typed by the user, without surrounding whitespace; it must not be empty.
pub fn api_key_input(key: &str) -> (r: Result<String, String>)
    ensures
        trimmed(key@).len() == 0 ==> (r matches Err(m) && m@ == empty_key_message()),
        trimmed(key@).len() > 0 ==> (r matches Ok(k) && k@ == trimmed(key@)),
{
    let k = trim(key);
    if k.as_str().is_empty() {
        Err(String::from_str("API key cannot be empty"))
    } else {
        Ok(k)
    }
}

/// How the answer of the key store to a save is reported.
pub open spec fn save_reported(r: CommandResult<()>, outcome: Result<(), KeyStoreError>) -> bool {
    match outcome {
        Ok(()) => succeeded(r, ()),
        Err(e) => failed(r, "Failed to save API key: "@ + key_store_error_text(e)),
    }
}

/// Reports the outcome of saving the key.
pub fn save_outcome(outcome: Result<(), KeyStoreError>) -> (r: CommandResult<()>)
    ensures
        save_reported(r, outcome),
{
    match outcome {
        Ok(()) => CommandResult::ok(()),
        Err(e) => fail("Failed to save API key: ", e.message().as_str()),
    }
}

/// Saves the key typed by the user, without surrounding whitespace. An empty
/// key is refused before the store is asked (`write` may only be asked to
/// store the trimmed, non-empty key); otherwise `write` is asked,
/// once, to store the trimmed key under the API-key credential, and its
/// answer is reported.
pub fn save_api_key<W: FnOnce(Credential, String) -> StoreAnswer<()>>(key: String, write: W) -> (r:
    CommandResult<()>)
    requires
        forall|c: Credential, k: String|
            trimmed(key@).len() > 0 && k@ == trimmed(key@) ==> #[trigger] write.requires((c, k)),
    ensures
        trimmed(key@).len() == 0 ==> failed(r, empty_key_message()),
        trimmed(key@).len() > 0 ==> exists|c: Credential, k: String, a: StoreAnswer<()>|
            is_api_key_credential(c) && k@ == trimmed(key@) && write.ensures((c, k), a)
                && save_reported(r, saved_key_spec(a)),
{
    match api_key_input(key.as_str()) {
        Err(m) => CommandResult::err(m),
        Ok(k) => {
            let outcome = keyring_store::save_api_key(k.as_str(), write);
            save_outcome(outcome)
        },
    }
}

/// How the answer of the key store to a read is reported.
pub open spec fn load_reported(
    r: CommandResult<Option<String>>,
    outcome: Result<Option<String>, KeyStoreError>,
) -> bool {
    match outcome {
        Ok(k) => succeeded(r, k),
        Err(e) => failed(r, "Failed to load API key: "@ + key_store_error_text(e)),
    }
}

/// Reports the outcome of reading the key.
pub fn load_outcome(outcome: Result<Option<String>, KeyStoreError>) -> (r: CommandResult<
    Option<String>,
>)
    ensures
        load_reported(r, outcome),
{
    match outcome {
        Ok(k) => CommandResult::ok(k),
        Err(e) => fail("Failed to load API key: ", e.message().as_str()),
    }
}

/// Reads the stored key, if any: `read` is asked, once, for the API-key
/// credential, and its answer is reported.
pub fn get_api_key<R: FnOnce(Credential) -> StoreAnswer<String>>(read: R) -> (r: CommandResult<
    Option<String>,
>)
    requires
        forall|c: Credential| read.requires((c,)),
    ensures
        exists|c: Credential, a: StoreAnswer<String>|
            is_api_key_credential(c) && read.ensures((c,), a) && load_reported(
                r,
                loaded_key_spec(a),
            ),
{
    let outcome = keyring_store::load_api_key(read);
    load_outcome(outcome)
}

/// Whether a key is stored: true exactly when reading the API-key
/// credential with `read` gives a key.
pub fn has_api_key<R: FnOnce(Credential) -> StoreAnswer<String>>(read: R) -> (b: bool)
    requires
        forall|c: Credential| read.requires((c,)),
    ensures
        exists|c: Credential, a: StoreAnswer<String>|
            is_api_key_credential(c) && read.ensures((c,), a) && b == has_key_spec(
                loaded_key_spec(a),
            ),
{
    keyring_store::has_api_key(read)
}

/// How the answer of the key store to a deletion is reported.
pub open spec fn delete_reported(r: CommandResult<()>, outcome: Result<(), KeyStoreError>) -> bool {
    match outcome {
        Ok(()) => succeeded(r, ()),
        Err(e) => failed(r, "Failed to delete API key: "@ + key_store_error_text(e)),
    }
}

/// Reports the outcome of deleting the key.
pub fn delete_outcome(outcome: Result<(), KeyStoreError>) -> (r: CommandResult<()>)
    ensures
        delete_reported(r, outcome),
{
    match outcome {
        Ok(()) => CommandResult::ok(()),
        Err(e) => fail("Failed to delete API key: ", e.message().as_str()),
    }
}

/// Deletes the stored key: `delete` is asked, once, for the API-key
/// credential, and its answer is reported.
pub fn delete_api_key<D: FnOnce(Credential) -> StoreAnswer<()>>(delete: D) -> (r: CommandResult<
    (),
>)
    requires
        forall|c: Credential| delete.requires((c,)),
    ensures
        exists|c: Credential, a: StoreAnswer<()>|
            is_api_key_credential(c) && delete.ensures((c,), a) && delete_reported(
                r,
                deleted_key_spec(a),
            ),
{
    let outcome = keyring_store::delete_api_key(delete);
    delete_outcome(outcome)
}

/// Reports the outcome of testing a key against the API.
pub fn test_api_key_outcome(outcome: Result<bool, GroqError>) -> (r: CommandResult<bool>)
    ensures
        (match outcome {
            Ok(valid) => succeeded(r, valid),
            Err(e) => failed(r, "Connection test failed: "@ + groq_error_text(e)),
        }),
{
    match outcome {
        Ok(valid) => CommandResult::ok(valid),
        Err(e) => fail("Connection test failed: ", e.message().as_str()),
    }
}

/// Why listening cannot start, for the conditions checked in order: a key
/// must be stored, the model must be present, and listening must not be on.
pub open spec fn start_refusal(
    loaded: Result<Option<String>, KeyStoreError>,
    model_present: bool,
    already_listening: bool,
) -> Option<Seq<char>> {
    match loaded {
        Err(e) => Some("Failed to load API key: "@ + key_store_error_text(e)),
        Ok(None) => Some(
            "No API key configured — please add your Groq API key in Settings"@,
        ),
        Ok(Some(_)) => if !model_present {
            Some("Whisper model not found. Please download a model in Settings → Model."@)
        } else if already_listening {
            Some("Already listening"@)
        } else {
            None
        },
    }
}

/// Decides whether listening may start: the key to use, or the message
/// that refuses the start.
pub fn start_listening_check(
    loaded: Result<Option<String>, KeyStoreError>,
    model_present: bool,
    already_listening: bool,
) -> (r: Result<String, String>)
    ensures
        (match start_refusal(loaded, model_present, already_listening) {
            Some(m) => r matches Err(msg) && msg@ == m,
            None => loaded matches Ok(Some(k)) && r == Ok::<String, String>(k),
        }),
{
    match loaded {
        Err(e) => Err(concat2("Failed to load API key: ", e.message().as_str())),
        Ok(None) => Err(
            String::from_str("No API key configured — please add your Groq API key in Settings"),
        ),
        Ok(Some(k)) => {
            if !model_present {
                Err(
                    String::from_str(
                        "Whisper model not found. Please download a model in Settings → Model.",
                    ),
                )
            } else if already_listening {
                Err(String::from_str("Already listening"))
            } else {
                Ok(k)
            }
        },
    }
}

/// Listening starts only with a stored key and a downloaded model, and only
/// when it is not on already; without the model it is refused with the
/// model message whether or not listening is on, and without a key it is
/// refused whatever else holds.
pub proof fn lemma_start_needs_key_and_model(
    loaded: Result<Option<String>, KeyStoreError>,
    model_present: bool,
    already_listening: bool,
)
    ensures
        start_refusal(loaded, model_present, already_listening) is None <==> (loaded is Ok
            && loaded->Ok_0 is Some && model_present && !already_listening),
        (loaded is Ok && loaded->Ok_0 is Some && !model_present) ==> start_refusal(
            loaded,
            model_present,
            already_listening,
        ) == Some(
            "Whisper model not found. Please download a model in Settings → Model."@,
        ),
        !(loaded is Ok && loaded->Ok_0 is Some) ==> start_refusal(
            loaded,
            model_present,
            already_listening,
        ) is Some,
{
}

/// Reports the outcome of starting the pipeline.
pub fn pipeline_start_outcome(outcome: Result<(), String>) -> (r: CommandResult<()>)
    ensures
        (match outcome {
            Ok(()) => succeeded(r, ()),
            Err(e) => failed(r, "Failed to start pipeline: "@ + e@),
        }),
{
    match outcome {
        Ok(()) => CommandResult::ok(()),
        Err(e) => fail("Failed to start pipeline: ", e.as_str()),
    }
}

/// An audio output device: its identifier and display name.
pub struct AudioDevice {
    pub id: String,
    pub name: String,
}

/// The listed output devices, in order.
pub fn audio_devices(list: Vec<(String, String)>) -> (r: CommandResult<Vec<AudioDevice>>)
    ensures
        r.success,
        r.error is None,
        r.data matches Some(v) && v@.len() == list@.len() && forall|i: int|
            0 <= i < list@.len() ==> #[trigger] v@[i].id == list@[i].0 && v@[i].name
                == list@[i].1,
{
    let mut out: Vec<AudioDevice> = Vec::new();
    let n = list.len();
    let mut k: usize = 0;
    while k < n
        invariant
            n == list@.len(),
            k <= n,
            out@.len() == k,
            forall|j: int|
                0 <= j < k ==> #[trigger] out@[j].id == list@[j].0 && out@[j].name == list@[j].1,
        decreases n - k,
    {
        let id = list[k].0.clone();
        let name = list[k].1.clone();
        out.push(AudioDevice { id, name });
        k = k + 1;
    }
    CommandResult::ok(out)
}

/// The selectable chat models.
pub fn get_available_models() -> (r: CommandResult<Vec<ModelInfo>>)
    ensures
        r.success,
        r.error is None,
        r.data matches Some(v) && v@.len() == model_catalog().len() && forall|i: int|
            0 <= i < v@.len() ==> (#[trigger] v@[i].id@, v@[i].name@, v@[i].context_window)
                == model_catalog()[i],
{
    CommandResult::ok(available_models())
}

/// Whether the named model is present in the app data directory: the answer
/// of `file_exists` about the model's path.
pub fn check_model_exists<F: Fn(String) -> bool>(
    app_data_dir: &str,
    model_name: &str,
    file_exists: F,
) -> (r: CommandResult<bool>)
    requires
        forall|p: String| file_exists.requires((p,)),
    ensures
        exists|p: String, b: bool|
            p@ == model_path_spec(app_data_dir@, model_name@) && file_exists.ensures((p,), b)
                && succeeded(r, b),
{
    CommandResult::ok(model_exists(app_data_dir, model_name, file_exists))
}

/// Reports the outcome of a model download: the path of the file, or why it failed.
pub fn download_outcome(outcome: Result<String, String>) -> (r: CommandResult<String>)
    ensures
        (match outcome {
            Ok(p) => succeeded(r, p),
            Err(e) => failed(r, "Download failed: "@ + e@),
        }),
{
    match outcome {
        Ok(p) => CommandResult::ok(p),
        Err(e) => fail("Download failed: ", e.as_str()),
    }
}

/// Reports the outcome of a screen solve: the answer, or the failure message as is.
pub fn solve_outcome(outcome: Result<String, String>) -> (r: CommandResult<String>)
    ensures
        (match outcome {
            Ok(a) => succeeded(r, a),
            Err(e) => !r.success && r.data is None && r.error == Some(e),
        }),
{
    match outcome {
        Ok(a) => CommandResult::ok(a),
        Err(e) => CommandResult::err(e),
    }
}

/// The key for a screen solve: a stored key, or the message that none is configured.
pub fn visual_solve_key(loaded: Result<Option<String>, KeyStoreError>) -> (r: Result<String, String>)
    ensures
        (match loaded {
            Ok(Some(k)) => r == Ok::<String, String>(k),
            _ => r matches Err(m) && m@ == "Groq API key not configured — add it in Settings"@,
        }),
{
    match loaded {
        Ok(Some(k)) => Ok(k),
        _ => Err(String::from_str("Groq API key not configured — add it in Settings")),
    }
}

/// A selected screen region must be more than five logical pixels wide and high.
pub fn check_region(w: i32, h: i32) -> (r: Result<(), String>)
    ensures
        (w <= 5 || h <= 5) ==> (r matches Err(m) && m@ == "Selection region too small"@),
        !(w <= 5 || h <= 5) ==> r is Ok,
{
    if w <= 5 || h <= 5 {
        Err(String::from_str("Selection region too small"))
    } else {
        Ok(())
    }
}

} // verus!
