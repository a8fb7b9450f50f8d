//! Where Whisper models live and where they are downloaded from.
use vstd::prelude::*;
use vstd::string::*;
use crate::paths::{data_dir, data_dir_in, get_home_dir, join, join_path, PathError};

verus! {

/// The address that models are downloaded from.
pub open spec fn model_base_url() -> Seq<char> {
    "https://huggingface.co/ggerganov/whisper.cpp/resolve/main"@
}

/// The directory that holds the models, for the home directory `home`.
pub open spec fn model_dir(home: Seq<char>) -> Seq<char> {
    join(data_dir(home), "models"@)
}

/// The file name of the model of size `model_size`: `ggml-<size>.bin`.
pub open spec fn model_file_name(model_size: Seq<char>) -> Seq<char> {
    "ggml-"@ + model_size + ".bin"@
}

/// The file of the model of size `model_size`, for the home directory `home`.
pub open spec fn model_path(home: Seq<char>, model_size: Seq<char>) -> Seq<char> {
    join(model_dir(home), model_file_name(model_size))
}

/// The address of the model of size `model_size`.
pub open spec fn model_url(model_size: Seq<char>) -> Seq<char> {
    model_base_url() + "/"@ + model_file_name(model_size)
}

/// The file a model is downloaded into before it is moved into place.
pub open spec fn model_temp_path(temp_dir: Seq<char>, model_size: Seq<char>) -> Seq<char> {
    join(temp_dir, model_file_name(model_size) + ".tmp"@)
}

/// The directory that holds the models, for the home directory `home`.
pub fn model_dir_in(home: &str) -> (r: String)
    ensures
        r@ == model_dir(home@),
{
    let data = data_dir_in(home);
    join_path(data.as_str(), "models")
}

/// The file name of the model of size `model_size`.
pub fn model_file_name_for(model_size: &str) -> (r: String)
    ensures
        r@ == model_file_name(model_size@),
{
    String::from_str("ggml-").concat(model_size).concat(".bin")
}

/// The file of the model of size `model_size`, for the home directory `home`.
pub fn model_path_in(home: &str, model_size: &str) -> (r: String)
    ensures
        r@ == model_path(home@, model_size@),
{
    let dir = model_dir_in(home);
    let file = model_file_name_for(model_size);
    join_path(dir.as_str(), file.as_str())
}

/// The address of the model of size `model_size`.
pub fn model_url_for(model_size: &str) -> (r: String)
    ensures
        r@ == model_url(model_size@),
{
    let file = model_file_name_for(model_size);
    String::from_str("https://huggingface.co/ggerganov/whisper.cpp/resolve/main").concat("/").concat(
        file.as_str(),
    )
}

/// The file a model is downloaded into, in the directory `temp_dir`, before it is moved
/// into place.
pub fn model_temp_path_in(temp_dir: &str, model_size: &str) -> (r: String)
    ensures
        r@ == model_temp_path(temp_dir@, model_size@),
{
    let file = model_file_name_for(model_size).concat(".tmp");
    join_path(temp_dir, file.as_str())
}

/// The directory that holds the models, in the home directory of the current user.
pub fn get_model_dir() -> (r: Result<String, PathError>)
    ensures
        r matches Ok(d) ==> exists|h: Seq<char>| d@ == #[trigger] model_dir(h),
{
    let home = get_home_dir()?;
    Ok(model_dir_in(home.as_str()))
}

/// The file of the model of size `model_size`, in the home directory of the current user.
pub fn get_model_path(model_size: &str) -> (r: Result<String, PathError>)
    ensures
        r matches Ok(p) ==> exists|h: Seq<char>| p@ == #[trigger] model_path(h, model_size@),
{
    let home = get_home_dir()?;
    Ok(model_path_in(home.as_str(), model_size))
}

/// Models are kept in `.code-voice/models` under the home directory, as `ggml-<size>.bin`.
pub proof fn lemma_model_location(home: Seq<char>, model_size: Seq<char>)
    requires
        home.len() > 0,
        home.last() != '/',
    ensures
        model_path(home, model_size) == home + "/.code-voice/models/ggml-"@ + model_size + ".bin"@,
{
    reveal_strlit(".code-voice");
    reveal_strlit("models");
    reveal_strlit("ggml-");
    reveal_strlit("/.code-voice/models/ggml-");
    let d = data_dir(home);
    assert(d =~= home + seq!['/'] + ".code-voice"@);
    let m = model_dir(home);
    assert(d.last() == 'e');
    assert(m =~= d + seq!['/'] + "models"@);
    let f = model_file_name(model_size);
    assert(f[0] == 'g');
    assert(m.last() == 's');
    assert(model_path(home, model_size) =~= home + "/.code-voice/models/ggml-"@ + model_size + ".bin"@);
}

/// How much of a model download has arrived.
pub struct DownloadProgress {
    total: u64,
    downloaded: u64,
}

/// The size of a mebibyte, the step at which download progress is reported.
pub const PROGRESS_STEP: u64 = 1024 * 1024;

impl View for DownloadProgress {
    /// The size announced for the download (0 when unknown) and the bytes arrived so far.
    type V = (u64, u64);

    closed spec fn view(&self) -> (u64, u64) {
        (self.total, self.downloaded)
    }
}

impl DownloadProgress {
    /// A download of announced size `total` (0 when unknown), with nothing arrived yet.
    pub fn new(total: u64) -> (r: DownloadProgress)
        ensures
            r@ == (total, 0u64),
    {
        DownloadProgress { total, downloaded: 0 }
    }

    /// The size announced for the download.
    pub fn total(&self) -> (r: u64)
        ensures
            r == self@.0,
    {
        self.total
    }

    /// The bytes arrived so far.
    pub fn downloaded(&self) -> (r: u64)
        ensures
            r == self@.1,
    {
        self.downloaded
    }

    /// Records that `bytes_read` more bytes arrived, and returns whether progress is to be
    /// reported: when the size is known and the bytes arrived are a whole number of
    /// mebibytes.
    pub fn record(&mut self, bytes_read: u64) -> (report: bool)
        requires
            old(self)@.1 + bytes_read <= u64::MAX,
        ensures
            final(self)@ == (old(self)@.0, (old(self)@.1 + bytes_read) as u64),
            report == (final(self)@.0 > 0 && final(self)@.1 % PROGRESS_STEP == 0),
    {
        self.downloaded = self.downloaded + bytes_read;
        self.total > 0 && self.downloaded % PROGRESS_STEP == 0
    }
}

} // verus!
