use vstd::prelude::*;

use crate::error::ClipError;

verus! {

/// Number of files that make up a converted model directory.
pub const MODEL_FILE_COUNT: usize = 9;

/// The files that every model directory holds, in download order.
pub open spec fn model_files() -> Seq<Seq<char>> {
    seq![
        "model_config.json"@,
        "open_clip_config.json"@,
        "special_tokens_map.json"@,
        "text.onnx"@,
        "tokenizer.json"@,
        "tokenizer_config.json"@,
        "visual.onnx"@,
        "text.onnx.data"@,
        "visual.onnx.data"@,
    ]
}

/// The names of the files that every model directory holds, in download order.
pub fn model_file_names() -> (names: Vec<&'static str>)
    ensures
        names@.len() == model_files().len(),
        forall|i: int| 0 <= i < names@.len() ==> #[trigger] names@[i]@ == model_files()[i],
{
    vec![
        "model_config.json",
        "open_clip_config.json",
        "special_tokens_map.json",
        "text.onnx",
        "tokenizer.json",
        "tokenizer_config.json",
        "visual.onnx",
        "text.onnx.data",
        "visual.onnx.data",
    ]
}

/// `k` is the first position at which `present` is false.
pub open spec fn is_first_missing(present: Seq<bool>, k: int) -> bool {
    &&& 0 <= k < present.len()
    &&& !present[k]
    &&& forall|j: int| 0 <= j < k ==> #[trigger] present[j]
}

/// Decides whether a model directory is complete.
///
/// `dir_exists` tells whether `model_dir` exists, and `files_present[i]` whether
/// the `i`-th entry of the model file list is a regular file inside it. The
/// first missing piece is reported: the directory itself, then the files in
/// list order.
pub fn verify_model_dir(model_dir: &str, dir_exists: bool, files_present: &[bool]) -> (r: Result<(), ClipError>)
    requires
        files_present@.len() == model_files().len(),
    ensures
        r is Ok <==> (dir_exists && forall|i: int| 0 <= i < files_present@.len() ==> #[trigger] files_present@[i]),
        match r {
            Ok(()) => dir_exists && forall|i: int| 0 <= i < files_present@.len() ==> #[trigger] files_present@[i],
            Err(ClipError::ModelFolderNotFound(d)) => !dir_exists && d@ == model_dir@,
            Err(ClipError::MissingModelFile { model_dir: d, file: f }) => {
                &&& dir_exists
                &&& d@ == model_dir@
                &&& exists|k: int| #[trigger] is_first_missing(files_present@, k) && f@ == model_files()[k]
            },
            Err(_) => false,
        },
{
    if !dir_exists {
        return Err(ClipError::ModelFolderNotFound(model_dir.to_owned()));
    }
    let names = model_file_names();
    let n = files_present.len();
    let mut i: usize = 0;
    while i < n
        invariant
            dir_exists,
            n == files_present@.len(),
            n == names@.len(),
            names@.len() == model_files().len(),
            forall|j: int| 0 <= j < names@.len() ==> #[trigger] names@[j]@ == model_files()[j],
            i <= n,
            forall|j: int| 0 <= j < i ==> #[trigger] files_present@[j],
        decreases n - i,
    {
        if !files_present[i] {
            let file = names[i].to_owned();
            assert(is_first_missing(files_present@, i as int));
            return Err(ClipError::MissingModelFile { model_dir: model_dir.to_owned(), file });
        }
        i += 1;
    }
    Ok(())
}


/// A path separator on one of the platforms that the library runs on.
pub open spec fn is_separator(c: char) -> bool {
    c == '/' || c == '\\'
}

/// A relative path that holds no root, no drive or device prefix and no
/// backslash on any platform.
pub open spec fn is_plain_relative(rel: Seq<char>) -> bool {
    &&& rel.len() > 0
    &&& rel[0] != '/'
    &&& forall|i: int| 0 <= i < rel.len() ==> #[trigger] rel[i] != '\\' && rel[i] != ':'
}

/// `joined` is `base` with `rel` appended as a further component: directly,
/// or after exactly one separator, other than the last character of `base`,
/// where `base` is not empty.
pub open spec fn is_joined_path(base: Seq<char>, rel: Seq<char>, joined: Seq<char>) -> bool {
    ||| joined == base + rel
    ||| base.len() > 0 && exists|c: char|
        #[trigger] is_separator(c) && c != base.last() && joined == base + seq![c] + rel
}

/// `base` ends in a character after which no platform adds a separator when
/// joining: `base` is empty or ends in `/`.
pub open spec fn ends_without_need_of_separator(base: Seq<char>) -> bool {
    base.len() == 0 || base.last() == '/'
}

/// `base` ends in a character after which every platform adds a separator
/// when joining: it is not empty and does not end in `/`, `\` or `:`.
pub open spec fn ends_in_need_of_separator(base: Seq<char>) -> bool {
    &&& base.len() > 0
    &&& base.last() != '/'
    &&& base.last() != '\\'
    &&& base.last() != ':'
}

/// `joined` is what `Path::join` gives for a plain relative `rel`: `rel`
/// appended to `base`, after one separator exactly where `base` needs one.
pub open spec fn is_path_join(base: Seq<char>, rel: Seq<char>, joined: Seq<char>) -> bool {
    &&& is_joined_path(base, rel, joined)
    &&& ends_without_need_of_separator(base) ==> joined == base + rel
    &&& ends_in_need_of_separator(base) ==> exists|c: char| #[trigger] is_separator(c) && joined == base + seq![c] + rel
}

/// `path` does not start with two backslashes, so it holds no Windows
/// verbatim (`\\?\`) prefix.
pub open spec fn no_verbatim_prefix(path: Seq<char>) -> bool {
    !(path.len() >= 2 && path[0] == '\\' && path[1] == '\\')
}

/// Joins `rel` onto `base` with `std::path::Path::join`.
///
/// Trusted: where `base` has no verbatim prefix and `rel` is a plain relative
/// path, `Path::join` (`PathBuf::push`) appends `rel`, after the platform's
/// separator unless `base` is empty, ends in that separator (or, on Windows,
/// in either one) or is a bare drive, as its documentation and source show.
/// So no separator is added after an empty base or a final `/`, and one is
/// added after any other final character than `\` or `:`. Which separator
/// (`/` or `\`) is not stated. For other inputs (absolute `rel`, verbatim
/// `base`) nothing is stated.
#[verifier::external_body]
fn path_join(base: &str, rel: &str) -> (joined: String)
    ensures
        no_verbatim_prefix(base@) && is_plain_relative(rel@) ==> is_path_join(base@, rel@, joined@),
{
    std::path::Path::new(base).join(rel).to_string_lossy().into_owned()
}

/// Joining a plain relative path keeps a base free of a verbatim prefix free of one.
pub proof fn lemma_join_keeps_no_verbatim_prefix(base: Seq<char>, rel: Seq<char>, joined: Seq<char>)
    requires
        no_verbatim_prefix(base),
        is_plain_relative(rel),
        is_joined_path(base, rel, joined),
    ensures
        no_verbatim_prefix(joined),
{
    if joined == base + rel {
        if base.len() == 0 {
            assert(joined[0] == rel[0]);
        } else if base.len() == 1 {
            assert(joined[1] == rel[0]);
        } else {
            assert(joined[0] == base[0] && joined[1] == base[1]);
        }
    } else {
        let c = choose|c: char| #[trigger] is_separator(c) && c != base.last() && joined == base + seq![c] + rel;
        if base.len() == 1 {
            assert(joined[0] == base[0]);
        } else {
            assert(joined[0] == base[0] && joined[1] == base[1]);
        }
    }
}

/// The default folder that holds locally converted models, given the user's
/// home directory if one is known: `<home>/.cache/open_clip_rs`, or the
/// relative folder `.open_clip_cache` without a home directory.
pub fn default_base_folder(home: Option<&str>) -> (folder: String)
    ensures
        home is None ==> folder@ == ".open_clip_cache"@,
        home matches Some(h) ==> (no_verbatim_prefix(h@) ==> is_path_join(h@, ".cache/open_clip_rs"@, folder@)),
{
    match home {
        None => ".open_clip_cache".to_owned(),
        Some(h) => {
            proof {
                reveal_strlit(".cache/open_clip_rs");
            }
            path_join(h, ".cache/open_clip_rs")
        },
    }
}

/// The directory of a locally converted model: `model_id` joined onto the
/// base folder, which defaults to `default_base_folder(home)`.
pub fn local_model_dir(base_folder: Option<&str>, home: Option<&str>, model_id: &str) -> (dir: String)
    ensures
        is_plain_relative(model_id@) ==> match base_folder {
            Some(b) => no_verbatim_prefix(b@) ==> is_path_join(b@, model_id@, dir@),
            None => match home {
                None => is_path_join(".open_clip_cache"@, model_id@, dir@),
                Some(h) => no_verbatim_prefix(h@) ==> exists|base: Seq<char>|
                    #[trigger] is_path_join(h@, ".cache/open_clip_rs"@, base) && is_path_join(base, model_id@, dir@),
            },
        },
{
    let base = match base_folder {
        Some(b) => b.to_owned(),
        None => default_base_folder(home),
    };
    proof {
        reveal_strlit(".open_clip_cache");
        reveal_strlit(".cache/open_clip_rs");
        if base_folder is None && home is Some && no_verbatim_prefix(home.unwrap()@) {
            lemma_join_keeps_no_verbatim_prefix(home.unwrap()@, ".cache/open_clip_rs"@, base@);
        }
    }
    path_join(base.as_str(), model_id)
}

/// Position of the first `/` in `id`, if it holds one.
pub open spec fn first_slash(id: Seq<char>) -> Option<int>
    decreases id.len(),
{
    if id.len() == 0 {
        None
    } else if id[0] == '/' {
        Some(0)
    } else {
        match first_slash(id.drop_first()) {
            Some(k) => Some(k + 1),
            None => None,
        }
    }
}

/// The (owner, name) pair of a Hugging Face repository id: the id is cut at
/// its first `/`; an id without `/` has an empty owner and is the name.
pub open spec fn repo_id_parts(id: Seq<char>) -> (Seq<char>, Seq<char>) {
    match first_slash(id) {
        Some(k) => (id.take(k), id.skip(k + 1)),
        None => (Seq::empty(), id),
    }
}

/// Splits a repository id with `hf_hub::split_id`.
///
/// Trusted: `split_id` cuts the id at the first `/` (`str::split_once`) and
/// returns `("", id)` when there is none, as its source and doc examples show.
#[verifier::external_body]
fn split_repo_id(id: &str) -> (parts: (String, String))
    ensures
        parts.0@ == repo_id_parts(id@).0,
        parts.1@ == repo_id_parts(id@).1,
{
    let (owner, name) = hf_hub::split_id(id);
    (owner.to_string(), name.to_string())
}

/// The directory known after one more download whose parent directory is
/// `parent`: a directory that was already known is kept.
pub open spec fn record_parent<P>(found: Option<P>, parent: Option<P>) -> Option<P> {
    match found {
        Some(d) => Some(d),
        None => parent,
    }
}

/// The directory known after the downloads whose parent directories are
/// `parents`, starting from `found`.
pub open spec fn record_parents<P>(found: Option<P>, parents: Seq<Option<P>>) -> Option<P>
    decreases parents.len(),
{
    if parents.len() == 0 {
        found
    } else {
        record_parents(record_parent(found, parents[0]), parents.drop_first())
    }
}

/// The first known directory among `parents`.
pub open spec fn first_known<P>(parents: Seq<Option<P>>) -> Option<P>
    decreases parents.len(),
{
    if parents.len() == 0 {
        None
    } else if parents[0] is Some {
        parents[0]
    } else {
        first_known(parents.drop_first())
    }
}

/// A download that has not found the model directory yet ends with the
/// directory of the first downloaded file whose parent is known; once a
/// directory is known, later downloads do not change it.
pub proof fn lemma_download_dir_is_first_known<P>(found: Option<P>, parents: Seq<Option<P>>)
    ensures
        record_parents(found, parents) == match found {
            Some(d) => Some(d),
            None => first_known(parents),
        },
    decreases parents.len(),
{
    if parents.len() > 0 {
        lemma_download_dir_is_first_known(record_parent(found, parents[0]), parents.drop_first());
    }
}

/// The message of the error reported when no download revealed the model directory.
pub open spec fn no_model_dir_message(model_id: Seq<char>) -> Seq<char> {
    "Could not determine model directory for '"@ + model_id + "'"@
}

/// What a model download asks of its driver next.
#[derive(Debug, PartialEq, Eq)]
pub enum DownloadStep {
    /// Download this file of the repository.
    Fetch(String),
    /// Nothing more is downloaded; `finish` gives the outcome.
    Finished,
}

/// Progress of downloading a model from the Hugging Face hub; `P` is how the
/// driver names a directory.
///
/// The driver asks `step` what to do, performs each `Fetch` and reports the
/// parent directory of the downloaded file with `record`, or a failed
/// download with `record_failure`; at `Finished` it calls `finish`.
#[derive(Debug)]
pub struct ModelDownload<P> {
    model_id: String,
    owner: String,
    name: String,
    next: usize,
    model_dir: Option<P>,
    failure: Option<String>,
}

impl<P> ModelDownload<P> {
    /// The repository id that is downloaded.
    pub closed spec fn spec_model_id(&self) -> Seq<char> {
        self.model_id@
    }

    /// Number of files downloaded so far.
    pub closed spec fn downloaded(&self) -> nat {
        self.next as nat
    }

    /// The model directory known so far.
    pub closed spec fn known_dir(&self) -> Option<P> {
        self.model_dir
    }

    /// The message of the download that failed, if one did.
    pub closed spec fn failure(&self) -> Option<Seq<char>> {
        match self.failure {
            Some(m) => Some(m@),
            None => None,
        }
    }

    /// The repository owner and name, as split from the id.
    pub closed spec fn repo(&self) -> (Seq<char>, Seq<char>) {
        (self.owner@, self.name@)
    }

    pub closed spec fn wf(&self) -> bool {
        self.next <= MODEL_FILE_COUNT
    }

    /// Whether the driver is done downloading.
    pub open spec fn is_finished(&self) -> bool {
        self.failure() is Some || self.downloaded() == model_files().len()
    }

    /// Starts the download of the repository `model_id`.
    pub fn new(model_id: &str) -> (d: Self)
        ensures
            d.wf(),
            d.spec_model_id() == model_id@,
            d.downloaded() == 0,
            d.known_dir() is None,
            d.failure() is None,
            d.repo() == repo_id_parts(model_id@),
    {
        let (owner, name) = split_repo_id(model_id);
        ModelDownload { model_id: model_id.to_owned(), owner, name, next: 0, model_dir: None, failure: None }
    }

    /// The owner part of the repository id.
    pub fn owner(&self) -> (o: &str)
        ensures
            o@ == self.repo().0,
    {
        self.owner.as_str()
    }

    /// The name part of the repository id.
    pub fn name(&self) -> (n: &str)
        ensures
            n@ == self.repo().1,
    {
        self.name.as_str()
    }

    /// The next thing to do: fetch the next model file, in list order, or
    /// stop once every file was downloaded or a download failed.
    pub fn step(&self) -> (s: DownloadStep)
        requires
            self.wf(),
        ensures
            !self.is_finished() ==> (s matches DownloadStep::Fetch(f) && f@ == model_files()[self.downloaded() as int]),
            self.is_finished() ==> s is Finished,
    {
        if self.failure.is_some() || self.next >= MODEL_FILE_COUNT {
            DownloadStep::Finished
        } else {
            let names = model_file_names();
            DownloadStep::Fetch(names[self.next].to_owned())
        }
    }

    /// Records that the current file was downloaded; `parent` is the
    /// directory that holds it, where known.
    pub fn record(&mut self, parent: Option<P>)
        requires
            old(self).wf(),
            !old(self).is_finished(),
        ensures
            final(self).wf(),
            final(self).downloaded() == old(self).downloaded() + 1,
            final(self).failure() is None,
            final(self).spec_model_id() == old(self).spec_model_id(),
            final(self).repo() == old(self).repo(),
            final(self).known_dir() == record_parent(old(self).known_dir(), parent),
    {
        if self.model_dir.is_none() {
            self.model_dir = parent;
        }
        self.next = self.next + 1;
    }

    /// Records that downloading the current file failed with `message`; no
    /// further file is fetched.
    pub fn record_failure(&mut self, message: String)
        requires
            old(self).wf(),
            !old(self).is_finished(),
        ensures
            final(self).wf(),
            final(self).failure() == Some(message@),
            final(self).downloaded() == old(self).downloaded(),
            final(self).spec_model_id() == old(self).spec_model_id(),
            final(self).repo() == old(self).repo(),
            final(self).known_dir() == old(self).known_dir(),
    {
        self.failure = Some(message);
    }

    /// The outcome of a finished download: the failed download's error, else
    /// the directory of the first download whose parent was known, else an
    /// error saying that the directory is unknown.
    pub fn finish(self) -> (r: Result<P, ClipError>)
        requires
            self.wf(),
            self.is_finished(),
        ensures
            match self.failure() {
                Some(m) => r matches Err(ClipError::HfHub(e)) && e@ == m,
                None => match self.known_dir() {
                    Some(d) => r == Ok::<P, ClipError>(d),
                    None => r matches Err(ClipError::HfHub(e)) && e@ == no_model_dir_message(self.spec_model_id()),
                },
            },
    {
        let ModelDownload { model_id, owner: _, name: _, next: _, model_dir, failure } = self;
        match failure {
            Some(m) => Err(ClipError::HfHub(m)),
            None => match model_dir {
                Some(d) => Ok(d),
                None => {
                    let mut m = String::from_str("Could not determine model directory for '");
                    m.append(model_id.as_str());
                    m.append("'");
                    Err(ClipError::HfHub(m))
                },
            },
        }
    }
}
} // verus!
