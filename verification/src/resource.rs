//! The files of a model, where each comes from and where it goes.

use vstd::prelude::*;

verus! {

/// The number of files that make up a model.
pub const RESOURCE_COUNT: usize = 6;

/// One of the files that make up a model, in the order in which they are
/// fetched.
#[derive(Clone, Copy, Debug, PartialEq, Eq, Structural)]
pub enum Resource {
    /// The model's description, served by the host's API.
    Metadata,
    /// The tokenizer's description.
    Tokenizer,
    /// The configuration of the converted model.
    Config,
    /// The vocabulary of the converted model.
    Vocabulary,
    /// The vocabulary that both sides of the converted model share.
    SharedVocabulary,
    /// The weights of the converted model.
    Weights,
}

/// What one transfer needs to know: a label for the progress display, the
/// address to fetch, the file to write and the directory that holds the file.
#[derive(Clone, Debug, PartialEq, Eq)]
pub struct TransferRequest {
    name: String,
    url: String,
    path: String,
    directory: String,
}

/// A `TransferRequest` as specifications see it.
pub struct TransferRequestView {
    pub name: Seq<char>,
    pub url: Seq<char>,
    pub path: Seq<char>,
    pub directory: Seq<char>,
}

impl View for TransferRequest {
    type V = TransferRequestView;

    closed spec fn view(&self) -> TransferRequestView {
        TransferRequestView {
            name: self.name@,
            url: self.url@,
            path: self.path@,
            directory: self.directory@,
        }
    }
}

/// The directory of a model below the home directory `home`.
pub open spec fn model_dir(home: Seq<char>, model_id: Seq<char>) -> Seq<char> {
    home + "/.tabby/models/"@ + model_id
}

/// The address of a model's description.
pub open spec fn metadata_url(model_id: Seq<char>) -> Seq<char> {
    "https://huggingface.co/api/models/"@ + model_id
}

/// The address of the file `relative_path` of a model.
pub open spec fn content_url(model_id: Seq<char>, relative_path: Seq<char>) -> Seq<char> {
    "https://huggingface.co/"@ + model_id + "/resolve/main/"@ + relative_path
}

impl Resource {
    /// The resource at a position of the fixed order, if there is one.
    pub open spec fn spec_at(index: int) -> Option<Resource> {
        if index == 0 {
            Some(Resource::Metadata)
        } else if index == 1 {
            Some(Resource::Tokenizer)
        } else if index == 2 {
            Some(Resource::Config)
        } else if index == 3 {
            Some(Resource::Vocabulary)
        } else if index == 4 {
            Some(Resource::SharedVocabulary)
        } else if index == 5 {
            Some(Resource::Weights)
        } else {
            None
        }
    }

    /// The resource at a position of the fixed order, if there is one.
    pub fn at(index: usize) -> (resource: Option<Resource>)
        ensures
            resource == Resource::spec_at(index as int),
            resource is Some <==> index < RESOURCE_COUNT,
    {
        if index == 0 {
            Some(Resource::Metadata)
        } else if index == 1 {
            Some(Resource::Tokenizer)
        } else if index == 2 {
            Some(Resource::Config)
        } else if index == 3 {
            Some(Resource::Vocabulary)
        } else if index == 4 {
            Some(Resource::SharedVocabulary)
        } else if index == 5 {
            Some(Resource::Weights)
        } else {
            None
        }
    }

    /// Where the file lies below the model's directory.
    pub open spec fn spec_relative_path(self) -> Seq<char> {
        match self {
            Resource::Metadata => "metadata.json"@,
            Resource::Tokenizer => "tokenizer.json"@,
            Resource::Config => "ctranslate2/config.json"@,
            Resource::Vocabulary => "ctranslate2/vocabulary.txt"@,
            Resource::SharedVocabulary => "ctranslate2/shared_vocabulary.txt"@,
            Resource::Weights => "ctranslate2/model.bin"@,
        }
    }

    /// Where the file lies below the model's directory.
    pub fn relative_path(self) -> (path: &'static str)
        ensures
            path@ == self.spec_relative_path(),
    {
        match self {
            Resource::Metadata => "metadata.json",
            Resource::Tokenizer => "tokenizer.json",
            Resource::Config => "ctranslate2/config.json",
            Resource::Vocabulary => "ctranslate2/vocabulary.txt",
            Resource::SharedVocabulary => "ctranslate2/shared_vocabulary.txt",
            Resource::Weights => "ctranslate2/model.bin",
        }
    }

    /// The file's own name, without the directory it lies in.
    pub open spec fn spec_file_name(self) -> Seq<char> {
        match self {
            Resource::Metadata => "metadata.json"@,
            Resource::Tokenizer => "tokenizer.json"@,
            Resource::Config => "config.json"@,
            Resource::Vocabulary => "vocabulary.txt"@,
            Resource::SharedVocabulary => "shared_vocabulary.txt"@,
            Resource::Weights => "model.bin"@,
        }
    }

    /// Whether the file lies in the subdirectory of the converted model.
    pub open spec fn in_subdirectory(self) -> bool {
        self != Resource::Metadata && self != Resource::Tokenizer
    }

    /// The address the file is fetched from.
    pub open spec fn spec_url(self, model_id: Seq<char>) -> Seq<char> {
        if self == Resource::Metadata {
            metadata_url(model_id)
        } else {
            content_url(model_id, self.spec_relative_path())
        }
    }

    /// The label of the file in the progress display.
    pub open spec fn spec_name(self, model_id: Seq<char>) -> Seq<char> {
        model_id + "/"@ + self.spec_relative_path()
    }

    /// The file that the transfer writes.
    pub open spec fn spec_path(self, home: Seq<char>, model_id: Seq<char>) -> Seq<char> {
        model_dir(home, model_id) + "/"@ + self.spec_relative_path()
    }

    /// The directory that holds the file.
    pub open spec fn spec_directory(self, home: Seq<char>, model_id: Seq<char>) -> Seq<char> {
        if self.in_subdirectory() {
            model_dir(home, model_id) + "/ctranslate2"@
        } else {
            model_dir(home, model_id)
        }
    }

    /// The request for this file of `model_id`.
    pub open spec fn spec_request(
        self,
        home: Seq<char>,
        model_id: Seq<char>,
    ) -> TransferRequestView {
        TransferRequestView {
            name: self.spec_name(model_id),
            url: self.spec_url(model_id),
            path: self.spec_path(home, model_id),
            directory: self.spec_directory(home, model_id),
        }
    }

    /// The directory that holds the file.
    pub fn directory(self, home: &str, model_id: &str) -> (directory: String)
        ensures
            directory@ == self.spec_directory(home@, model_id@),
    {
        let mut directory = get_model_dir(home, model_id);
        match self {
            Resource::Metadata => {},
            Resource::Tokenizer => {},
            _ => {
                directory.append("/ctranslate2");
            },
        }
        directory
    }

    /// The request for this file of `model_id`: the description is asked of
    /// the host's API, every other file of its store of contents.
    pub fn request(self, home: &str, model_id: &str) -> (request: TransferRequest)
        ensures
            request@ == self.spec_request(home@, model_id@),
    {
        match self {
            Resource::Metadata => metadata_request(home, model_id),
            _ => model_file_request(home, model_id, self),
        }
    }
}

impl TransferRequest {
    /// The label of the file in the progress display.
    pub fn name(&self) -> (name: &str)
        ensures
            name@ == self@.name,
    {
        self.name.as_str()
    }

    /// The address to fetch.
    pub fn url(&self) -> (url: &str)
        ensures
            url@ == self@.url,
    {
        self.url.as_str()
    }

    /// The file to write.
    pub fn path(&self) -> (path: &str)
        ensures
            path@ == self@.path,
    {
        self.path.as_str()
    }

    /// The directory that holds the file.
    pub fn directory(&self) -> (directory: &str)
        ensures
            directory@ == self@.directory,
    {
        self.directory.as_str()
    }
}

/// Computes the directory that holds the files of `model_id`.
pub fn get_model_dir(home: &str, model_id: &str) -> (dir: String)
    ensures
        dir@ == model_dir(home@, model_id@),
{
    let mut dir = String::from_str(home);
    dir.append("/.tabby/models/");
    dir.append(model_id);
    dir
}

/// `model_id`, a slash, and the resource's place below the model's directory.
fn label(model_id: &str, resource: Resource) -> (name: String)
    ensures
        name@ == resource.spec_name(model_id@),
{
    let mut name = String::from_str(model_id);
    name.append("/");
    name.append(resource.relative_path());
    name
}

/// The model's directory, a slash, and the resource's place below it.
fn destination(home: &str, model_id: &str, resource: Resource) -> (path: String)
    ensures
        path@ == resource.spec_path(home@, model_id@),
{
    let mut path = get_model_dir(home, model_id);
    path.append("/");
    path.append(resource.relative_path());
    path
}

/// The request for the description of `model_id`, which the host's API
/// serves.
pub fn metadata_request(home: &str, model_id: &str) -> (request: TransferRequest)
    ensures
        request@ == Resource::Metadata.spec_request(home@, model_id@),
{
    let mut url = String::from_str("https://huggingface.co/api/models/");
    url.append(model_id);
    TransferRequest {
        name: label(model_id, Resource::Metadata),
        url,
        path: destination(home, model_id, Resource::Metadata),
        directory: Resource::Metadata.directory(home, model_id),
    }
}

/// The request for a file of `model_id` that the host serves from its store
/// of contents.
pub fn model_file_request(home: &str, model_id: &str, resource: Resource) -> (request:
    TransferRequest)
    ensures
        request@ == (TransferRequestView {
            url: content_url(model_id@, resource.spec_relative_path()),
            ..resource.spec_request(home@, model_id@)
        }),
{
    let mut url = String::from_str("https://huggingface.co/");
    url.append(model_id);
    url.append("/resolve/main/");
    url.append(resource.relative_path());
    TransferRequest {
        name: label(model_id, resource),
        url,
        path: destination(home, model_id, resource),
        directory: resource.directory(home, model_id),
    }
}

/// The directory that is created for a file is the one the file lies in:
/// the file's path is that directory, a slash, and the file's own name.
pub proof fn lemma_path_in_directory(resource: Resource, home: Seq<char>, model_id: Seq<char>)
    ensures
        resource.spec_path(home, model_id) == resource.spec_directory(home, model_id) + "/"@
            + resource.spec_file_name(),
{
    reveal_strlit("/");
    reveal_strlit("/ctranslate2");
    reveal_strlit("metadata.json");
    reveal_strlit("tokenizer.json");
    reveal_strlit("config.json");
    reveal_strlit("vocabulary.txt");
    reveal_strlit("shared_vocabulary.txt");
    reveal_strlit("model.bin");
    reveal_strlit("ctranslate2/config.json");
    reveal_strlit("ctranslate2/vocabulary.txt");
    reveal_strlit("ctranslate2/shared_vocabulary.txt");
    reveal_strlit("ctranslate2/model.bin");
    assert(resource.spec_path(home, model_id) =~= resource.spec_directory(home, model_id) + "/"@
        + resource.spec_file_name());
}

/// No two files of a model go to the same place.
pub proof fn lemma_paths_differ(a: Resource, b: Resource, home: Seq<char>, model_id: Seq<char>)
    requires
        a != b,
    ensures
        a.spec_path(home, model_id) != b.spec_path(home, model_id),
{
    reveal_strlit("metadata.json");
    reveal_strlit("tokenizer.json");
    reveal_strlit("ctranslate2/config.json");
    reveal_strlit("ctranslate2/vocabulary.txt");
    reveal_strlit("ctranslate2/shared_vocabulary.txt");
    reveal_strlit("ctranslate2/model.bin");
    let stem = model_dir(home, model_id) + "/"@;
    assert(a.spec_path(home, model_id).len() == stem.len() + a.spec_relative_path().len());
    assert(b.spec_path(home, model_id).len() == stem.len() + b.spec_relative_path().len());
}

} // verus!
