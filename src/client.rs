use vstd::prelude::*;
use vstd::string::StringExecFns;
use crate::text::push_char;

verus! {

/// The scheme that `axum::http::Uri` parses out of a text: `None` where the
/// text is no URI, `Some(None)` where it carries no scheme.
pub uninterp spec fn uri_scheme(s: Seq<char>) -> Option<Option<Seq<char>>>;

/// Relies on `axum::http::Uri`'s `FromStr` and on `Uri::scheme_str`: the
/// scheme of the parsed URI, if the text parses.
#[verifier::external_body]
fn parse_uri_scheme(s: &str) -> (r: Option<Option<String>>)
    ensures
        match r {
            None => uri_scheme(s@) is None,
            Some(None) => uri_scheme(s@) == Some(None::<Seq<char>>),
            Some(Some(x)) => uri_scheme(s@) == Some(Some(x@)),
        },
{
    match s.parse::<axum::http::Uri>() {
        Ok(u) => Some(u.scheme_str().map(|x| x.to_string())),
        Err(_) => None,
    }
}

/// Where the store lives: the descriptor as written, and its transport
/// scheme, if it names one.
pub struct StorageLocation {
    pub text: String,
    pub scheme: Option<String>,
}

impl StorageLocation {
    /// A location that names a file-system path, absolute or relative.
    pub fn from_path(path: String) -> (r: StorageLocation)
        ensures
            r.text@ == path@,
            r.scheme is None,
    {
        StorageLocation { text: path, scheme: None }
    }

    /// Reads a storage location descriptor; `None` where it is no URI.
    pub fn parse(s: &str) -> (r: Option<StorageLocation>)
        ensures
            match r {
                None => uri_scheme(s@) is None,
                Some(loc) => loc.text@ == s@ && match loc.scheme {
                    None => uri_scheme(s@) == Some(None::<Seq<char>>),
                    Some(x) => uri_scheme(s@) == Some(Some(x@)),
                },
            },
    {
        match parse_uri_scheme(s) {
            None => None,
            Some(scheme) => Some(StorageLocation { text: s.to_owned(), scheme }),
        }
    }
}

impl StorageLocation {
    /// Reads a storage location descriptor: the scheme is the one that the
    /// descriptor parses with; a descriptor without one, or one that is no
    /// URI (a relative path such as `data/store`), names a path.
    pub fn from_descriptor(s: &str) -> (r: StorageLocation)
        ensures
            r.text@ == s@,
            uri_scheme(s@) matches Some(Some(x)) ==> (r.scheme matches Some(y) && y@ == x),
            !(uri_scheme(s@) matches Some(Some(_))) ==> r.scheme is None,
    {
        match StorageLocation::parse(s) {
            Some(loc) => loc,
            None => StorageLocation::from_path(s.to_owned()),
        }
    }
}

/// A location names a path of the file system when it carries no scheme.
pub fn is_file_uri(location: &StorageLocation) -> (r: bool)
    ensures
        r == (location.scheme is None),
{
    location.scheme.is_none()
}

#[verifier::external_type_specification]
#[verifier::external_body]
pub struct ExValue(serde_json::Value);

/// Why a store operation failed.
#[derive(Clone, Copy, Debug, PartialEq, Eq, Structural)]
pub enum StoreError {
    /// The backend does not carry out operations yet.
    NotImplemented,
}

/// The file path under which a key is stored below `root`.
pub open spec fn file_path(root: Seq<char>, key: Seq<char>) -> Seq<char> {
    root + seq!['/'] + key
}

/// A store that keeps each key as one file inside a root directory.
#[derive(Debug, Clone)]
pub struct FileStorageClient {
    pub root: String,
}

impl FileStorageClient {
    pub fn new(location: StorageLocation) -> (r: FileStorageClient)
        ensures
            r.root@ == location.text@,
    {
        FileStorageClient { root: location.text }
    }

    /// The file that holds the value of `key`.
    pub fn path_of(&self, key: &str) -> (r: String)
        ensures
            r@ == file_path(self.root@, key@),
    {
        let mut p = self.root.clone();
        push_char(&mut p, '/');
        p.append(key);
        assert(p@ =~= file_path(self.root@, key@));
        p
    }
}

/// A backend kept for future kinds of storage: it holds nothing and refuses
/// every write.
#[derive(Debug, Clone)]
pub struct NotImplementedYetClient {}

impl NotImplementedYetClient {
    pub fn get(&self, key: &str) -> (r: Option<serde_json::Value>)
        ensures
            r is None,
    {
        None
    }

    pub fn set(&self, key: &str, value: serde_json::Value) -> (r: Result<(), StoreError>)
        ensures
            r == Err::<(), StoreError>(StoreError::NotImplemented),
    {
        Err(StoreError::NotImplemented)
    }

    pub fn delete(&self, key: &str) -> (r: bool)
        ensures
            !r,
    {
        false
    }
}

/// The storage backend, chosen once from the storage location.
#[derive(Debug, Clone)]
pub enum Client {
    FileStorageClient { storage_client: FileStorageClient },
    NotImplementedYet { storage_client: NotImplementedYetClient },
}

impl Client {
    /// A location without a scheme selects the file backend rooted at it; any
    /// other selects the placeholder backend.
    pub fn new(storage_uri: StorageLocation) -> (r: Client)
        ensures
            storage_uri.scheme is None ==> (r matches Client::FileStorageClient { storage_client }
                && storage_client.root@ == storage_uri.text@),
            storage_uri.scheme is Some ==> r is NotImplementedYet,
    {
        if is_file_uri(&storage_uri) {
            return Client::FileStorageClient { storage_client: FileStorageClient::new(storage_uri) };
        }
        Client::NotImplementedYet { storage_client: NotImplementedYetClient {} }
    }
}

} // verus!
