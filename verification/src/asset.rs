//! Where a page finds a static asset: at the development server while the
//! assets are not built, else at the file that the build manifest names.

use vstd::prelude::*;
use vstd::string::StringExecFns;

verus! {

/// `serde_json::Value`, a parsed JSON document. Nothing is claimed of it
/// but through [`document_texts`].
#[verifier::external_type_specification]
#[verifier::external_body]
pub struct ExValue(serde_json::Value);

/// The texts that a JSON document holds two levels down: for each key
/// of the top-level object whose value is an object, and each field of
/// that object whose value is a text, that text under the pair of key
/// and field. A document that is no object holds none.
pub uninterp spec fn document_texts(document: serde_json::Value) -> Map<
    (Seq<char>, Seq<char>),
    Seq<char>,
>;

/// The texts that a text holds as a JSON document, or `None` if it is no
/// JSON document.
pub uninterp spec fn parsed_texts(text: Seq<char>) -> Option<Map<(Seq<char>, Seq<char>), Seq<char>>>;

/// Calls `serde_json::from_str` for a `serde_json::Value`. The contract
/// gives the result its name: the texts that the document holds, or
/// nothing where the text is refused.
#[verifier::external_body]
fn parse_document(text: &str) -> (r: Option<serde_json::Value>)
    ensures
        match r {
            Some(document) => parsed_texts(text@) == Some(document_texts(document)),
            None => parsed_texts(text@) is None,
        },
{
    match serde_json::from_str::<serde_json::Value>(text) {
        Ok(document) => Some(document),
        Err(_) => None,
    }
}

/// Indexes a `serde_json::Value` by `key` and the result by `field`.
/// Indexing by a text gives the null value where the value is no object
/// or has no such key, so the result is a text exactly where the
/// document holds one under the pair.
#[verifier::external_body]
fn document_text(document: &serde_json::Value, key: &str, field: &str) -> (r: Option<String>)
    ensures
        match r {
            Some(text) => document_texts(*document).contains_key((key@, field@))
                && document_texts(*document)[(key@, field@)] == text@,
            None => !document_texts(*document).contains_key((key@, field@)),
        },
{
    match &document[key][field] {
        serde_json::Value::String(text) => Some(text.clone()),
        _ => None,
    }
}

/// The field under which a manifest names the file of an asset.
pub open spec fn file_field() -> Seq<char> {
    "file"@
}

/// A build manifest: for each asset of the sources, the file that was
/// built from it.
pub struct Manifest {
    document: serde_json::Value,
}

/// What a manifest holds: for each key that it lists with a file, that
/// file.
pub struct ManifestView {
    pub texts: Map<(Seq<char>, Seq<char>), Seq<char>>,
}

impl ManifestView {
    /// Whether the manifest names a file for `key`.
    pub open spec fn names(self, key: Seq<char>) -> bool {
        self.texts.contains_key((key, file_field()))
    }

    /// The file that the manifest names for `key`.
    pub open spec fn file(self, key: Seq<char>) -> Seq<char> {
        self.texts[(key, file_field())]
    }
}

impl View for Manifest {
    type V = ManifestView;

    closed spec fn view(&self) -> ManifestView {
        ManifestView { texts: document_texts(self.document) }
    }
}

/// The key under which a manifest lists the asset at `path`.
pub open spec fn asset_key(path: Seq<char>) -> Seq<char> {
    "src/resources/assets"@ + path
}

/// Where the development server serves the asset at `path`.
pub open spec fn development_url(path: Seq<char>) -> Seq<char> {
    "http://localhost:5173/src/resources/assets"@ + path
}

/// Where the asset at `path` is found, given the file that was built
/// from it, if any: at that file, from the root; at `path` itself if
/// there is none.
pub open spec fn located(file: Option<Seq<char>>, path: Seq<char>) -> Seq<char> {
    match file {
        Some(file) => "/"@ + file,
        None => path,
    }
}

/// The file that a manifest names for the asset at `path`, if any.
pub open spec fn named_file(manifest: ManifestView, path: Seq<char>) -> Option<Seq<char>> {
    if manifest.names(asset_key(path)) {
        Some(manifest.file(asset_key(path)))
    } else {
        None
    }
}

/// Where the asset at `path` is found according to a manifest.
pub open spec fn built_url(manifest: ManifestView, path: Seq<char>) -> Seq<char> {
    located(named_file(manifest, path), path)
}

/// A file or none, as plain values.
pub open spec fn file_view(file: Option<String>) -> Option<Seq<char>> {
    match file {
        Some(file) => Some(file@),
        None => None,
    }
}

impl Manifest {
    /// Reads a manifest from the text of its file; `None` if the text is
    /// no JSON document.
    pub fn parse(text: &str) -> (r: Option<Self>)
        ensures
            match r {
                Some(manifest) => parsed_texts(text@) == Some(manifest@.texts),
                None => parsed_texts(text@) is None,
            },
    {
        match parse_document(text) {
            Some(document) => Some(Manifest { document }),
            None => None,
        }
    }

    /// The file that was built from the asset listed under `key`, if the
    /// manifest names one.
    pub fn file(&self, key: &str) -> (r: Option<String>)
        ensures
            match r {
                Some(file) => self@.names(key@) && self@.file(key@) == file@,
                None => !self@.names(key@),
            },
    {
        document_text(&self.document, key, "file")
    }
}

/// The key under which a manifest lists the asset at `path`.
pub fn manifest_key(path: &str) -> (r: String)
    ensures
        r@ == asset_key(path@),
{
    let mut key = String::from_str("src/resources/assets");
    key.append(path);
    key
}

/// Where the asset at `path` is found, given the file that was built
/// from it, if any.
pub fn locate(file: Option<String>, path: &str) -> (r: String)
    ensures
        r@ == located(file_view(file), path@),
{
    match file {
        Some(file) => {
            let mut url = String::from_str("/");
            url.append(file.as_str());
            url
        },
        None => String::from_str(path),
    }
}

/// Where the asset at `path` is found according to the manifest.
pub fn get_asset_from_manifest(manifest: &Manifest, path: &str) -> (r: String)
    ensures
        r@ == built_url(manifest@, path@),
{
    let key = manifest_key(path);
    locate(manifest.file(key.as_str()), path)
}

/// Where a page finds the asset at `path`: according to the manifest if
/// the assets are built, at the development server if they are not.
pub fn asset(path: &str, manifest: Option<&Manifest>) -> (r: String)
    ensures
        r@ == (match manifest {
            Some(manifest) => built_url(manifest@, path@),
            None => development_url(path@),
        }),
{
    match manifest {
        Some(manifest) => get_asset_from_manifest(manifest, path),
        None => {
            let mut url = String::from_str("http://localhost:5173/src/resources/assets");
            url.append(path);
            url
        },
    }
}

} // verus!
