//! Addresses under which the user interface loads files: `file:` and
//! `asset:` addresses for paths, and `data:` addresses that carry an
//! image's bytes.

use crate::text::{chained, optional_text, replace_all, replaced, same_text};
use vstd::prelude::*;
use vstd::string::*;

verus! {

/// The lower-case form of a text: what `str::to_lowercase` gives for it.
pub uninterp spec fn lowercased(text: Seq<char>) -> Seq<char>;

/// The standard base64 text of bytes, with padding: what the engine
/// `base64::engine::general_purpose::STANDARD` encodes them to.
pub uninterp spec fn base64_text(bytes: Seq<u8>) -> Seq<char>;

/// The extension of a path in the path syntax of the host that the program
/// is built for: what `std::path::Path::extension` finds in it.
pub uninterp spec fn path_extension(path: Seq<char>) -> Option<Seq<char>>;

/// Whether the encoder can allocate its output for `bytes`: four
/// characters for every three bytes, begun or complete, within the largest
/// size that an allocation can have.
pub open spec fn encodable(bytes: Seq<u8>) -> bool {
    4 * (bytes.len() / 3) + 4 <= isize::MAX
}

/// Calls `str::to_lowercase`, which depends on the text alone.
#[verifier::external_body]
fn lowercase(text: &str) -> (lower: String)
    ensures
        lower@ == lowercased(text@),
{
    text.to_lowercase()
}

/// Calls `std::path::Path::extension`: the part of the path's last
/// component after its last dot, if there is one, as the host's path syntax
/// tells components apart. The result depends on the path alone.
#[verifier::external_body]
fn extension(path: &str) -> (found: Option<String>)
    ensures
        match found {
            Some(text) => path_extension(path@) == Some(text@),
            None => path_extension(path@) is None,
        },
{
    match std::path::Path::new(path).extension() {
        Some(found) => Some(found.to_string_lossy().into_owned()),
        None => None,
    }
}

/// Calls `base64::Engine::encode` on the standard engine. It returns for
/// every input whose output it can allocate, which `requires` asks for, and
/// its result depends on the bytes alone.
#[verifier::external_body]
fn encode_base64(bytes: &[u8]) -> (text: String)
    requires
        encodable(bytes@),
    ensures
        text@ == base64_text(bytes@),
{
    base64::Engine::encode(&base64::engine::general_purpose::STANDARD, bytes)
}

/// The media type of a file by its extension in lower case: images and
/// videos that the user interface can show have their own, everything else
/// is a stream of bytes.
pub open spec fn media_type(extension: Option<Seq<char>>) -> Seq<char> {
    match extension {
        None => "application/octet-stream"@,
        Some(e) => if e == "png"@ {
            "image/png"@
        } else if e == "jpg"@ || e == "jpeg"@ {
            "image/jpeg"@
        } else if e == "gif"@ {
            "image/gif"@
        } else if e == "webp"@ {
            "image/webp"@
        } else if e == "svg"@ {
            "image/svg+xml"@
        } else if e == "bmp"@ {
            "image/bmp"@
        } else if e == "ico"@ {
            "image/x-icon"@
        } else if e == "tiff"@ || e == "tif"@ {
            "image/tiff"@
        } else if e == "mp4"@ {
            "video/mp4"@
        } else if e == "webm"@ {
            "video/webm"@
        } else if e == "avi"@ {
            "video/x-msvideo"@
        } else if e == "mov"@ {
            "video/quicktime"@
        } else if e == "mkv"@ {
            "video/x-matroska"@
        } else {
            "application/octet-stream"@
        },
    }
}

/// The lower-case form of an extension, where there is one.
pub open spec fn lower_extension(found: Option<Seq<char>>) -> Option<Seq<char>> {
    match found {
        Some(e) => Some(lowercased(e)),
        None => None,
    }
}

/// The media type for an extension that is already in lower case: see [`media_type`].
pub fn mime_type_of(extension: Option<&str>) -> (mime: String)
    ensures
        mime@ == media_type(optional_text(extension)),
{
    match extension {
        None => String::from_str("application/octet-stream"),
        Some(e) => {
            let name = if same_text(e, "png") {
                "image/png"
            } else if same_text(e, "jpg") || same_text(e, "jpeg") {
                "image/jpeg"
            } else if same_text(e, "gif") {
                "image/gif"
            } else if same_text(e, "webp") {
                "image/webp"
            } else if same_text(e, "svg") {
                "image/svg+xml"
            } else if same_text(e, "bmp") {
                "image/bmp"
            } else if same_text(e, "ico") {
                "image/x-icon"
            } else if same_text(e, "tiff") || same_text(e, "tif") {
                "image/tiff"
            } else if same_text(e, "mp4") {
                "video/mp4"
            } else if same_text(e, "webm") {
                "video/webm"
            } else if same_text(e, "avi") {
                "video/x-msvideo"
            } else if same_text(e, "mov") {
                "video/quicktime"
            } else if same_text(e, "mkv") {
                "video/x-matroska"
            } else {
                "application/octet-stream"
            };
            String::from_str(name)
        },
    }
}

/// The media type of the file at `path`: [`media_type`] of the lower-case
/// form of the extension that the host's path syntax finds in it.
pub fn get_mime_type(path: &str) -> (mime: String)
    ensures
        mime@ == media_type(lower_extension(path_extension(path@))),
{
    match extension(path) {
        Some(found) => {
            let lower = lowercase(found.as_str());
            mime_type_of(Some(lower.as_str()))
        },
        None => mime_type_of(None),
    }
}

/// A path with slashes for backslashes.
pub open spec fn slashed(path: Seq<char>) -> Seq<char> {
    replaced(path, "\\"@, "/"@)
}

/// The path with slashes for backslashes.
pub fn normalize_path(path: &str) -> (normalized: String)
    ensures
        normalized@ == slashed(path@),
{
    replace_all(path, "\\", "/")
}

/// The message for a file that does not exist.
pub open spec fn not_found_text(path: Seq<char>) -> Seq<char> {
    "Файл не найден: "@ + slashed(path)
}

/// The `file:` address of an existing file; a file that does not exist has none.
pub fn convert_path_to_url(path: &str, exists: bool) -> (result: Result<String, String>)
    ensures
        match result {
            Ok(url) => exists && url@ == "file://"@ + slashed(path@),
            Err(text) => !exists && text@ == not_found_text(path@),
        },
{
    let normalized = normalize_path(path);
    if exists {
        Ok(chained("file://", normalized.as_str()))
    } else {
        Err(chained("Файл не найден: ", normalized.as_str()))
    }
}

/// The `asset:` address of an existing file; a file that does not exist has none.
pub fn convert_to_asset_url(path: &str, exists: bool) -> (result: Result<String, String>)
    ensures
        match result {
            Ok(url) => exists && url@ == "asset://"@ + slashed(path@),
            Err(text) => !exists && text@ == not_found_text(path@),
        },
{
    let normalized = normalize_path(path);
    if exists {
        Ok(chained("asset://", normalized.as_str()))
    } else {
        Err(chained("Файл не найден: ", normalized.as_str()))
    }
}

/// The `data:` address that carries `encoded`, the base64 text of a file of
/// media type `mime`.
pub fn data_url(mime: &str, encoded: &str) -> (url: String)
    ensures
        url@ == "data:"@ + mime@ + ";base64,"@ + encoded@,
{
    let mut url = chained("data:", mime);
    url.append(";base64,");
    url.append(encoded);
    url
}

/// The `data:` address of the image at `path` whose content is `bytes`:
/// the media type is that of the path with slashes for backslashes. An
/// empty file has none.
pub fn load_image_as_base64(path: &str, bytes: &[u8]) -> (result: Result<String, String>)
    requires
        encodable(bytes@),
    ensures
        match result {
            Ok(url) => bytes@.len() > 0 && url@ == "data:"@ + media_type(
                lower_extension(path_extension(slashed(path@))),
            ) + ";base64,"@ + base64_text(bytes@),
            Err(text) => bytes@.len() == 0 && text@ == "Файл пуст"@,
        },
{
    if bytes.len() == 0 {
        return Err(String::from_str("Файл пуст"));
    }
    let normalized = normalize_path(path);
    let mime = get_mime_type(normalized.as_str());
    let encoded = encode_base64(bytes);
    Ok(data_url(mime.as_str(), encoded.as_str()))
}

} // verus!
