//! Classification of media files by their extension.

use vstd::prelude::*;
use vstd::string::*;
use crate::utils::text::lowercase_of;

verus! {

/// What a file extension says about how the file is shown.
#[derive(Debug, Clone, Copy, PartialEq, Eq, Structural)]
pub enum MediaKind {
    /// A still image.
    Image,
    /// A video clip.
    Video,
    /// An animated GIF, played like a video.
    Gif,
    /// Anything else.
    Unsupported,
}

/// The media kind of an extension that is already in lowercase.
pub open spec fn media_kind_of(lowered: Seq<char>) -> MediaKind {
    if lowered == "gif"@ {
        MediaKind::Gif
    } else if lowered == "mp4"@ || lowered == "webm"@ || lowered == "avi"@ || lowered == "mov"@
        || lowered == "mkv"@ {
        MediaKind::Video
    } else if lowered == "jpg"@ || lowered == "jpeg"@ || lowered == "png"@ || lowered == "bmp"@
        || lowered == "webp"@ || lowered == "tiff"@ || lowered == "tga"@ {
        MediaKind::Image
    } else {
        MediaKind::Unsupported
    }
}

/// Classifies an extension that is already in lowercase.
pub fn media_kind(lowered: &str) -> (kind: MediaKind)
    ensures
        kind == media_kind_of(lowered@),
{
    if str::eq(lowered, "gif") {
        MediaKind::Gif
    } else if str::eq(lowered, "mp4") || str::eq(lowered, "webm") || str::eq(lowered, "avi") || str::eq(lowered, "mov")
        || str::eq(lowered, "mkv") {
        MediaKind::Video
    } else if str::eq(lowered, "jpg") || str::eq(lowered, "jpeg") || str::eq(lowered, "png") || str::eq(lowered, "bmp")
        || str::eq(lowered, "webp") || str::eq(lowered, "tiff") || str::eq(lowered, "tga") {
        MediaKind::Image
    } else {
        MediaKind::Unsupported
    }
}

/// Whether `file_type`, in any letter case, names a video format.
pub fn is_video_file(file_type: &str) -> (yes: bool)
    ensures
        yes == (media_kind_of(lowercase_of(file_type@)) == MediaKind::Video),
{
    let lowered = file_type.to_lowercase();
    media_kind(lowered.as_str()) == MediaKind::Video
}

/// Whether `file_type`, in any letter case, is the GIF extension.
pub fn is_gif_file(file_type: &str) -> (yes: bool)
    ensures
        yes == (lowercase_of(file_type@) == "gif"@),
{
    let lowered = file_type.to_lowercase();
    str::eq(lowered.as_str(), "gif")
}

/// Whether `file_type`, in any letter case, names a still-image format.
pub fn is_image_file(file_type: &str) -> (yes: bool)
    ensures
        yes == (media_kind_of(lowercase_of(file_type@)) == MediaKind::Image),
{
    let lowered = file_type.to_lowercase();
    media_kind(lowered.as_str()) == MediaKind::Image
}

/// The extensions of the files that can be shown, in lowercase.
pub open spec fn supported_extensions() -> Seq<Seq<char>> {
    seq![
        "jpg"@,
        "jpeg"@,
        "png"@,
        "bmp"@,
        "webp"@,
        "tiff"@,
        "tga"@,
        "mp4"@,
        "webm"@,
        "avi"@,
        "mov"@,
        "mkv"@,
        "gif"@,
    ]
}

/// The extensions of the files that can be shown, in lowercase.
pub fn get_supported_extensions() -> (list: [&'static str; 13])
    ensures
        forall|i: int| 0 <= i < 13 ==> (#[trigger] list@[i])@ == supported_extensions()[i],
{
    ["jpg", "jpeg", "png", "bmp", "webp", "tiff", "tga", "mp4", "webm", "avi", "mov", "mkv", "gif"]
}

/// The supported extensions are those with a media kind.
pub proof fn law_supported_extensions_have_a_kind(lowered: Seq<char>)
    ensures
        supported_extensions().contains(lowered) <==> media_kind_of(lowered)
            != MediaKind::Unsupported,
{
    let list = supported_extensions();
    if media_kind_of(lowered) != MediaKind::Unsupported {
        let i = choose|i: int| 0 <= i < 13 && list[i] == lowered;
        assert(list[i] == lowered);
    }
}

/// Whether a lowercase extension is one of the supported ones.
pub fn is_supported_extension(lowered: &str) -> (yes: bool)
    ensures
        yes == supported_extensions().contains(lowered@),
{
    proof {
        law_supported_extensions_have_a_kind(lowered@);
    }
    media_kind(lowered) != MediaKind::Unsupported
}

/// The MIME type under which a file with the lowercase extension `lowered` is
/// played: GIFs as images, everything else as a video, MP4 where the
/// extension is not a known video format.
pub open spec fn mime_type_of(lowered: Seq<char>) -> Seq<char> {
    if lowered == "gif"@ {
        "image/gif"@
    } else if lowered == "webm"@ {
        "video/webm"@
    } else if lowered == "avi"@ {
        "video/avi"@
    } else if lowered == "mov"@ {
        "video/quicktime"@
    } else if lowered == "mkv"@ {
        "video/x-matroska"@
    } else {
        "video/mp4"@
    }
}

/// The MIME type for an extension that is already in lowercase.
pub fn mime_type_for_extension(lowered: &str) -> (mime: String)
    ensures
        mime@ == mime_type_of(lowered@),
{
    if str::eq(lowered, "gif") {
        String::from_str("image/gif")
    } else if str::eq(lowered, "webm") {
        String::from_str("video/webm")
    } else if str::eq(lowered, "avi") {
        String::from_str("video/avi")
    } else if str::eq(lowered, "mov") {
        String::from_str("video/quicktime")
    } else if str::eq(lowered, "mkv") {
        String::from_str("video/x-matroska")
    } else {
        String::from_str("video/mp4")
    }
}

/// Whether `extension` stands in `path` right behind the dot at `dot`.
pub open spec fn follows_dot_at(path: Seq<char>, extension: Seq<char>, dot: int) -> bool {
    &&& 0 <= dot
    &&& dot + 1 + extension.len() <= path.len()
    &&& path[dot] == '.'
    &&& path.subrange(dot + 1, dot + 1 + extension.len()) == extension
}

/// Whether `extension` can be the extension of the file that `path` names:
/// it holds no dot and stands in the path behind one.
pub open spec fn is_extension_in(path: Seq<char>, extension: Seq<char>) -> bool {
    &&& !extension.contains('.')
    &&& exists|dot: int| follows_dot_at(path, extension, dot)
}

/// Whether a text holds none of the characters that part a path or a file
/// name: no slash, no backslash, no colon, no dot.
pub open spec fn is_plain(text: Seq<char>) -> bool {
    !text.contains('/') && !text.contains('\\') && !text.contains(':') && !text.contains('.')
}

/// Whether `path` is written with slashes alone and ends in the file name
/// `stem.extension`, with a stem that is not empty: the name stands alone or
/// behind a slash, the path holds no backslash and no colon and does not
/// begin with two slashes. Every operating system reads such a path alike.
pub open spec fn ends_in_plain_name(path: Seq<char>, stem: Seq<char>, extension: Seq<char>)
    -> bool {
    &&& stem.len() > 0
    &&& is_plain(stem)
    &&& is_plain(extension)
    &&& !path.contains('\\')
    &&& !path.contains(':')
    &&& !(path.len() >= 2 && path[0] == '/' && path[1] == '/')
    &&& (path == stem + seq!['.'] + extension || exists|directory: Seq<char>|
        path == directory + seq!['/'] + stem + seq!['.'] + extension)
}

/// What holds of the extension that is found in `path`, on every operating
/// system: it holds no dot and stands in the path behind one, and where the
/// path ends in a plain file name with an extension, that is the one found.
pub open spec fn extension_fits(path: Seq<char>, extension: Option<Seq<char>>) -> bool {
    &&& extension matches Some(text) ==> is_extension_in(path, text)
    &&& forall|stem: Seq<char>, plain: Seq<char>| #[trigger]
        ends_in_plain_name(path, stem, plain) ==> extension == Some(plain)
}

/// The text of an optional string.
pub open spec fn text_of(text: Option<String>) -> Option<Seq<char>> {
    match text {
        Some(text) => Some(text@),
        None => None,
    }
}

/// `Path::extension` gives the part of the path's file name after its last
/// dot, if the file name has one that is not its first character, and the
/// file name is the last component of the path. Which part of the path that
/// is follows the rules of the operating system, so the contract only says
/// what holds under all of them: the extension holds no dot and stands in
/// the path behind one; and a path that is written with slashes alone, names
/// no drive or server and ends in `stem.extension` has that extension.
#[verifier::external_body]
pub(crate) fn path_extension(file_path: &str) -> (extension: Option<String>)
    ensures
        extension_fits(file_path@, text_of(extension)),
{
    match std::path::Path::new(file_path).extension() {
        Some(extension) => match extension.to_str() {
            Some(text) => Some(text.to_string()),
            None => None,
        },
        None => None,
    }
}

/// Whether `lowered` is the lowercase form of an extension that `path` can
/// have, or of the empty text.
pub open spec fn is_lowercase_extension_of(path: Seq<char>, lowered: Seq<char>) -> bool {
    exists|extension: Seq<char>|
        (extension.len() == 0 || is_extension_in(path, extension)) && lowered
            == #[trigger] lowercase_of(extension)
}

/// What holds of the lowercase form `lowered` of the extension found in
/// `path`: it is that of a text that can be the path's extension, or of the
/// empty text; of the empty text where the path holds no dot; and of the
/// extension that is written out where the path ends in a plain file name.
pub open spec fn lowercase_extension_fits(path: Seq<char>, lowered: Seq<char>) -> bool {
    &&& is_lowercase_extension_of(path, lowered)
    &&& !path.contains('.') ==> lowered == lowercase_of(Seq::empty())
    &&& forall|stem: Seq<char>, plain: Seq<char>| #[trigger]
        ends_in_plain_name(path, stem, plain) ==> lowered == lowercase_of(plain)
}

/// The extension of `file_path` in lowercase; that of the empty text where
/// the path has none.
pub fn lowercase_extension(file_path: &str) -> (lowered: String)
    ensures
        lowercase_extension_fits(file_path@, lowered@),
{
    match path_extension(file_path) {
        Some(extension) => {
            let lowered = extension.as_str().to_lowercase();
            assert(lowered@ == lowercase_of(extension@));
            assert(file_path@.contains('.')) by {
                let dot = choose|dot: int| follows_dot_at(file_path@, extension@, dot);
                assert(file_path@[dot] == '.');
            }
            lowered
        },
        None => {
            proof {
                reveal_strlit("");
            }
            let lowered = "".to_lowercase();
            assert(""@ =~= Seq::<char>::empty());
            assert(lowered@ == lowercase_of(""@));
            lowered
        },
    }
}

/// The MIME type under which the file at `file_path` is played, by its
/// extension in any letter case: that of the empty extension where the path
/// holds no dot, that of the extension written out where the path ends in a
/// plain file name.
pub fn get_mime_type(file_path: &str) -> (mime: String)
    ensures
        exists|lowered: Seq<char>| #[trigger]
            lowercase_extension_fits(file_path@, lowered) && mime@ == mime_type_of(lowered),
        !file_path@.contains('.') ==> mime@ == mime_type_of(lowercase_of(Seq::empty())),
        forall|stem: Seq<char>, plain: Seq<char>| #[trigger]
            ends_in_plain_name(file_path@, stem, plain) ==> mime@ == mime_type_of(
                lowercase_of(plain),
            ),
{
    let lowered = lowercase_extension(file_path);
    mime_type_for_extension(lowered.as_str())
}

} // verus!
