use wallora::utils::file_utils::{
    get_mime_type, get_supported_extensions, is_gif_file, is_image_file, is_video_file,
};

#[test]
fn video_extensions_are_recognised_in_any_case() {
    assert!(is_video_file("mp4"));
    assert!(is_video_file("WebM"));
    assert!(is_video_file("AVI"));
    assert!(is_video_file("mov"));
    assert!(is_video_file("MKV"));
    assert!(!is_video_file("gif"));
    assert!(!is_video_file("png"));
    assert!(!is_video_file(""));
}

#[test]
fn gif_is_its_own_kind() {
    assert!(is_gif_file("gif"));
    assert!(is_gif_file("GIF"));
    assert!(!is_gif_file("gifv"));
    assert!(!is_image_file("gif"));
}

#[test]
fn image_extensions_are_recognised_in_any_case() {
    for ext in ["jpg", "jpeg", "png", "bmp", "webp", "tiff", "tga", "JPG", "Png"] {
        assert!(is_image_file(ext));
    }
    assert!(!is_image_file("mp4"));
    assert!(!is_image_file("svg"));
}

#[test]
fn mime_type_follows_the_extension() {
    assert_eq!(get_mime_type("clip.mp4"), "video/mp4");
    assert_eq!(get_mime_type("clip.WEBM"), "video/webm");
    assert_eq!(get_mime_type("/videos/clip.avi"), "video/avi");
    assert_eq!(get_mime_type("clip.mov"), "video/quicktime");
    assert_eq!(get_mime_type("a.b/clip.mkv"), "video/x-matroska");
    assert_eq!(get_mime_type("anim.GIF"), "image/gif");
}

#[test]
fn mime_type_defaults_to_mp4() {
    assert_eq!(get_mime_type("clip"), "video/mp4");
    assert_eq!(get_mime_type("clip.xyz"), "video/mp4");
    assert_eq!(get_mime_type(""), "video/mp4");
    assert_eq!(get_mime_type(".gif"), "video/mp4");
}

#[test]
fn supported_extensions_are_the_thirteen() {
    assert_eq!(
        get_supported_extensions(),
        [
            "jpg", "jpeg", "png", "bmp", "webp", "tiff", "tga", "mp4", "webm", "avi", "mov",
            "mkv", "gif"
        ]
    );
}

#[test]
fn mime_type_of_a_path_without_a_dot_is_the_default() {
    assert_eq!(get_mime_type("/videos/clip"), "video/mp4");
    assert_eq!(get_mime_type("gif"), "video/mp4");
    assert_eq!(get_mime_type("/videos/gif/clip"), "video/mp4");
}

#[test]
fn mime_type_of_a_plain_name_follows_its_extension() {
    assert_eq!(get_mime_type("clip.gif"), "image/gif");
    assert_eq!(get_mime_type("/a/b/clip.Mov"), "video/quicktime");
    assert_eq!(get_mime_type("a.b/c.d/clip.webm"), "video/webm");
    assert_eq!(get_mime_type("relative/dir/x.MKV"), "video/x-matroska");
}
