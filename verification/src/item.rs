use vstd::prelude::*;
use crate::text::{
    ascii_lower, ascii_upper, lemma_ascii_lower_ignores_case, lemma_ascii_upper_ascii, lowercased,
    str_eq, to_lower,
};
use vstd::utf8::is_ascii_chars;

verus! {

/// The kinds of trashed files; each kind has a tab of its own.
#[derive(Debug, Clone, Copy, PartialEq, Eq, Hash, Structural)]
pub enum ItemType {
    Document,
    Image,
    Video,
    Audio,
    Archive,
    Code,
    Folder,
    Other,
}

/// The glyph shown in front of an item of the given kind.
pub open spec fn spec_icon(t: ItemType) -> Seq<char> {
    match t {
        ItemType::Folder => "\u{f024b} "@,
        ItemType::Code => "\u{f0169} "@,
        ItemType::Document => "\u{f0219} "@,
        ItemType::Image => "\u{f021f} "@,
        ItemType::Video => "\u{f022b} "@,
        ItemType::Audio => "\u{f0223} "@,
        ItemType::Archive => "\u{f0ffa} "@,
        ItemType::Other => "\u{f021a} "@,
    }
}

impl ItemType {
    pub fn icon(&self) -> (r: &'static str)
        ensures
            r@ == spec_icon(*self),
    {
        match self {
            ItemType::Folder => "\u{f024b} ",
            ItemType::Code => "\u{f0169} ",
            ItemType::Document => "\u{f0219} ",
            ItemType::Image => "\u{f021f} ",
            ItemType::Video => "\u{f022b} ",
            ItemType::Audio => "\u{f0223} ",
            ItemType::Archive => "\u{f0ffa} ",
            ItemType::Other => "\u{f021a} ",
        }
    }
}

/// The kind of a file whose extension, already in lowercase, is `e`.
pub open spec fn spec_kind_of_extension(e: Seq<char>) -> ItemType {
    if e == "pdf"@
            || e == "doc"@
            || e == "docx"@
            || e == "txt"@
            || e == "md"@
            || e == "rtf"@
            || e == "odt"@ {
        ItemType::Document
    } else if e == "png"@
            || e == "jpg"@
            || e == "jpeg"@
            || e == "gif"@
            || e == "bmp"@
            || e == "svg"@
            || e == "webp"@
            || e == "ico"@ {
        ItemType::Image
    } else if e == "mp4"@
            || e == "mkv"@
            || e == "avi"@
            || e == "mov"@
            || e == "wmv"@
            || e == "flv"@
            || e == "webm"@ {
        ItemType::Video
    } else if e == "mp3"@
            || e == "wav"@
            || e == "flac"@
            || e == "aac"@
            || e == "ogg"@
            || e == "wma"@
            || e == "m4a"@ {
        ItemType::Audio
    } else if e == "zip"@
            || e == "rar"@
            || e == "7z"@
            || e == "tar"@
            || e == "gz"@
            || e == "bz2"@
            || e == "xz"@ {
        ItemType::Archive
    } else if e == "rs"@
            || e == "py"@
            || e == "js"@
            || e == "ts"@
            || e == "java"@
            || e == "c"@
            || e == "cpp"@
            || e == "h"@
            || e == "go"@
            || e == "rb"@
            || e == "php"@
            || e == "swift"@
            || e == "kt"@
            || e == "scala"@
            || e == "html"@
            || e == "css"@
            || e == "json"@
            || e == "yaml"@
            || e == "toml"@
            || e == "xml"@
            || e == "sh"@ {
        ItemType::Code
    } else {
        ItemType::Other
    }
}

/// The kind of a trashed entry: a directory is a folder whatever its name,
/// a file goes by its extension taken in lowercase.
pub open spec fn spec_from_extension(ext: Seq<char>, is_dir: bool) -> ItemType {
    if is_dir {
        ItemType::Folder
    } else {
        spec_kind_of_extension(lowercased(ext))
    }
}

/// The kind of a trashed entry whose extension is ASCII text: a directory is
/// a folder, a file goes by its extension in ASCII lowercase.
pub open spec fn spec_from_ascii_extension(ext: Seq<char>, is_dir: bool) -> ItemType {
    if is_dir {
        ItemType::Folder
    } else {
        spec_kind_of_extension(ascii_lower(ext))
    }
}

/// The title of the tab of a kind.
pub open spec fn spec_label(t: ItemType) -> Seq<char> {
    match t {
        ItemType::Folder => "Folders"@,
        ItemType::Code => "Code"@,
        ItemType::Document => "Docs"@,
        ItemType::Image => "Images"@,
        ItemType::Video => "Video"@,
        ItemType::Audio => "Audio"@,
        ItemType::Archive => "Archives"@,
        ItemType::Other => "Other"@,
    }
}

/// The colours of the interface, by name; the terminal front end gives each
/// name its shade.
#[derive(Debug, Clone, Copy, PartialEq, Eq, Structural)]
pub enum ColorName {
    Accent,
    Green,
    Cyan,
    Yellow,
    Purple,
    Pink,
    Orange,
    TextDim,
}

/// The colour in which items of a kind are drawn.
pub open spec fn spec_color(t: ItemType) -> ColorName {
    match t {
        ItemType::Folder => ColorName::Accent,
        ItemType::Code => ColorName::Green,
        ItemType::Document => ColorName::Cyan,
        ItemType::Image => ColorName::Yellow,
        ItemType::Video => ColorName::Purple,
        ItemType::Audio => ColorName::Pink,
        ItemType::Archive => ColorName::Orange,
        ItemType::Other => ColorName::TextDim,
    }
}

/// The place of a kind in a table of the eight kinds.
pub open spec fn spec_slot(t: ItemType) -> int {
    match t {
        ItemType::Document => 0,
        ItemType::Image => 1,
        ItemType::Video => 2,
        ItemType::Audio => 3,
        ItemType::Archive => 4,
        ItemType::Code => 5,
        ItemType::Folder => 6,
        ItemType::Other => 7,
    }
}

/// The kind at a place of the table of kinds: the inverse of `spec_slot`.
pub open spec fn spec_kind_at_slot(i: int) -> ItemType {
    if i == 0 {
        ItemType::Document
    } else if i == 1 {
        ItemType::Image
    } else if i == 2 {
        ItemType::Video
    } else if i == 3 {
        ItemType::Audio
    } else if i == 4 {
        ItemType::Archive
    } else if i == 5 {
        ItemType::Code
    } else if i == 6 {
        ItemType::Folder
    } else {
        ItemType::Other
    }
}

impl ItemType {
    pub fn color(&self) -> (r: ColorName)
        ensures
            r == spec_color(*self),
    {
        match self {
            ItemType::Folder => ColorName::Accent,
            ItemType::Code => ColorName::Green,
            ItemType::Document => ColorName::Cyan,
            ItemType::Image => ColorName::Yellow,
            ItemType::Video => ColorName::Purple,
            ItemType::Audio => ColorName::Pink,
            ItemType::Archive => ColorName::Orange,
            ItemType::Other => ColorName::TextDim,
        }
    }

    pub fn label(&self) -> (r: &'static str)
        ensures
            r@ == spec_label(*self),
    {
        match self {
            ItemType::Folder => "Folders",
            ItemType::Code => "Code",
            ItemType::Document => "Docs",
            ItemType::Image => "Images",
            ItemType::Video => "Video",
            ItemType::Audio => "Audio",
            ItemType::Archive => "Archives",
            ItemType::Other => "Other",
        }
    }

    /// The kind of a trashed entry, from its extension and whether it is a
    /// directory.
    pub fn from_extension(ext: &str, is_dir: bool) -> (r: ItemType)
        ensures
            r == spec_from_extension(ext@, is_dir),
            is_ascii_chars(ext@) ==> r == spec_from_ascii_extension(ext@, is_dir),
    {
        if is_dir {
            return ItemType::Folder;
        }
        let lower = to_lower(ext);
        ItemType::from_lowercase_extension(lower.as_str())
    }

    /// The kind of a file from its extension once it is in lowercase.
    pub fn from_lowercase_extension(ext: &str) -> (r: ItemType)
        ensures
            r == spec_kind_of_extension(ext@),
    {
        if str_eq(ext, "pdf")
            || str_eq(ext, "doc")
            || str_eq(ext, "docx")
            || str_eq(ext, "txt")
            || str_eq(ext, "md")
            || str_eq(ext, "rtf")
            || str_eq(ext, "odt") {
            ItemType::Document
        } else if str_eq(ext, "png")
            || str_eq(ext, "jpg")
            || str_eq(ext, "jpeg")
            || str_eq(ext, "gif")
            || str_eq(ext, "bmp")
            || str_eq(ext, "svg")
            || str_eq(ext, "webp")
            || str_eq(ext, "ico") {
            ItemType::Image
        } else if str_eq(ext, "mp4")
            || str_eq(ext, "mkv")
            || str_eq(ext, "avi")
            || str_eq(ext, "mov")
            || str_eq(ext, "wmv")
            || str_eq(ext, "flv")
            || str_eq(ext, "webm") {
            ItemType::Video
        } else if str_eq(ext, "mp3")
            || str_eq(ext, "wav")
            || str_eq(ext, "flac")
            || str_eq(ext, "aac")
            || str_eq(ext, "ogg")
            || str_eq(ext, "wma")
            || str_eq(ext, "m4a") {
            ItemType::Audio
        } else if str_eq(ext, "zip")
            || str_eq(ext, "rar")
            || str_eq(ext, "7z")
            || str_eq(ext, "tar")
            || str_eq(ext, "gz")
            || str_eq(ext, "bz2")
            || str_eq(ext, "xz") {
            ItemType::Archive
        } else if str_eq(ext, "rs")
            || str_eq(ext, "py")
            || str_eq(ext, "js")
            || str_eq(ext, "ts")
            || str_eq(ext, "java")
            || str_eq(ext, "c")
            || str_eq(ext, "cpp")
            || str_eq(ext, "h")
            || str_eq(ext, "go")
            || str_eq(ext, "rb")
            || str_eq(ext, "php")
            || str_eq(ext, "swift")
            || str_eq(ext, "kt")
            || str_eq(ext, "scala")
            || str_eq(ext, "html")
            || str_eq(ext, "css")
            || str_eq(ext, "json")
            || str_eq(ext, "yaml")
            || str_eq(ext, "toml")
            || str_eq(ext, "xml")
            || str_eq(ext, "sh") {
            ItemType::Code
        } else {
            ItemType::Other
        }
    }

    /// The place of this kind in a table of the eight kinds.
    pub fn slot(&self) -> (r: usize)
        ensures
            r == spec_slot(*self),
            r < 8,
    {
        match self {
            ItemType::Document => 0,
            ItemType::Image => 1,
            ItemType::Video => 2,
            ItemType::Audio => 3,
            ItemType::Archive => 4,
            ItemType::Code => 5,
            ItemType::Folder => 6,
            ItemType::Other => 7,
        }
    }
}

/// For an ASCII extension, the letter case does not matter: the extension, its
/// uppercase form and its lowercase form give the same kind (and are all
/// ASCII, so that `from_extension` goes by `spec_from_ascii_extension` on
/// each).
pub proof fn law_extension_case_ignored(ext: Seq<char>, is_dir: bool)
    requires
        is_ascii_chars(ext),
    ensures
        is_ascii_chars(ascii_upper(ext)),
        is_ascii_chars(ascii_lower(ext)),
        spec_from_ascii_extension(ascii_upper(ext), is_dir) == spec_from_ascii_extension(ext, is_dir),
        spec_from_ascii_extension(ascii_lower(ext), is_dir) == spec_from_ascii_extension(ext, is_dir),
{
    lemma_ascii_upper_ascii(ext);
    lemma_ascii_lower_ignores_case(ext);
    assert forall|i: int| 0 <= i < ascii_lower(ext).len() implies '\0' <= #[trigger] ascii_lower(ext)[i] <= '\u{7f}' by {
        assert(ext[i] <= '\u{7f}');
    }
}

/// The extension table is closed for Document: a lowercase extension gives
/// `Document` exactly when it is one of its listed extensions.
pub proof fn law_document_extensions(e: Seq<char>)
    ensures
        spec_kind_of_extension(e) == ItemType::Document <==> (
            e == "pdf"@
            || e == "doc"@
            || e == "docx"@
            || e == "txt"@
            || e == "md"@
            || e == "rtf"@
            || e == "odt"@
        ),
{
    reveal_strlit("pdf");
    reveal_strlit("doc");
    reveal_strlit("docx");
    reveal_strlit("txt");
    reveal_strlit("md");
    reveal_strlit("rtf");
    reveal_strlit("odt");
    assert("pdf"@.len() == 3);
    assert("doc"@.len() == 3);
    assert("docx"@.len() == 4);
    assert("txt"@.len() == 3);
    assert("md"@.len() == 2);
    assert("rtf"@.len() == 3);
    assert("odt"@.len() == 3);
}

/// The extension table is closed for Image: a lowercase extension gives
/// `Image` exactly when it is one of its listed extensions.
pub proof fn law_image_extensions(e: Seq<char>)
    ensures
        spec_kind_of_extension(e) == ItemType::Image <==> (
            e == "png"@
            || e == "jpg"@
            || e == "jpeg"@
            || e == "gif"@
            || e == "bmp"@
            || e == "svg"@
            || e == "webp"@
            || e == "ico"@
        ),
{
    reveal_strlit("pdf");
    reveal_strlit("doc");
    reveal_strlit("docx");
    reveal_strlit("txt");
    reveal_strlit("md");
    reveal_strlit("rtf");
    reveal_strlit("odt");
    reveal_strlit("png");
    reveal_strlit("jpg");
    reveal_strlit("jpeg");
    reveal_strlit("gif");
    reveal_strlit("bmp");
    reveal_strlit("svg");
    reveal_strlit("webp");
    reveal_strlit("ico");
    assert("pdf"@.len() == 3);
    assert("doc"@.len() == 3);
    assert("docx"@.len() == 4);
    assert("txt"@.len() == 3);
    assert("md"@.len() == 2);
    assert("rtf"@.len() == 3);
    assert("odt"@.len() == 3);
    assert("png"@.len() == 3);
    assert("jpg"@.len() == 3);
    assert("jpeg"@.len() == 4);
    assert("gif"@.len() == 3);
    assert("bmp"@.len() == 3);
    assert("svg"@.len() == 3);
    assert("webp"@.len() == 4);
    assert("ico"@.len() == 3);
    if e == "png"@ {
        assert("png"@[1] != "pdf"@[1]);
        assert(e != "pdf"@);
        assert("png"@[0] != "doc"@[0]);
        assert(e != "doc"@);
        assert("png"@[0] != "txt"@[0]);
        assert(e != "txt"@);
        assert("png"@[0] != "rtf"@[0]);
        assert(e != "rtf"@);
        assert("png"@[0] != "odt"@[0]);
        assert(e != "odt"@);
    } else if e == "jpg"@ {
        assert("jpg"@[0] != "pdf"@[0]);
        assert(e != "pdf"@);
        assert("jpg"@[0] != "doc"@[0]);
        assert(e != "doc"@);
        assert("jpg"@[0] != "txt"@[0]);
        assert(e != "txt"@);
        assert("jpg"@[0] != "rtf"@[0]);
        assert(e != "rtf"@);
        assert("jpg"@[0] != "odt"@[0]);
        assert(e != "odt"@);
    } else if e == "jpeg"@ {
        assert("jpeg"@[0] != "docx"@[0]);
        assert(e != "docx"@);
    } else if e == "gif"@ {
        assert("gif"@[0] != "pdf"@[0]);
        assert(e != "pdf"@);
        assert("gif"@[0] != "doc"@[0]);
        assert(e != "doc"@);
        assert("gif"@[0] != "txt"@[0]);
        assert(e != "txt"@);
        assert("gif"@[0] != "rtf"@[0]);
        assert(e != "rtf"@);
        assert("gif"@[0] != "odt"@[0]);
        assert(e != "odt"@);
    } else if e == "bmp"@ {
        assert("bmp"@[0] != "pdf"@[0]);
        assert(e != "pdf"@);
        assert("bmp"@[0] != "doc"@[0]);
        assert(e != "doc"@);
        assert("bmp"@[0] != "txt"@[0]);
        assert(e != "txt"@);
        assert("bmp"@[0] != "rtf"@[0]);
        assert(e != "rtf"@);
        assert("bmp"@[0] != "odt"@[0]);
        assert(e != "odt"@);
    } else if e == "svg"@ {
        assert("svg"@[0] != "pdf"@[0]);
        assert(e != "pdf"@);
        assert("svg"@[0] != "doc"@[0]);
        assert(e != "doc"@);
        assert("svg"@[0] != "txt"@[0]);
        assert(e != "txt"@);
        assert("svg"@[0] != "rtf"@[0]);
        assert(e != "rtf"@);
        assert("svg"@[0] != "odt"@[0]);
        assert(e != "odt"@);
    } else if e == "webp"@ {
        assert("webp"@[0] != "docx"@[0]);
        assert(e != "docx"@);
    } else if e == "ico"@ {
        assert("ico"@[0] != "pdf"@[0]);
        assert(e != "pdf"@);
        assert("ico"@[0] != "doc"@[0]);
        assert(e != "doc"@);
        assert("ico"@[0] != "txt"@[0]);
        assert(e != "txt"@);
        assert("ico"@[0] != "rtf"@[0]);
        assert(e != "rtf"@);
        assert("ico"@[0] != "odt"@[0]);
        assert(e != "odt"@);
    }
}

/// The extension table is closed for Video: a lowercase extension gives
/// `Video` exactly when it is one of its listed extensions.
pub proof fn law_video_extensions(e: Seq<char>)
    ensures
        spec_kind_of_extension(e) == ItemType::Video <==> (
            e == "mp4"@
            || e == "mkv"@
            || e == "avi"@
            || e == "mov"@
            || e == "wmv"@
            || e == "flv"@
            || e == "webm"@
        ),
{
    reveal_strlit("pdf");
    reveal_strlit("doc");
    reveal_strlit("docx");
    reveal_strlit("txt");
    reveal_strlit("md");
    reveal_strlit("rtf");
    reveal_strlit("odt");
    reveal_strlit("png");
    reveal_strlit("jpg");
    reveal_strlit("jpeg");
    reveal_strlit("gif");
    reveal_strlit("bmp");
    reveal_strlit("svg");
    reveal_strlit("webp");
    reveal_strlit("ico");
    reveal_strlit("mp4");
    reveal_strlit("mkv");
    reveal_strlit("avi");
    reveal_strlit("mov");
    reveal_strlit("wmv");
    reveal_strlit("flv");
    reveal_strlit("webm");
    assert("pdf"@.len() == 3);
    assert("doc"@.len() == 3);
    assert("docx"@.len() == 4);
    assert("txt"@.len() == 3);
    assert("md"@.len() == 2);
    assert("rtf"@.len() == 3);
    assert("odt"@.len() == 3);
    assert("png"@.len() == 3);
    assert("jpg"@.len() == 3);
    assert("jpeg"@.len() == 4);
    assert("gif"@.len() == 3);
    assert("bmp"@.len() == 3);
    assert("svg"@.len() == 3);
    assert("webp"@.len() == 4);
    assert("ico"@.len() == 3);
    assert("mp4"@.len() == 3);
    assert("mkv"@.len() == 3);
    assert("avi"@.len() == 3);
    assert("mov"@.len() == 3);
    assert("wmv"@.len() == 3);
    assert("flv"@.len() == 3);
    assert("webm"@.len() == 4);
    if e == "mp4"@ {
        assert("mp4"@[0] != "pdf"@[0]);
        assert(e != "pdf"@);
        assert("mp4"@[0] != "doc"@[0]);
        assert(e != "doc"@);
        assert("mp4"@[0] != "txt"@[0]);
        assert(e != "txt"@);
        assert("mp4"@[0] != "rtf"@[0]);
        assert(e != "rtf"@);
        assert("mp4"@[0] != "odt"@[0]);
        assert(e != "odt"@);
        assert("mp4"@[0] != "png"@[0]);
        assert(e != "png"@);
        assert("mp4"@[0] != "jpg"@[0]);
        assert(e != "jpg"@);
        assert("mp4"@[0] != "gif"@[0]);
        assert(e != "gif"@);
        assert("mp4"@[0] != "bmp"@[0]);
        assert(e != "bmp"@);
        assert("mp4"@[0] != "svg"@[0]);
        assert(e != "svg"@);
        assert("mp4"@[0] != "ico"@[0]);
        assert(e != "ico"@);
    } else if e == "mkv"@ {
        assert("mkv"@[0] != "pdf"@[0]);
        assert(e != "pdf"@);
        assert("mkv"@[0] != "doc"@[0]);
        assert(e != "doc"@);
        assert("mkv"@[0] != "txt"@[0]);
        assert(e != "txt"@);
        assert("mkv"@[0] != "rtf"@[0]);
        assert(e != "rtf"@);
        assert("mkv"@[0] != "odt"@[0]);
        assert(e != "odt"@);
        assert("mkv"@[0] != "png"@[0]);
        assert(e != "png"@);
        assert("mkv"@[0] != "jpg"@[0]);
        assert(e != "jpg"@);
        assert("mkv"@[0] != "gif"@[0]);
        assert(e != "gif"@);
        assert("mkv"@[0] != "bmp"@[0]);
        assert(e != "bmp"@);
        assert("mkv"@[0] != "svg"@[0]);
        assert(e != "svg"@);
        assert("mkv"@[0] != "ico"@[0]);
        assert(e != "ico"@);
    } else if e == "avi"@ {
        assert("avi"@[0] != "pdf"@[0]);
        assert(e != "pdf"@);
        assert("avi"@[0] != "doc"@[0]);
        assert(e != "doc"@);
        assert("avi"@[0] != "txt"@[0]);
        assert(e != "txt"@);
        assert("avi"@[0] != "rtf"@[0]);
        assert(e != "rtf"@);
        assert("avi"@[0] != "odt"@[0]);
        assert(e != "odt"@);
        assert("avi"@[0] != "png"@[0]);
        assert(e != "png"@);
        assert("avi"@[0] != "jpg"@[0]);
        assert(e != "jpg"@);
        assert("avi"@[0] != "gif"@[0]);
        assert(e != "gif"@);
        assert("avi"@[0] != "bmp"@[0]);
        assert(e != "bmp"@);
        assert("avi"@[0] != "svg"@[0]);
        assert(e != "svg"@);
        assert("avi"@[0] != "ico"@[0]);
        assert(e != "ico"@);
    } else if e == "mov"@ {
        assert("mov"@[0] != "pdf"@[0]);
        assert(e != "pdf"@);
        assert("mov"@[0] != "doc"@[0]);
        assert(e != "doc"@);
        assert("mov"@[0] != "txt"@[0]);
        assert(e != "txt"@);
        assert("mov"@[0] != "rtf"@[0]);
        assert(e != "rtf"@);
        assert("mov"@[0] != "odt"@[0]);
        assert(e != "odt"@);
        assert("mov"@[0] != "png"@[0]);
        assert(e != "png"@);
        assert("mov"@[0] != "jpg"@[0]);
        assert(e != "jpg"@);
        assert("mov"@[0] != "gif"@[0]);
        assert(e != "gif"@);
        assert("mov"@[0] != "bmp"@[0]);
        assert(e != "bmp"@);
        assert("mov"@[0] != "svg"@[0]);
        assert(e != "svg"@);
        assert("mov"@[0] != "ico"@[0]);
        assert(e != "ico"@);
    } else if e == "wmv"@ {
        assert("wmv"@[0] != "pdf"@[0]);
        assert(e != "pdf"@);
        assert("wmv"@[0] != "doc"@[0]);
        assert(e != "doc"@);
        assert("wmv"@[0] != "txt"@[0]);
        assert(e != "txt"@);
        assert("wmv"@[0] != "rtf"@[0]);
        assert(e != "rtf"@);
        assert("wmv"@[0] != "odt"@[0]);
        assert(e != "odt"@);
        assert("wmv"@[0] != "png"@[0]);
        assert(e != "png"@);
        assert("wmv"@[0] != "jpg"@[0]);
        assert(e != "jpg"@);
        assert("wmv"@[0] != "gif"@[0]);
        assert(e != "gif"@);
        assert("wmv"@[0] != "bmp"@[0]);
        assert(e != "bmp"@);
        assert("wmv"@[0] != "svg"@[0]);
        assert(e != "svg"@);
        assert("wmv"@[0] != "ico"@[0]);
        assert(e != "ico"@);
    } else if e == "flv"@ {
        assert("flv"@[0] != "pdf"@[0]);
        assert(e != "pdf"@);
        assert("flv"@[0] != "doc"@[0]);
        assert(e != "doc"@);
        assert("flv"@[0] != "txt"@[0]);
        assert(e != "txt"@);
        assert("flv"@[0] != "rtf"@[0]);
        assert(e != "rtf"@);
        assert("flv"@[0] != "odt"@[0]);
        assert(e != "odt"@);
        assert("flv"@[0] != "png"@[0]);
        assert(e != "png"@);
        assert("flv"@[0] != "jpg"@[0]);
        assert(e != "jpg"@);
        assert("flv"@[0] != "gif"@[0]);
        assert(e != "gif"@);
        assert("flv"@[0] != "bmp"@[0]);
        assert(e != "bmp"@);
        assert("flv"@[0] != "svg"@[0]);
        assert(e != "svg"@);
        assert("flv"@[0] != "ico"@[0]);
        assert(e != "ico"@);
    } else if e == "webm"@ {
        assert("webm"@[0] != "docx"@[0]);
        assert(e != "docx"@);
        assert("webm"@[0] != "jpeg"@[0]);
        assert(e != "jpeg"@);
        assert("webm"@[3] != "webp"@[3]);
        assert(e != "webp"@);
    }
}

/// The extension table is closed for Audio: a lowercase extension gives
/// `Audio` exactly when it is one of its listed extensions.
pub proof fn law_audio_extensions(e: Seq<char>)
    ensures
        spec_kind_of_extension(e) == ItemType::Audio <==> (
            e == "mp3"@
            || e == "wav"@
            || e == "flac"@
            || e == "aac"@
            || e == "ogg"@
            || e == "wma"@
            || e == "m4a"@
        ),
{
    reveal_strlit("pdf");
    reveal_strlit("doc");
    reveal_strlit("docx");
    reveal_strlit("txt");
    reveal_strlit("md");
    reveal_strlit("rtf");
    reveal_strlit("odt");
    reveal_strlit("png");
    reveal_strlit("jpg");
    reveal_strlit("jpeg");
    reveal_strlit("gif");
    reveal_strlit("bmp");
    reveal_strlit("svg");
    reveal_strlit("webp");
    reveal_strlit("ico");
    reveal_strlit("mp4");
    reveal_strlit("mkv");
    reveal_strlit("avi");
    reveal_strlit("mov");
    reveal_strlit("wmv");
    reveal_strlit("flv");
    reveal_strlit("webm");
    reveal_strlit("mp3");
    reveal_strlit("wav");
    reveal_strlit("flac");
    reveal_strlit("aac");
    reveal_strlit("ogg");
    reveal_strlit("wma");
    reveal_strlit("m4a");
    assert("pdf"@.len() == 3);
    assert("doc"@.len() == 3);
    assert("docx"@.len() == 4);
    assert("txt"@.len() == 3);
    assert("md"@.len() == 2);
    assert("rtf"@.len() == 3);
    assert("odt"@.len() == 3);
    assert("png"@.len() == 3);
    assert("jpg"@.len() == 3);
    assert("jpeg"@.len() == 4);
    assert("gif"@.len() == 3);
    assert("bmp"@.len() == 3);
    assert("svg"@.len() == 3);
    assert("webp"@.len() == 4);
    assert("ico"@.len() == 3);
    assert("mp4"@.len() == 3);
    assert("mkv"@.len() == 3);
    assert("avi"@.len() == 3);
    assert("mov"@.len() == 3);
    assert("wmv"@.len() == 3);
    assert("flv"@.len() == 3);
    assert("webm"@.len() == 4);
    assert("mp3"@.len() == 3);
    assert("wav"@.len() == 3);
    assert("flac"@.len() == 4);
    assert("aac"@.len() == 3);
    assert("ogg"@.len() == 3);
    assert("wma"@.len() == 3);
    assert("m4a"@.len() == 3);
    if e == "mp3"@ {
        assert("mp3"@[0] != "pdf"@[0]);
        assert(e != "pdf"@);
        assert("mp3"@[0] != "doc"@[0]);
        assert(e != "doc"@);
        assert("mp3"@[0] != "txt"@[0]);
        assert(e != "txt"@);
        assert("mp3"@[0] != "rtf"@[0]);
        assert(e != "rtf"@);
        assert("mp3"@[0] != "odt"@[0]);
        assert(e != "odt"@);
        assert("mp3"@[0] != "png"@[0]);
        assert(e != "png"@);
        assert("mp3"@[0] != "jpg"@[0]);
        assert(e != "jpg"@);
        assert("mp3"@[0] != "gif"@[0]);
        assert(e != "gif"@);
        assert("mp3"@[0] != "bmp"@[0]);
        assert(e != "bmp"@);
        assert("mp3"@[0] != "svg"@[0]);
        assert(e != "svg"@);
        assert("mp3"@[0] != "ico"@[0]);
        assert(e != "ico"@);
        assert("mp3"@[2] != "mp4"@[2]);
        assert(e != "mp4"@);
        assert("mp3"@[1] != "mkv"@[1]);
        assert(e != "mkv"@);
        assert("mp3"@[0] != "avi"@[0]);
        assert(e != "avi"@);
        assert("mp3"@[1] != "mov"@[1]);
        assert(e != "mov"@);
        assert("mp3"@[0] != "wmv"@[0]);
        assert(e != "wmv"@);
        assert("mp3"@[0] != "flv"@[0]);
        assert(e != "flv"@);
    } else if e == "wav"@ {
        assert("wav"@[0] != "pdf"@[0]);
        assert(e != "pdf"@);
        assert("wav"@[0] != "doc"@[0]);
        assert(e != "doc"@);
        assert("wav"@[0] != "txt"@[0]);
        assert(e != "txt"@);
        assert("wav"@[0] != "rtf"@[0]);
        assert(e != "rtf"@);
        assert("wav"@[0] != "odt"@[0]);
        assert(e != "odt"@);
        assert("wav"@[0] != "png"@[0]);
        assert(e != "png"@);
        assert("wav"@[0] != "jpg"@[0]);
        assert(e != "jpg"@);
        assert("wav"@[0] != "gif"@[0]);
        assert(e != "gif"@);
        assert("wav"@[0] != "bmp"@[0]);
        assert(e != "bmp"@);
        assert("wav"@[0] != "svg"@[0]);
        assert(e != "svg"@);
        assert("wav"@[0] != "ico"@[0]);
        assert(e != "ico"@);
        assert("wav"@[0] != "mp4"@[0]);
        assert(e != "mp4"@);
        assert("wav"@[0] != "mkv"@[0]);
        assert(e != "mkv"@);
        assert("wav"@[0] != "avi"@[0]);
        assert(e != "avi"@);
        assert("wav"@[0] != "mov"@[0]);
        assert(e != "mov"@);
        assert("wav"@[1] != "wmv"@[1]);
        assert(e != "wmv"@);
        assert("wav"@[0] != "flv"@[0]);
        assert(e != "flv"@);
    } else if e == "flac"@ {
        assert("flac"@[0] != "docx"@[0]);
        assert(e != "docx"@);
        assert("flac"@[0] != "jpeg"@[0]);
        assert(e != "jpeg"@);
        assert("flac"@[0] != "webp"@[0]);
        assert(e != "webp"@);
        assert("flac"@[0] != "webm"@[0]);
        assert(e != "webm"@);
    } else if e == "aac"@ {
        assert("aac"@[0] != "pdf"@[0]);
        assert(e != "pdf"@);
        assert("aac"@[0] != "doc"@[0]);
        assert(e != "doc"@);
        assert("aac"@[0] != "txt"@[0]);
        assert(e != "txt"@);
        assert("aac"@[0] != "rtf"@[0]);
        assert(e != "rtf"@);
        assert("aac"@[0] != "odt"@[0]);
        assert(e != "odt"@);
        assert("aac"@[0] != "png"@[0]);
        assert(e != "png"@);
        assert("aac"@[0] != "jpg"@[0]);
        assert(e != "jpg"@);
        assert("aac"@[0] != "gif"@[0]);
        assert(e != "gif"@);
        assert("aac"@[0] != "bmp"@[0]);
        assert(e != "bmp"@);
        assert("aac"@[0] != "svg"@[0]);
        assert(e != "svg"@);
        assert("aac"@[0] != "ico"@[0]);
        assert(e != "ico"@);
        assert("aac"@[0] != "mp4"@[0]);
        assert(e != "mp4"@);
        assert("aac"@[0] != "mkv"@[0]);
        assert(e != "mkv"@);
        assert("aac"@[1] != "avi"@[1]);
        assert(e != "avi"@);
        assert("aac"@[0] != "mov"@[0]);
        assert(e != "mov"@);
        assert("aac"@[0] != "wmv"@[0]);
        assert(e != "wmv"@);
        assert("aac"@[0] != "flv"@[0]);
        assert(e != "flv"@);
    } else if e == "ogg"@ {
        assert("ogg"@[0] != "pdf"@[0]);
        assert(e != "pdf"@);
        assert("ogg"@[0] != "doc"@[0]);
        assert(e != "doc"@);
        assert("ogg"@[0] != "txt"@[0]);
        assert(e != "txt"@);
        assert("ogg"@[0] != "rtf"@[0]);
        assert(e != "rtf"@);
        assert("ogg"@[1] != "odt"@[1]);
        assert(e != "odt"@);
        assert("ogg"@[0] != "png"@[0]);
        assert(e != "png"@);
        assert("ogg"@[0] != "jpg"@[0]);
        assert(e != "jpg"@);
        assert("ogg"@[0] != "gif"@[0]);
        assert(e != "gif"@);
        assert("ogg"@[0] != "bmp"@[0]);
        assert(e != "bmp"@);
        assert("ogg"@[0] != "svg"@[0]);
        assert(e != "svg"@);
        assert("ogg"@[0] != "ico"@[0]);
        assert(e != "ico"@);
        assert("ogg"@[0] != "mp4"@[0]);
        assert(e != "mp4"@);
        assert("ogg"@[0] != "mkv"@[0]);
        assert(e != "mkv"@);
        assert("ogg"@[0] != "avi"@[0]);
        assert(e != "avi"@);
        assert("ogg"@[0] != "mov"@[0]);
        assert(e != "mov"@);
        assert("ogg"@[0] != "wmv"@[0]);
        assert(e != "wmv"@);
        assert("ogg"@[0] != "flv"@[0]);
        assert(e != "flv"@);
    } else if e == "wma"@ {
        assert("wma"@[0] != "pdf"@[0]);
        assert(e != "pdf"@);
        assert("wma"@[0] != "doc"@[0]);
        assert(e != "doc"@);
        assert("wma"@[0] != "txt"@[0]);
        assert(e != "txt"@);
        assert("wma"@[0] != "rtf"@[0]);
        assert(e != "rtf"@);
        assert("wma"@[0] != "odt"@[0]);
        assert(e != "odt"@);
        assert("wma"@[0] != "png"@[0]);
        assert(e != "png"@);
        assert("wma"@[0] != "jpg"@[0]);
        assert(e != "jpg"@);
        assert("wma"@[0] != "gif"@[0]);
        assert(e != "gif"@);
        assert("wma"@[0] != "bmp"@[0]);
        assert(e != "bmp"@);
        assert("wma"@[0] != "svg"@[0]);
        assert(e != "svg"@);
        assert("wma"@[0] != "ico"@[0]);
        assert(e != "ico"@);
        assert("wma"@[0] != "mp4"@[0]);
        assert(e != "mp4"@);
        assert("wma"@[0] != "mkv"@[0]);
        assert(e != "mkv"@);
        assert("wma"@[0] != "avi"@[0]);
        assert(e != "avi"@);
        assert("wma"@[0] != "mov"@[0]);
        assert(e != "mov"@);
        assert("wma"@[2] != "wmv"@[2]);
        assert(e != "wmv"@);
        assert("wma"@[0] != "flv"@[0]);
        assert(e != "flv"@);
    } else if e == "m4a"@ {
        assert("m4a"@[0] != "pdf"@[0]);
        assert(e != "pdf"@);
        assert("m4a"@[0] != "doc"@[0]);
        assert(e != "doc"@);
        assert("m4a"@[0] != "txt"@[0]);
        assert(e != "txt"@);
        assert("m4a"@[0] != "rtf"@[0]);
        assert(e != "rtf"@);
        assert("m4a"@[0] != "odt"@[0]);
        assert(e != "odt"@);
        assert("m4a"@[0] != "png"@[0]);
        assert(e != "png"@);
        assert("m4a"@[0] != "jpg"@[0]);
        assert(e != "jpg"@);
        assert("m4a"@[0] != "gif"@[0]);
        assert(e != "gif"@);
        assert("m4a"@[0] != "bmp"@[0]);
        assert(e != "bmp"@);
        assert("m4a"@[0] != "svg"@[0]);
        assert(e != "svg"@);
        assert("m4a"@[0] != "ico"@[0]);
        assert(e != "ico"@);
        assert("m4a"@[1] != "mp4"@[1]);
        assert(e != "mp4"@);
        assert("m4a"@[1] != "mkv"@[1]);
        assert(e != "mkv"@);
        assert("m4a"@[0] != "avi"@[0]);
        assert(e != "avi"@);
        assert("m4a"@[1] != "mov"@[1]);
        assert(e != "mov"@);
        assert("m4a"@[0] != "wmv"@[0]);
        assert(e != "wmv"@);
        assert("m4a"@[0] != "flv"@[0]);
        assert(e != "flv"@);
    }
}

/// The extension table is closed for Archive: a lowercase extension gives
/// `Archive` exactly when it is one of its listed extensions.
pub proof fn law_archive_extensions(e: Seq<char>)
    ensures
        spec_kind_of_extension(e) == ItemType::Archive <==> (
            e == "zip"@
            || e == "rar"@
            || e == "7z"@
            || e == "tar"@
            || e == "gz"@
            || e == "bz2"@
            || e == "xz"@
        ),
{
    reveal_strlit("pdf");
    reveal_strlit("doc");
    reveal_strlit("docx");
    reveal_strlit("txt");
    reveal_strlit("md");
    reveal_strlit("rtf");
    reveal_strlit("odt");
    reveal_strlit("png");
    reveal_strlit("jpg");
    reveal_strlit("jpeg");
    reveal_strlit("gif");
    reveal_strlit("bmp");
    reveal_strlit("svg");
    reveal_strlit("webp");
    reveal_strlit("ico");
    reveal_strlit("mp4");
    reveal_strlit("mkv");
    reveal_strlit("avi");
    reveal_strlit("mov");
    reveal_strlit("wmv");
    reveal_strlit("flv");
    reveal_strlit("webm");
    reveal_strlit("mp3");
    reveal_strlit("wav");
    reveal_strlit("flac");
    reveal_strlit("aac");
    reveal_strlit("ogg");
    reveal_strlit("wma");
    reveal_strlit("m4a");
    reveal_strlit("zip");
    reveal_strlit("rar");
    reveal_strlit("7z");
    reveal_strlit("tar");
    reveal_strlit("gz");
    reveal_strlit("bz2");
    reveal_strlit("xz");
    assert("pdf"@.len() == 3);
    assert("doc"@.len() == 3);
    assert("docx"@.len() == 4);
    assert("txt"@.len() == 3);
    assert("md"@.len() == 2);
    assert("rtf"@.len() == 3);
    assert("odt"@.len() == 3);
    assert("png"@.len() == 3);
    assert("jpg"@.len() == 3);
    assert("jpeg"@.len() == 4);
    assert("gif"@.len() == 3);
    assert("bmp"@.len() == 3);
    assert("svg"@.len() == 3);
    assert("webp"@.len() == 4);
    assert("ico"@.len() == 3);
    assert("mp4"@.len() == 3);
    assert("mkv"@.len() == 3);
    assert("avi"@.len() == 3);
    assert("mov"@.len() == 3);
    assert("wmv"@.len() == 3);
    assert("flv"@.len() == 3);
    assert("webm"@.len() == 4);
    assert("mp3"@.len() == 3);
    assert("wav"@.len() == 3);
    assert("flac"@.len() == 4);
    assert("aac"@.len() == 3);
    assert("ogg"@.len() == 3);
    assert("wma"@.len() == 3);
    assert("m4a"@.len() == 3);
    assert("zip"@.len() == 3);
    assert("rar"@.len() == 3);
    assert("7z"@.len() == 2);
    assert("tar"@.len() == 3);
    assert("gz"@.len() == 2);
    assert("bz2"@.len() == 3);
    assert("xz"@.len() == 2);
    if e == "zip"@ {
        assert("zip"@[0] != "pdf"@[0]);
        assert(e != "pdf"@);
        assert("zip"@[0] != "doc"@[0]);
        assert(e != "doc"@);
        assert("zip"@[0] != "txt"@[0]);
        assert(e != "txt"@);
        assert("zip"@[0] != "rtf"@[0]);
        assert(e != "rtf"@);
        assert("zip"@[0] != "odt"@[0]);
        assert(e != "odt"@);
        assert("zip"@[0] != "png"@[0]);
        assert(e != "png"@);
        assert("zip"@[0] != "jpg"@[0]);
        assert(e != "jpg"@);
        assert("zip"@[0] != "gif"@[0]);
        assert(e != "gif"@);
        assert("zip"@[0] != "bmp"@[0]);
        assert(e != "bmp"@);
        assert("zip"@[0] != "svg"@[0]);
        assert(e != "svg"@);
        assert("zip"@[0] != "ico"@[0]);
        assert(e != "ico"@);
        assert("zip"@[0] != "mp4"@[0]);
        assert(e != "mp4"@);
        assert("zip"@[0] != "mkv"@[0]);
        assert(e != "mkv"@);
        assert("zip"@[0] != "avi"@[0]);
        assert(e != "avi"@);
        assert("zip"@[0] != "mov"@[0]);
        assert(e != "mov"@);
        assert("zip"@[0] != "wmv"@[0]);
        assert(e != "wmv"@);
        assert("zip"@[0] != "flv"@[0]);
        assert(e != "flv"@);
        assert("zip"@[0] != "mp3"@[0]);
        assert(e != "mp3"@);
        assert("zip"@[0] != "wav"@[0]);
        assert(e != "wav"@);
        assert("zip"@[0] != "aac"@[0]);
        assert(e != "aac"@);
        assert("zip"@[0] != "ogg"@[0]);
        assert(e != "ogg"@);
        assert("zip"@[0] != "wma"@[0]);
        assert(e != "wma"@);
        assert("zip"@[0] != "m4a"@[0]);
        assert(e != "m4a"@);
    } else if e == "rar"@ {
        assert("rar"@[0] != "pdf"@[0]);
        assert(e != "pdf"@);
        assert("rar"@[0] != "doc"@[0]);
        assert(e != "doc"@);
        assert("rar"@[0] != "txt"@[0]);
        assert(e != "txt"@);
        assert("rar"@[1] != "rtf"@[1]);
        assert(e != "rtf"@);
        assert("rar"@[0] != "odt"@[0]);
        assert(e != "odt"@);
        assert("rar"@[0] != "png"@[0]);
        assert(e != "png"@);
        assert("rar"@[0] != "jpg"@[0]);
        assert(e != "jpg"@);
        assert("rar"@[0] != "gif"@[0]);
        assert(e != "gif"@);
        assert("rar"@[0] != "bmp"@[0]);
        assert(e != "bmp"@);
        assert("rar"@[0] != "svg"@[0]);
        assert(e != "svg"@);
        assert("rar"@[0] != "ico"@[0]);
        assert(e != "ico"@);
        assert("rar"@[0] != "mp4"@[0]);
        assert(e != "mp4"@);
        assert("rar"@[0] != "mkv"@[0]);
        assert(e != "mkv"@);
        assert("rar"@[0] != "avi"@[0]);
        assert(e != "avi"@);
        assert("rar"@[0] != "mov"@[0]);
        assert(e != "mov"@);
        assert("rar"@[0] != "wmv"@[0]);
        assert(e != "wmv"@);
        assert("rar"@[0] != "flv"@[0]);
        assert(e != "flv"@);
        assert("rar"@[0] != "mp3"@[0]);
        assert(e != "mp3"@);
        assert("rar"@[0] != "wav"@[0]);
        assert(e != "wav"@);
        assert("rar"@[0] != "aac"@[0]);
        assert(e != "aac"@);
        assert("rar"@[0] != "ogg"@[0]);
        assert(e != "ogg"@);
        assert("rar"@[0] != "wma"@[0]);
        assert(e != "wma"@);
        assert("rar"@[0] != "m4a"@[0]);
        assert(e != "m4a"@);
    } else if e == "7z"@ {
        assert("7z"@[0] != "md"@[0]);
        assert(e != "md"@);
    } else if e == "tar"@ {
        assert("tar"@[0] != "pdf"@[0]);
        assert(e != "pdf"@);
        assert("tar"@[0] != "doc"@[0]);
        assert(e != "doc"@);
        assert("tar"@[1] != "txt"@[1]);
        assert(e != "txt"@);
        assert("tar"@[0] != "rtf"@[0]);
        assert(e != "rtf"@);
        assert("tar"@[0] != "odt"@[0]);
        assert(e != "odt"@);
        assert("tar"@[0] != "png"@[0]);
        assert(e != "png"@);
        assert("tar"@[0] != "jpg"@[0]);
        assert(e != "jpg"@);
        assert("tar"@[0] != "gif"@[0]);
        assert(e != "gif"@);
        assert("tar"@[0] != "bmp"@[0]);
        assert(e != "bmp"@);
        assert("tar"@[0] != "svg"@[0]);
        assert(e != "svg"@);
        assert("tar"@[0] != "ico"@[0]);
        assert(e != "ico"@);
        assert("tar"@[0] != "mp4"@[0]);
        assert(e != "mp4"@);
        assert("tar"@[0] != "mkv"@[0]);
        assert(e != "mkv"@);
        assert("tar"@[0] != "avi"@[0]);
        assert(e != "avi"@);
        assert("tar"@[0] != "mov"@[0]);
        assert(e != "mov"@);
        assert("tar"@[0] != "wmv"@[0]);
        assert(e != "wmv"@);
        assert("tar"@[0] != "flv"@[0]);
        assert(e != "flv"@);
        assert("tar"@[0] != "mp3"@[0]);
        assert(e != "mp3"@);
        assert("tar"@[0] != "wav"@[0]);
        assert(e != "wav"@);
        assert("tar"@[0] != "aac"@[0]);
        assert(e != "aac"@);
        assert("tar"@[0] != "ogg"@[0]);
        assert(e != "ogg"@);
        assert("tar"@[0] != "wma"@[0]);
        assert(e != "wma"@);
        assert("tar"@[0] != "m4a"@[0]);
        assert(e != "m4a"@);
    } else if e == "gz"@ {
        assert("gz"@[0] != "md"@[0]);
        assert(e != "md"@);
    } else if e == "bz2"@ {
        assert("bz2"@[0] != "pdf"@[0]);
        assert(e != "pdf"@);
        assert("bz2"@[0] != "doc"@[0]);
        assert(e != "doc"@);
        assert("bz2"@[0] != "txt"@[0]);
        assert(e != "txt"@);
        assert("bz2"@[0] != "rtf"@[0]);
        assert(e != "rtf"@);
        assert("bz2"@[0] != "odt"@[0]);
        assert(e != "odt"@);
        assert("bz2"@[0] != "png"@[0]);
        assert(e != "png"@);
        assert("bz2"@[0] != "jpg"@[0]);
        assert(e != "jpg"@);
        assert("bz2"@[0] != "gif"@[0]);
        assert(e != "gif"@);
        assert("bz2"@[1] != "bmp"@[1]);
        assert(e != "bmp"@);
        assert("bz2"@[0] != "svg"@[0]);
        assert(e != "svg"@);
        assert("bz2"@[0] != "ico"@[0]);
        assert(e != "ico"@);
        assert("bz2"@[0] != "mp4"@[0]);
        assert(e != "mp4"@);
        assert("bz2"@[0] != "mkv"@[0]);
        assert(e != "mkv"@);
        assert("bz2"@[0] != "avi"@[0]);
        assert(e != "avi"@);
        assert("bz2"@[0] != "mov"@[0]);
        assert(e != "mov"@);
        assert("bz2"@[0] != "wmv"@[0]);
        assert(e != "wmv"@);
        assert("bz2"@[0] != "flv"@[0]);
        assert(e != "flv"@);
        assert("bz2"@[0] != "mp3"@[0]);
        assert(e != "mp3"@);
        assert("bz2"@[0] != "wav"@[0]);
        assert(e != "wav"@);
        assert("bz2"@[0] != "aac"@[0]);
        assert(e != "aac"@);
        assert("bz2"@[0] != "ogg"@[0]);
        assert(e != "ogg"@);
        assert("bz2"@[0] != "wma"@[0]);
        assert(e != "wma"@);
        assert("bz2"@[0] != "m4a"@[0]);
        assert(e != "m4a"@);
    } else if e == "xz"@ {
        assert("xz"@[0] != "md"@[0]);
        assert(e != "md"@);
    }
}

/// The extension table is closed for Code: a lowercase extension gives
/// `Code` exactly when it is one of its listed extensions.
pub proof fn law_code_extensions(e: Seq<char>)
    ensures
        spec_kind_of_extension(e) == ItemType::Code <==> (
            e == "rs"@
            || e == "py"@
            || e == "js"@
            || e == "ts"@
            || e == "java"@
            || e == "c"@
            || e == "cpp"@
            || e == "h"@
            || e == "go"@
            || e == "rb"@
            || e == "php"@
            || e == "swift"@
            || e == "kt"@
            || e == "scala"@
            || e == "html"@
            || e == "css"@
            || e == "json"@
            || e == "yaml"@
            || e == "toml"@
            || e == "xml"@
            || e == "sh"@
        ),
{
    reveal_strlit("pdf");
    reveal_strlit("doc");
    reveal_strlit("docx");
    reveal_strlit("txt");
    reveal_strlit("md");
    reveal_strlit("rtf");
    reveal_strlit("odt");
    reveal_strlit("png");
    reveal_strlit("jpg");
    reveal_strlit("jpeg");
    reveal_strlit("gif");
    reveal_strlit("bmp");
    reveal_strlit("svg");
    reveal_strlit("webp");
    reveal_strlit("ico");
    reveal_strlit("mp4");
    reveal_strlit("mkv");
    reveal_strlit("avi");
    reveal_strlit("mov");
    reveal_strlit("wmv");
    reveal_strlit("flv");
    reveal_strlit("webm");
    reveal_strlit("mp3");
    reveal_strlit("wav");
    reveal_strlit("flac");
    reveal_strlit("aac");
    reveal_strlit("ogg");
    reveal_strlit("wma");
    reveal_strlit("m4a");
    reveal_strlit("zip");
    reveal_strlit("rar");
    reveal_strlit("7z");
    reveal_strlit("tar");
    reveal_strlit("gz");
    reveal_strlit("bz2");
    reveal_strlit("xz");
    reveal_strlit("rs");
    reveal_strlit("py");
    reveal_strlit("js");
    reveal_strlit("ts");
    reveal_strlit("java");
    reveal_strlit("c");
    reveal_strlit("cpp");
    reveal_strlit("h");
    reveal_strlit("go");
    reveal_strlit("rb");
    reveal_strlit("php");
    reveal_strlit("swift");
    reveal_strlit("kt");
    reveal_strlit("scala");
    reveal_strlit("html");
    reveal_strlit("css");
    reveal_strlit("json");
    reveal_strlit("yaml");
    reveal_strlit("toml");
    reveal_strlit("xml");
    reveal_strlit("sh");
    assert("pdf"@.len() == 3);
    assert("doc"@.len() == 3);
    assert("docx"@.len() == 4);
    assert("txt"@.len() == 3);
    assert("md"@.len() == 2);
    assert("rtf"@.len() == 3);
    assert("odt"@.len() == 3);
    assert("png"@.len() == 3);
    assert("jpg"@.len() == 3);
    assert("jpeg"@.len() == 4);
    assert("gif"@.len() == 3);
    assert("bmp"@.len() == 3);
    assert("svg"@.len() == 3);
    assert("webp"@.len() == 4);
    assert("ico"@.len() == 3);
    assert("mp4"@.len() == 3);
    assert("mkv"@.len() == 3);
    assert("avi"@.len() == 3);
    assert("mov"@.len() == 3);
    assert("wmv"@.len() == 3);
    assert("flv"@.len() == 3);
    assert("webm"@.len() == 4);
    assert("mp3"@.len() == 3);
    assert("wav"@.len() == 3);
    assert("flac"@.len() == 4);
    assert("aac"@.len() == 3);
    assert("ogg"@.len() == 3);
    assert("wma"@.len() == 3);
    assert("m4a"@.len() == 3);
    assert("zip"@.len() == 3);
    assert("rar"@.len() == 3);
    assert("7z"@.len() == 2);
    assert("tar"@.len() == 3);
    assert("gz"@.len() == 2);
    assert("bz2"@.len() == 3);
    assert("xz"@.len() == 2);
    assert("rs"@.len() == 2);
    assert("py"@.len() == 2);
    assert("js"@.len() == 2);
    assert("ts"@.len() == 2);
    assert("java"@.len() == 4);
    assert("c"@.len() == 1);
    assert("cpp"@.len() == 3);
    assert("h"@.len() == 1);
    assert("go"@.len() == 2);
    assert("rb"@.len() == 2);
    assert("php"@.len() == 3);
    assert("swift"@.len() == 5);
    assert("kt"@.len() == 2);
    assert("scala"@.len() == 5);
    assert("html"@.len() == 4);
    assert("css"@.len() == 3);
    assert("json"@.len() == 4);
    assert("yaml"@.len() == 4);
    assert("toml"@.len() == 4);
    assert("xml"@.len() == 3);
    assert("sh"@.len() == 2);
    if e == "rs"@ {
        assert("rs"@[0] != "md"@[0]);
        assert(e != "md"@);
        assert("rs"@[0] != "7z"@[0]);
        assert(e != "7z"@);
        assert("rs"@[0] != "gz"@[0]);
        assert(e != "gz"@);
        assert("rs"@[0] != "xz"@[0]);
        assert(e != "xz"@);
    } else if e == "py"@ {
        assert("py"@[0] != "md"@[0]);
        assert(e != "md"@);
        assert("py"@[0] != "7z"@[0]);
        assert(e != "7z"@);
        assert("py"@[0] != "gz"@[0]);
        assert(e != "gz"@);
        assert("py"@[0] != "xz"@[0]);
        assert(e != "xz"@);
    } else if e == "js"@ {
        assert("js"@[0] != "md"@[0]);
        assert(e != "md"@);
        assert("js"@[0] != "7z"@[0]);
        assert(e != "7z"@);
        assert("js"@[0] != "gz"@[0]);
        assert(e != "gz"@);
        assert("js"@[0] != "xz"@[0]);
        assert(e != "xz"@);
    } else if e == "ts"@ {
        assert("ts"@[0] != "md"@[0]);
        assert(e != "md"@);
        assert("ts"@[0] != "7z"@[0]);
        assert(e != "7z"@);
        assert("ts"@[0] != "gz"@[0]);
        assert(e != "gz"@);
        assert("ts"@[0] != "xz"@[0]);
        assert(e != "xz"@);
    } else if e == "java"@ {
        assert("java"@[0] != "docx"@[0]);
        assert(e != "docx"@);
        assert("java"@[1] != "jpeg"@[1]);
        assert(e != "jpeg"@);
        assert("java"@[0] != "webp"@[0]);
        assert(e != "webp"@);
        assert("java"@[0] != "webm"@[0]);
        assert(e != "webm"@);
        assert("java"@[0] != "flac"@[0]);
        assert(e != "flac"@);
    } else if e == "c"@ {
    } else if e == "cpp"@ {
        assert("cpp"@[0] != "pdf"@[0]);
        assert(e != "pdf"@);
        assert("cpp"@[0] != "doc"@[0]);
        assert(e != "doc"@);
        assert("cpp"@[0] != "txt"@[0]);
        assert(e != "txt"@);
        assert("cpp"@[0] != "rtf"@[0]);
        assert(e != "rtf"@);
        assert("cpp"@[0] != "odt"@[0]);
        assert(e != "odt"@);
        assert("cpp"@[0] != "png"@[0]);
        assert(e != "png"@);
        assert("cpp"@[0] != "jpg"@[0]);
        assert(e != "jpg"@);
        assert("cpp"@[0] != "gif"@[0]);
        assert(e != "gif"@);
        assert("cpp"@[0] != "bmp"@[0]);
        assert(e != "bmp"@);
        assert("cpp"@[0] != "svg"@[0]);
        assert(e != "svg"@);
        assert("cpp"@[0] != "ico"@[0]);
        assert(e != "ico"@);
        assert("cpp"@[0] != "mp4"@[0]);
        assert(e != "mp4"@);
        assert("cpp"@[0] != "mkv"@[0]);
        assert(e != "mkv"@);
        assert("cpp"@[0] != "avi"@[0]);
        assert(e != "avi"@);
        assert("cpp"@[0] != "mov"@[0]);
        assert(e != "mov"@);
        assert("cpp"@[0] != "wmv"@[0]);
        assert(e != "wmv"@);
        assert("cpp"@[0] != "flv"@[0]);
        assert(e != "flv"@);
        assert("cpp"@[0] != "mp3"@[0]);
        assert(e != "mp3"@);
        assert("cpp"@[0] != "wav"@[0]);
        assert(e != "wav"@);
        assert("cpp"@[0] != "aac"@[0]);
        assert(e != "aac"@);
        assert("cpp"@[0] != "ogg"@[0]);
        assert(e != "ogg"@);
        assert("cpp"@[0] != "wma"@[0]);
        assert(e != "wma"@);
        assert("cpp"@[0] != "m4a"@[0]);
        assert(e != "m4a"@);
        assert("cpp"@[0] != "zip"@[0]);
        assert(e != "zip"@);
        assert("cpp"@[0] != "rar"@[0]);
        assert(e != "rar"@);
        assert("cpp"@[0] != "tar"@[0]);
        assert(e != "tar"@);
        assert("cpp"@[0] != "bz2"@[0]);
        assert(e != "bz2"@);
    } else if e == "h"@ {
    } else if e == "go"@ {
        assert("go"@[0] != "md"@[0]);
        assert(e != "md"@);
        assert("go"@[0] != "7z"@[0]);
        assert(e != "7z"@);
        assert("go"@[1] != "gz"@[1]);
        assert(e != "gz"@);
        assert("go"@[0] != "xz"@[0]);
        assert(e != "xz"@);
    } else if e == "rb"@ {
        assert("rb"@[0] != "md"@[0]);
        assert(e != "md"@);
        assert("rb"@[0] != "7z"@[0]);
        assert(e != "7z"@);
        assert("rb"@[0] != "gz"@[0]);
        assert(e != "gz"@);
        assert("rb"@[0] != "xz"@[0]);
        assert(e != "xz"@);
    } else if e == "php"@ {
        assert("php"@[1] != "pdf"@[1]);
        assert(e != "pdf"@);
        assert("php"@[0] != "doc"@[0]);
        assert(e != "doc"@);
        assert("php"@[0] != "txt"@[0]);
        assert(e != "txt"@);
        assert("php"@[0] != "rtf"@[0]);
        assert(e != "rtf"@);
        assert("php"@[0] != "odt"@[0]);
        assert(e != "odt"@);
        assert("php"@[1] != "png"@[1]);
        assert(e != "png"@);
        assert("php"@[0] != "jpg"@[0]);
        assert(e != "jpg"@);
        assert("php"@[0] != "gif"@[0]);
        assert(e != "gif"@);
        assert("php"@[0] != "bmp"@[0]);
        assert(e != "bmp"@);
        assert("php"@[0] != "svg"@[0]);
        assert(e != "svg"@);
        assert("php"@[0] != "ico"@[0]);
        assert(e != "ico"@);
        assert("php"@[0] != "mp4"@[0]);
        assert(e != "mp4"@);
        assert("php"@[0] != "mkv"@[0]);
        assert(e != "mkv"@);
        assert("php"@[0] != "avi"@[0]);
        assert(e != "avi"@);
        assert("php"@[0] != "mov"@[0]);
        assert(e != "mov"@);
        assert("php"@[0] != "wmv"@[0]);
        assert(e != "wmv"@);
        assert("php"@[0] != "flv"@[0]);
        assert(e != "flv"@);
        assert("php"@[0] != "mp3"@[0]);
        assert(e != "mp3"@);
        assert("php"@[0] != "wav"@[0]);
        assert(e != "wav"@);
        assert("php"@[0] != "aac"@[0]);
        assert(e != "aac"@);
        assert("php"@[0] != "ogg"@[0]);
        assert(e != "ogg"@);
        assert("php"@[0] != "wma"@[0]);
        assert(e != "wma"@);
        assert("php"@[0] != "m4a"@[0]);
        assert(e != "m4a"@);
        assert("php"@[0] != "zip"@[0]);
        assert(e != "zip"@);
        assert("php"@[0] != "rar"@[0]);
        assert(e != "rar"@);
        assert("php"@[0] != "tar"@[0]);
        assert(e != "tar"@);
        assert("php"@[0] != "bz2"@[0]);
        assert(e != "bz2"@);
    } else if e == "swift"@ {
    } else if e == "kt"@ {
        assert("kt"@[0] != "md"@[0]);
        assert(e != "md"@);
        assert("kt"@[0] != "7z"@[0]);
        assert(e != "7z"@);
        assert("kt"@[0] != "gz"@[0]);
        assert(e != "gz"@);
        assert("kt"@[0] != "xz"@[0]);
        assert(e != "xz"@);
    } else if e == "scala"@ {
    } else if e == "html"@ {
        assert("html"@[0] != "docx"@[0]);
        assert(e != "docx"@);
        assert("html"@[0] != "jpeg"@[0]);
        assert(e != "jpeg"@);
        assert("html"@[0] != "webp"@[0]);
        assert(e != "webp"@);
        assert("html"@[0] != "webm"@[0]);
        assert(e != "webm"@);
        assert("html"@[0] != "flac"@[0]);
        assert(e != "flac"@);
    } else if e == "css"@ {
        assert("css"@[0] != "pdf"@[0]);
        assert(e != "pdf"@);
        assert("css"@[0] != "doc"@[0]);
        assert(e != "doc"@);
        assert("css"@[0] != "txt"@[0]);
        assert(e != "txt"@);
        assert("css"@[0] != "rtf"@[0]);
        assert(e != "rtf"@);
        assert("css"@[0] != "odt"@[0]);
        assert(e != "odt"@);
        assert("css"@[0] != "png"@[0]);
        assert(e != "png"@);
        assert("css"@[0] != "jpg"@[0]);
        assert(e != "jpg"@);
        assert("css"@[0] != "gif"@[0]);
        assert(e != "gif"@);
        assert("css"@[0] != "bmp"@[0]);
        assert(e != "bmp"@);
        assert("css"@[0] != "svg"@[0]);
        assert(e != "svg"@);
        assert("css"@[0] != "ico"@[0]);
        assert(e != "ico"@);
        assert("css"@[0] != "mp4"@[0]);
        assert(e != "mp4"@);
        assert("css"@[0] != "mkv"@[0]);
        assert(e != "mkv"@);
        assert("css"@[0] != "avi"@[0]);
        assert(e != "avi"@);
        assert("css"@[0] != "mov"@[0]);
        assert(e != "mov"@);
        assert("css"@[0] != "wmv"@[0]);
        assert(e != "wmv"@);
        assert("css"@[0] != "flv"@[0]);
        assert(e != "flv"@);
        assert("css"@[0] != "mp3"@[0]);
        assert(e != "mp3"@);
        assert("css"@[0] != "wav"@[0]);
        assert(e != "wav"@);
        assert("css"@[0] != "aac"@[0]);
        assert(e != "aac"@);
        assert("css"@[0] != "ogg"@[0]);
        assert(e != "ogg"@);
        assert("css"@[0] != "wma"@[0]);
        assert(e != "wma"@);
        assert("css"@[0] != "m4a"@[0]);
        assert(e != "m4a"@);
        assert("css"@[0] != "zip"@[0]);
        assert(e != "zip"@);
        assert("css"@[0] != "rar"@[0]);
        assert(e != "rar"@);
        assert("css"@[0] != "tar"@[0]);
        assert(e != "tar"@);
        assert("css"@[0] != "bz2"@[0]);
        assert(e != "bz2"@);
    } else if e == "json"@ {
        assert("json"@[0] != "docx"@[0]);
        assert(e != "docx"@);
        assert("json"@[1] != "jpeg"@[1]);
        assert(e != "jpeg"@);
        assert("json"@[0] != "webp"@[0]);
        assert(e != "webp"@);
        assert("json"@[0] != "webm"@[0]);
        assert(e != "webm"@);
        assert("json"@[0] != "flac"@[0]);
        assert(e != "flac"@);
    } else if e == "yaml"@ {
        assert("yaml"@[0] != "docx"@[0]);
        assert(e != "docx"@);
        assert("yaml"@[0] != "jpeg"@[0]);
        assert(e != "jpeg"@);
        assert("yaml"@[0] != "webp"@[0]);
        assert(e != "webp"@);
        assert("yaml"@[0] != "webm"@[0]);
        assert(e != "webm"@);
        assert("yaml"@[0] != "flac"@[0]);
        assert(e != "flac"@);
    } else if e == "toml"@ {
        assert("toml"@[0] != "docx"@[0]);
        assert(e != "docx"@);
        assert("toml"@[0] != "jpeg"@[0]);
        assert(e != "jpeg"@);
        assert("toml"@[0] != "webp"@[0]);
        assert(e != "webp"@);
        assert("toml"@[0] != "webm"@[0]);
        assert(e != "webm"@);
        assert("toml"@[0] != "flac"@[0]);
        assert(e != "flac"@);
    } else if e == "xml"@ {
        assert("xml"@[0] != "pdf"@[0]);
        assert(e != "pdf"@);
        assert("xml"@[0] != "doc"@[0]);
        assert(e != "doc"@);
        assert("xml"@[0] != "txt"@[0]);
        assert(e != "txt"@);
        assert("xml"@[0] != "rtf"@[0]);
        assert(e != "rtf"@);
        assert("xml"@[0] != "odt"@[0]);
        assert(e != "odt"@);
        assert("xml"@[0] != "png"@[0]);
        assert(e != "png"@);
        assert("xml"@[0] != "jpg"@[0]);
        assert(e != "jpg"@);
        assert("xml"@[0] != "gif"@[0]);
        assert(e != "gif"@);
        assert("xml"@[0] != "bmp"@[0]);
        assert(e != "bmp"@);
        assert("xml"@[0] != "svg"@[0]);
        assert(e != "svg"@);
        assert("xml"@[0] != "ico"@[0]);
        assert(e != "ico"@);
        assert("xml"@[0] != "mp4"@[0]);
        assert(e != "mp4"@);
        assert("xml"@[0] != "mkv"@[0]);
        assert(e != "mkv"@);
        assert("xml"@[0] != "avi"@[0]);
        assert(e != "avi"@);
        assert("xml"@[0] != "mov"@[0]);
        assert(e != "mov"@);
        assert("xml"@[0] != "wmv"@[0]);
        assert(e != "wmv"@);
        assert("xml"@[0] != "flv"@[0]);
        assert(e != "flv"@);
        assert("xml"@[0] != "mp3"@[0]);
        assert(e != "mp3"@);
        assert("xml"@[0] != "wav"@[0]);
        assert(e != "wav"@);
        assert("xml"@[0] != "aac"@[0]);
        assert(e != "aac"@);
        assert("xml"@[0] != "ogg"@[0]);
        assert(e != "ogg"@);
        assert("xml"@[0] != "wma"@[0]);
        assert(e != "wma"@);
        assert("xml"@[0] != "m4a"@[0]);
        assert(e != "m4a"@);
        assert("xml"@[0] != "zip"@[0]);
        assert(e != "zip"@);
        assert("xml"@[0] != "rar"@[0]);
        assert(e != "rar"@);
        assert("xml"@[0] != "tar"@[0]);
        assert(e != "tar"@);
        assert("xml"@[0] != "bz2"@[0]);
        assert(e != "bz2"@);
    } else if e == "sh"@ {
        assert("sh"@[0] != "md"@[0]);
        assert(e != "md"@);
        assert("sh"@[0] != "7z"@[0]);
        assert(e != "7z"@);
        assert("sh"@[0] != "gz"@[0]);
        assert(e != "gz"@);
        assert("sh"@[0] != "xz"@[0]);
        assert(e != "xz"@);
    }
}

/// Any extension outside the table gives `Other`, and no extension gives
/// `Folder`: only a directory is a folder.
pub proof fn law_unlisted_extensions_are_other(e: Seq<char>)
    ensures
        !(
            e == "pdf"@
            || e == "doc"@
            || e == "docx"@
            || e == "txt"@
            || e == "md"@
            || e == "rtf"@
            || e == "odt"@
            || e == "png"@
            || e == "jpg"@
            || e == "jpeg"@
            || e == "gif"@
            || e == "bmp"@
            || e == "svg"@
            || e == "webp"@
            || e == "ico"@
            || e == "mp4"@
            || e == "mkv"@
            || e == "avi"@
            || e == "mov"@
            || e == "wmv"@
            || e == "flv"@
            || e == "webm"@
            || e == "mp3"@
            || e == "wav"@
            || e == "flac"@
            || e == "aac"@
            || e == "ogg"@
            || e == "wma"@
            || e == "m4a"@
            || e == "zip"@
            || e == "rar"@
            || e == "7z"@
            || e == "tar"@
            || e == "gz"@
            || e == "bz2"@
            || e == "xz"@
            || e == "rs"@
            || e == "py"@
            || e == "js"@
            || e == "ts"@
            || e == "java"@
            || e == "c"@
            || e == "cpp"@
            || e == "h"@
            || e == "go"@
            || e == "rb"@
            || e == "php"@
            || e == "swift"@
            || e == "kt"@
            || e == "scala"@
            || e == "html"@
            || e == "css"@
            || e == "json"@
            || e == "yaml"@
            || e == "toml"@
            || e == "xml"@
            || e == "sh"@
        ) ==> spec_kind_of_extension(e) == ItemType::Other,
        spec_kind_of_extension(e) != ItemType::Folder,
{
}

/// A directory is a folder whatever its extension, and a file is never a
/// folder.
pub proof fn law_only_directories_are_folders(ext: Seq<char>, is_dir: bool)
    ensures
        spec_from_extension(ext, true) == ItemType::Folder,
        spec_from_ascii_extension(ext, true) == ItemType::Folder,
        spec_from_extension(ext, false) != ItemType::Folder,
        spec_from_ascii_extension(ext, false) != ItemType::Folder,
{
    law_unlisted_extensions_are_other(lowercased(ext));
    law_unlisted_extensions_are_other(ascii_lower(ext));
}

} // verus!
