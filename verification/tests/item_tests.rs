use scrap::item::{ColorName, ItemType};

const ALL: [ItemType; 8] = [
    ItemType::Document,
    ItemType::Image,
    ItemType::Video,
    ItemType::Audio,
    ItemType::Archive,
    ItemType::Code,
    ItemType::Folder,
    ItemType::Other,
];

#[test]
fn labels_of_every_kind() {
    assert_eq!(ItemType::Folder.label(), "Folders");
    assert_eq!(ItemType::Code.label(), "Code");
    assert_eq!(ItemType::Document.label(), "Docs");
    assert_eq!(ItemType::Image.label(), "Images");
    assert_eq!(ItemType::Video.label(), "Video");
    assert_eq!(ItemType::Audio.label(), "Audio");
    assert_eq!(ItemType::Archive.label(), "Archives");
    assert_eq!(ItemType::Other.label(), "Other");
}

#[test]
fn icons_of_every_kind() {
    assert_eq!(ItemType::Folder.icon(), "\u{f024b} ");
    assert_eq!(ItemType::Code.icon(), "\u{f0169} ");
    assert_eq!(ItemType::Document.icon(), "\u{f0219} ");
    assert_eq!(ItemType::Image.icon(), "\u{f021f} ");
    assert_eq!(ItemType::Video.icon(), "\u{f022b} ");
    assert_eq!(ItemType::Audio.icon(), "\u{f0223} ");
    assert_eq!(ItemType::Archive.icon(), "\u{f0ffa} ");
    assert_eq!(ItemType::Other.icon(), "\u{f021a} ");
}

#[test]
fn colors_of_every_kind() {
    assert_eq!(ItemType::Folder.color(), ColorName::Accent);
    assert_eq!(ItemType::Code.color(), ColorName::Green);
    assert_eq!(ItemType::Document.color(), ColorName::Cyan);
    assert_eq!(ItemType::Image.color(), ColorName::Yellow);
    assert_eq!(ItemType::Video.color(), ColorName::Purple);
    assert_eq!(ItemType::Audio.color(), ColorName::Pink);
    assert_eq!(ItemType::Archive.color(), ColorName::Orange);
    assert_eq!(ItemType::Other.color(), ColorName::TextDim);
}

#[test]
fn extensions_by_kind() {
    for e in ["pdf", "doc", "docx", "txt", "md", "rtf", "odt"] {
        assert_eq!(ItemType::from_extension(e, false), ItemType::Document, "{}", e);
    }
    for e in ["png", "jpg", "jpeg", "gif", "bmp", "svg", "webp", "ico"] {
        assert_eq!(ItemType::from_extension(e, false), ItemType::Image, "{}", e);
    }
    for e in ["mp4", "mkv", "avi", "mov", "wmv", "flv", "webm"] {
        assert_eq!(ItemType::from_extension(e, false), ItemType::Video, "{}", e);
    }
    for e in ["mp3", "wav", "flac", "aac", "ogg", "wma", "m4a"] {
        assert_eq!(ItemType::from_extension(e, false), ItemType::Audio, "{}", e);
    }
    for e in ["zip", "rar", "7z", "tar", "gz", "bz2", "xz"] {
        assert_eq!(ItemType::from_extension(e, false), ItemType::Archive, "{}", e);
    }
    for e in [
        "rs", "py", "js", "ts", "java", "c", "cpp", "h", "go", "rb", "php", "swift", "kt", "scala",
        "html", "css", "json", "yaml", "toml", "xml", "sh",
    ] {
        assert_eq!(ItemType::from_extension(e, false), ItemType::Code, "{}", e);
    }
}

#[test]
fn unknown_and_missing_extensions_are_other() {
    assert_eq!(ItemType::from_extension("", false), ItemType::Other);
    assert_eq!(ItemType::from_extension("exe", false), ItemType::Other);
    assert_eq!(ItemType::from_extension("pd", false), ItemType::Other);
    assert_eq!(ItemType::from_extension("pdfx", false), ItemType::Other);
}

#[test]
fn extension_case_does_not_matter() {
    assert_eq!(ItemType::from_extension("PDF", false), ItemType::Document);
    assert_eq!(ItemType::from_extension("Jpeg", false), ItemType::Image);
    assert_eq!(ItemType::from_extension("MKV", false), ItemType::Video);
    assert_eq!(ItemType::from_extension("RS", false), ItemType::Code);
}

#[test]
fn lowercase_extension_table_takes_the_text_as_given() {
    assert_eq!(ItemType::from_lowercase_extension("pdf"), ItemType::Document);
    assert_eq!(ItemType::from_lowercase_extension("PDF"), ItemType::Other);
}

#[test]
fn directories_are_folders_whatever_their_extension() {
    assert_eq!(ItemType::from_extension("pdf", true), ItemType::Folder);
    assert_eq!(ItemType::from_extension("", true), ItemType::Folder);
    assert_eq!(ItemType::from_extension("zip", true), ItemType::Folder);
}

#[test]
fn slots_are_distinct_and_in_range() {
    for (i, a) in ALL.iter().enumerate() {
        assert_eq!(a.slot(), i);
        for b in ALL.iter() {
            assert_eq!(a.slot() == b.slot(), a == b);
        }
    }
}

#[test]
fn extension_case_law_on_examples() {
    for e in ["pdf", "Mp4", "tOmL", "xyz", "7Z"] {
        let k = ItemType::from_extension(e, false);
        assert_eq!(ItemType::from_extension(&e.to_ascii_uppercase(), false), k);
        assert_eq!(ItemType::from_extension(&e.to_ascii_lowercase(), false), k);
    }
}
