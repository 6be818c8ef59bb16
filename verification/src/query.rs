//! The query language of the browser: `delete all`, and `delete <type>` where
//! the type is one of the words of `spec_kind_of_word`. Case and surrounding
//! whitespace do not matter.
use vstd::prelude::*;
use crate::app::App;
use crate::item::{ItemType, spec_label};
use crate::text::{
    ascii_lower, ascii_upper, lemma_ascii_lower_ignores_case, lemma_ascii_upper_ascii,
    lemma_trimmed_ascii, lemma_trimmed_ascii_upper, lowercased, trim_end, trim_start, starts_with, str_eq, trimmed,
};
use vstd::utf8::is_ascii_chars;

verus! {

/// What a query asks for.
#[derive(Debug, Clone, Copy, PartialEq, Eq, Structural)]
pub enum QueryCommand {
    DeleteAll,
    DeleteByType(ItemType),
    Invalid,
    Empty,
}

/// Whether the command asks for a deletion, and so may be run.
pub open spec fn is_deletion(c: QueryCommand) -> bool {
    c is DeleteAll || c is DeleteByType
}

/// The kind that a word, already trimmed and in lowercase, names.
pub open spec fn spec_kind_of_word(w: Seq<char>) -> Option<ItemType> {
    if w == "folders"@ || w == "folder"@ {
        Some(ItemType::Folder)
    } else if w == "code"@ {
        Some(ItemType::Code)
    } else if w == "docs"@ || w == "documents"@ || w == "document"@ {
        Some(ItemType::Document)
    } else if w == "images"@ || w == "image"@ {
        Some(ItemType::Image)
    } else if w == "video"@ || w == "videos"@ {
        Some(ItemType::Video)
    } else if w == "audio"@ {
        Some(ItemType::Audio)
    } else if w == "archives"@ || w == "archive"@ {
        Some(ItemType::Archive)
    } else if w == "other"@ {
        Some(ItemType::Other)
    } else {
        None
    }
}

/// The kind that a word names, whatever its case and surrounding whitespace.
pub open spec fn spec_parse_item_type(s: Seq<char>) -> Option<ItemType> {
    spec_kind_of_word(lowercased(trimmed(s)))
}

/// The kind that an ASCII word names, whatever its case and surrounding
/// whitespace.
pub open spec fn spec_parse_ascii_item_type(s: Seq<char>) -> Option<ItemType> {
    spec_kind_of_word(ascii_lower(trimmed(s)))
}

/// The word that starts a deletion by kind.
pub open spec fn delete_prefix() -> Seq<char> {
    "delete "@
}

/// Whether the query starts with the word of a deletion by kind.
pub open spec fn has_delete_prefix(q: Seq<char>) -> bool {
    delete_prefix().len() <= q.len() && q.subrange(0, delete_prefix().len() as int) == delete_prefix()
}

/// What follows the word of a deletion by kind.
pub open spec fn after_delete_prefix(q: Seq<char>) -> Seq<char> {
    q.subrange(delete_prefix().len() as int, q.len() as int)
}

/// The command that a query, already trimmed and in lowercase, stands for,
/// given the kind that what follows `delete ` names.
pub open spec fn classify_by(q: Seq<char>, kind_after_prefix: Option<ItemType>) -> QueryCommand {
    if q.len() == 0 {
        QueryCommand::Empty
    } else if q == "delete all"@ {
        QueryCommand::DeleteAll
    } else if has_delete_prefix(q) {
        match kind_after_prefix {
            Some(t) => QueryCommand::DeleteByType(t),
            None => QueryCommand::Invalid,
        }
    } else {
        QueryCommand::Invalid
    }
}

/// The command that a query, already trimmed and in lowercase, stands for.
pub open spec fn spec_classify(q: Seq<char>) -> QueryCommand {
    classify_by(q, spec_parse_item_type(after_delete_prefix(q)))
}

/// The command that an ASCII query, already trimmed and in lowercase, stands
/// for.
pub open spec fn spec_classify_ascii(q: Seq<char>) -> QueryCommand {
    classify_by(q, spec_parse_ascii_item_type(after_delete_prefix(q)))
}

/// The command that the text typed in the query box stands for; an empty
/// box holds no command.
pub open spec fn spec_command(query: Seq<char>) -> QueryCommand {
    if query.len() == 0 {
        QueryCommand::Empty
    } else {
        spec_classify(lowercased(trimmed(query)))
    }
}

/// The command that an ASCII text typed in the query box stands for.
pub open spec fn spec_command_ascii(query: Seq<char>) -> QueryCommand {
    if query.len() == 0 {
        QueryCommand::Empty
    } else {
        spec_classify_ascii(ascii_lower(trimmed(query)))
    }
}

/// The kind that a word, already trimmed and in lowercase, names.
pub fn item_type_from_word(w: &str) -> (r: Option<ItemType>)
    ensures
        r == spec_kind_of_word(w@),
{
    if str_eq(w, "folders") || str_eq(w, "folder") {
        Some(ItemType::Folder)
    } else if str_eq(w, "code") {
        Some(ItemType::Code)
    } else if str_eq(w, "docs") || str_eq(w, "documents") || str_eq(w, "document") {
        Some(ItemType::Document)
    } else if str_eq(w, "images") || str_eq(w, "image") {
        Some(ItemType::Image)
    } else if str_eq(w, "video") || str_eq(w, "videos") {
        Some(ItemType::Video)
    } else if str_eq(w, "audio") {
        Some(ItemType::Audio)
    } else if str_eq(w, "archives") || str_eq(w, "archive") {
        Some(ItemType::Archive)
    } else if str_eq(w, "other") {
        Some(ItemType::Other)
    } else {
        None
    }
}

/// The command that a query, already trimmed and in lowercase, stands for.
pub fn classify_query(q: &str) -> (r: QueryCommand)
    ensures
        r == spec_classify(q@),
        is_ascii_chars(q@) ==> r == spec_classify_ascii(q@),
{
    if q.is_empty() {
        return QueryCommand::Empty;
    }
    if str_eq(q, "delete all") {
        return QueryCommand::DeleteAll;
    }
    let prefix = "delete ";
    if starts_with(q, prefix) {
        let rest = q.substring_char(prefix.unicode_len(), q.unicode_len());
        proof {
            if is_ascii_chars(q@) {
                assert forall|i: int| 0 <= i < rest@.len() implies '\0' <= #[trigger] rest@[i] <= '\u{7f}' by {
                    assert(rest@[i] == q@[i + delete_prefix().len()]);
                }
            }
        }
        if let Some(item_type) = App::parse_item_type(rest) {
            return QueryCommand::DeleteByType(item_type);
        }
    }
    QueryCommand::Invalid
}

/// For an ASCII query, the letter case does not matter: the query in
/// uppercase stands for the same command.
pub proof fn law_query_case_ignored(q: Seq<char>)
    requires
        is_ascii_chars(q),
    ensures
        is_ascii_chars(ascii_upper(q)),
        spec_command_ascii(ascii_upper(q)) == spec_command_ascii(q),
{
    lemma_ascii_upper_ascii(q);
    lemma_trimmed_ascii_upper(q);
    lemma_ascii_lower_ignores_case(trimmed(q));
}

/// The title of every tab, as shown or in uppercase, names its own kind in a
/// query.
pub proof fn law_labels_parse_back(t: ItemType)
    ensures
        is_ascii_chars(spec_label(t)),
        is_ascii_chars(ascii_upper(spec_label(t))),
        spec_parse_ascii_item_type(spec_label(t)) == Some(t),
        spec_parse_ascii_item_type(ascii_upper(spec_label(t))) == Some(t),
{
    reveal_strlit("Folders");
    reveal_strlit("Code");
    reveal_strlit("Docs");
    reveal_strlit("Images");
    reveal_strlit("Video");
    reveal_strlit("Audio");
    reveal_strlit("Archives");
    reveal_strlit("Other");
    reveal_strlit("folders");
    reveal_strlit("folder");
    reveal_strlit("code");
    reveal_strlit("docs");
    reveal_strlit("documents");
    reveal_strlit("document");
    reveal_strlit("images");
    reveal_strlit("image");
    reveal_strlit("video");
    reveal_strlit("videos");
    reveal_strlit("audio");
    reveal_strlit("archives");
    reveal_strlit("archive");
    reveal_strlit("other");
    let l = spec_label(t);
    assert(trim_start(l) == l);
    assert(trim_end(l) == l);
    assert(trimmed(l) == l);
    let w = ascii_lower(l);
    match t {
        ItemType::Folder => {
            assert(w =~= "folders"@);
            assert(spec_kind_of_word("folders"@) == Some(ItemType::Folder));
        },
        ItemType::Code => {
            assert(w =~= "code"@);
            assert(spec_kind_of_word("code"@) == Some(ItemType::Code));
        },
        ItemType::Document => {
            assert(w =~= "docs"@);
            assert("docs"@[0] != "code"@[0]);
            assert(spec_kind_of_word("docs"@) == Some(ItemType::Document));
        },
        ItemType::Image => {
            assert(w =~= "images"@);
            assert("images"@[0] != "folder"@[0]);
            assert(spec_kind_of_word("images"@) == Some(ItemType::Image));
        },
        ItemType::Video => {
            assert(w =~= "video"@);
            assert("video"@[0] != "image"@[0]);
            assert(spec_kind_of_word("video"@) == Some(ItemType::Video));
        },
        ItemType::Audio => {
            assert(w =~= "audio"@);
            assert("audio"@[0] != "image"@[0]);
            assert("audio"@[0] != "video"@[0]);
            assert(spec_kind_of_word("audio"@) == Some(ItemType::Audio));
        },
        ItemType::Archive => {
            assert(w =~= "archives"@);
            assert("archives"@[0] != "document"@[0]);
            assert(spec_kind_of_word("archives"@) == Some(ItemType::Archive));
        },
        ItemType::Other => {
            assert(w =~= "other"@);
            assert("other"@[0] != "image"@[0]);
            assert("other"@[0] != "video"@[0]);
            assert("other"@[0] != "audio"@[0]);
            assert(spec_kind_of_word("other"@) == Some(ItemType::Other));
        },
    }
    lemma_ascii_upper_ascii(l);
    lemma_trimmed_ascii_upper(l);
    lemma_ascii_lower_ignores_case(l);
}

/// A word of the language is a run of at least four of the letters 'a' to
/// 'z'.
proof fn lemma_kind_word_is_lowercase_letters(w: Seq<char>)
    requires
        spec_kind_of_word(w) is Some,
    ensures
        w.len() >= 4,
        forall|i: int| 0 <= i < w.len() ==> 'a' <= #[trigger] w[i] <= 'z',
{
    reveal_strlit("folders");
    reveal_strlit("folder");
    reveal_strlit("code");
    reveal_strlit("docs");
    reveal_strlit("documents");
    reveal_strlit("document");
    reveal_strlit("images");
    reveal_strlit("image");
    reveal_strlit("video");
    reveal_strlit("videos");
    reveal_strlit("audio");
    reveal_strlit("archives");
    reveal_strlit("archive");
    reveal_strlit("other");
}

/// A run of the letters 'a' to 'z' is ASCII and is left as it is by trimming
/// and by ASCII lowercasing.
proof fn lemma_lowercase_letters_are_normal(w: Seq<char>)
    requires
        w.len() > 0,
        forall|i: int| 0 <= i < w.len() ==> 'a' <= #[trigger] w[i] <= 'z',
    ensures
        is_ascii_chars(w),
        trimmed(w) == w,
        ascii_lower(w) == w,
{
    assert(w[0] == w[0]);
    assert(w[w.len() - 1] == w.last());
    assert(trim_start(w) == w);
    assert(trim_end(w) == w);
    assert(ascii_lower(w) =~= w);
}

/// `delete ` followed by a word that names a kind asks for the deletion of
/// exactly that kind (and the query is ASCII, so that the query functions go
/// by `spec_classify_ascii` and `spec_command_ascii` on it).
pub proof fn law_delete_word_names_its_kind(w: Seq<char>, t: ItemType)
    requires
        spec_kind_of_word(w) == Some(t),
    ensures
        is_ascii_chars(delete_prefix() + w),
        spec_classify_ascii(delete_prefix() + w) == QueryCommand::DeleteByType(t),
        spec_command_ascii(delete_prefix() + w) == QueryCommand::DeleteByType(t),
{
    reveal_strlit("delete ");
    reveal_strlit("delete all");
    reveal_strlit("all");
    lemma_kind_word_is_lowercase_letters(w);
    lemma_lowercase_letters_are_normal(w);
    let q = delete_prefix() + w;
    assert(q.subrange(0, delete_prefix().len() as int) =~= delete_prefix());
    assert(after_delete_prefix(q) =~= w);
    assert(is_ascii_chars(q)) by {
        assert forall|i: int| 0 <= i < q.len() implies '\0' <= #[trigger] q[i] <= '\u{7f}' by {
            if i >= delete_prefix().len() {
                assert(q[i] == w[i - delete_prefix().len()]);
            }
        }
    }
    if q == "delete all"@ {
        assert(w =~= "all"@);
        assert(w.len() == 3);
    }
    // the whole query is already trimmed and in lowercase
    assert(q[0] == 'd');
    assert(q[q.len() - 1] == w[w.len() - 1]);
    assert(q.last() == q[q.len() - 1]);
    assert(trim_start(q) == q);
    assert(trim_end(q) == q);
    assert forall|i: int| 0 <= i < q.len() implies ascii_lower(q)[i] == q[i] by {
        if i >= delete_prefix().len() {
            assert(q[i] == w[i - delete_prefix().len()]);
        }
    }
    assert(ascii_lower(q) =~= q);
}

/// `delete all` is the only text that asks for the deletion of everything.
pub proof fn law_delete_all_only_from_its_text(q: Seq<char>, kind_after_prefix: Option<ItemType>)
    ensures
        classify_by(q, kind_after_prefix) == QueryCommand::DeleteAll ==> q == "delete all"@,
        spec_classify(q) == QueryCommand::DeleteAll ==> q == "delete all"@,
        spec_classify_ascii(q) == QueryCommand::DeleteAll ==> q == "delete all"@,
{
}

/// The forms of a query, once trimmed and in lowercase: the empty text holds
/// no command, `delete all` deletes everything, text that neither is
/// `delete all` nor starts with `delete ` is invalid, and `delete ` followed
/// by anything that names no kind is invalid.
pub proof fn law_query_forms(q: Seq<char>)
    ensures
        spec_classify("delete all"@) == QueryCommand::DeleteAll,
        spec_classify_ascii("delete all"@) == QueryCommand::DeleteAll,
        spec_command(Seq::empty()) == QueryCommand::Empty,
        spec_command_ascii(Seq::empty()) == QueryCommand::Empty,
        q.len() == 0 ==> spec_classify(q) == QueryCommand::Empty && spec_classify_ascii(q)
            == QueryCommand::Empty,
        q.len() > 0 && q != "delete all"@ && !(q.len() >= "delete "@.len() && q.subrange(
            0,
            "delete "@.len() as int,
        ) == "delete "@) ==> spec_classify(q) == QueryCommand::Invalid && spec_classify_ascii(q)
            == QueryCommand::Invalid,
        q.len() > 0 && q != "delete all"@ && q.len() >= "delete "@.len() && q.subrange(
            0,
            "delete "@.len() as int,
        ) == "delete "@ && spec_parse_ascii_item_type(
            q.subrange("delete "@.len() as int, q.len() as int),
        ) is None ==> spec_classify_ascii(q) == QueryCommand::Invalid,
{
    reveal_strlit("delete all");
}

} // verus!
