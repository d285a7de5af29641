use nekoshare_transport::listing::{
    entry_order_of, file_type_of, natural_order_of, natural_order_of_names, FileError,
    NaturalOrder,
};
use nekoshare_transport::search::{paginate, Page, MAX_PAGE_SIZE};

fn order(a: &str, b: &str) -> NaturalOrder {
    natural_order_of_names(a, b)
}

#[test]
fn numbers_in_names_are_read_as_numbers() {
    assert_eq!(order("file2", "file10"), NaturalOrder::Less);
    assert_eq!(order("file10", "file2"), NaturalOrder::Greater);
    assert_eq!(order("file10", "file10"), NaturalOrder::Equal);
    assert_eq!(order("10", "9"), NaturalOrder::Greater);
    assert_eq!(order("007", "7"), NaturalOrder::Equal);
    assert_eq!(order("a007b", "a7c"), NaturalOrder::Less);
    assert_eq!(order("v1.2.10", "v1.2.9"), NaturalOrder::Greater);
    assert_eq!(order("0", "00"), NaturalOrder::Equal);
}

#[test]
fn names_are_compared_without_regard_to_case() {
    assert_eq!(order("File2", "file2"), NaturalOrder::Equal);
    assert_eq!(order("ALPHA", "beta"), NaturalOrder::Less);
    assert_eq!(order("beta", "ALPHA"), NaturalOrder::Greater);
    assert_eq!(order("\u{c9}t\u{e9}", "\u{e9}T\u{c9}"), NaturalOrder::Equal);
}

#[test]
fn text_is_compared_as_in_the_dictionary() {
    assert_eq!(order("abc", "abd"), NaturalOrder::Less);
    assert_eq!(order("abc", "ab"), NaturalOrder::Greater);
    assert_eq!(order("", ""), NaturalOrder::Equal);
    assert_eq!(order("", "a"), NaturalOrder::Less);
    assert_eq!(order("a", ""), NaturalOrder::Greater);
    assert_eq!(order("a", "a1"), NaturalOrder::Less);
    assert_eq!(order("z", "\u{e9}"), NaturalOrder::Less);
}

#[test]
fn a_number_comes_before_text() {
    assert_eq!(order("1", "a"), NaturalOrder::Less);
    assert_eq!(order("a", "1"), NaturalOrder::Greater);
    assert_eq!(order("a1", "ab"), NaturalOrder::Less);
    assert_eq!(order("x9z", "x-z"), NaturalOrder::Less);
}

#[test]
fn a_number_too_large_counts_as_nothing() {
    assert_eq!(order("18446744073709551615", "18446744073709551614"), NaturalOrder::Greater);
    assert_eq!(order("18446744073709551616", "5"), NaturalOrder::Less);
    assert_eq!(order("18446744073709551616", "0"), NaturalOrder::Equal);
    assert_eq!(order("99999999999999999999999999", "1"), NaturalOrder::Less);
}

#[test]
fn the_order_on_bytes() {
    assert_eq!(natural_order_of(b"a2", b"a10"), NaturalOrder::Less);
    assert_eq!(natural_order_of(b"", b""), NaturalOrder::Equal);
    // Upper case is not folded here: that is done beforehand.
    assert_eq!(natural_order_of(b"B", b"a"), NaturalOrder::Less);
}

#[test]
fn directories_come_first() {
    assert_eq!(entry_order_of(true, b"z", false, b"a"), NaturalOrder::Less);
    assert_eq!(entry_order_of(false, b"a", true, b"z"), NaturalOrder::Greater);
    assert_eq!(entry_order_of(true, b"b2", true, b"b10"), NaturalOrder::Less);
    assert_eq!(entry_order_of(false, b"b2", false, b"b10"), NaturalOrder::Less);
    assert_eq!(entry_order_of(false, b"b", false, b"b"), NaturalOrder::Equal);
}

#[test]
fn kinds_of_files() {
    assert_eq!(file_type_of(Some("pdf"), true), "folder");
    assert_eq!(file_type_of(None, true), "folder");
    assert_eq!(file_type_of(None, false), "file");
    assert_eq!(file_type_of(Some(""), false), "file");
    assert_eq!(file_type_of(Some("unknown"), false), "file");
    assert_eq!(file_type_of(Some("PDF"), false), "file");
    let cases = [
        ("pdf", "pdf"),
        ("doc", "document"),
        ("docx", "document"),
        ("txt", "document"),
        ("md", "document"),
        ("rtf", "document"),
        ("odt", "document"),
        ("jpg", "image"),
        ("jpeg", "image"),
        ("png", "image"),
        ("gif", "image"),
        ("webp", "image"),
        ("svg", "image"),
        ("bmp", "image"),
        ("ico", "image"),
        ("mp4", "video"),
        ("mov", "video"),
        ("mkv", "video"),
        ("avi", "video"),
        ("wmv", "video"),
        ("flv", "video"),
        ("webm", "video"),
        ("mp3", "audio"),
        ("wav", "audio"),
        ("flac", "audio"),
        ("aac", "audio"),
        ("ogg", "audio"),
        ("m4a", "audio"),
        ("zip", "archive"),
        ("rar", "archive"),
        ("7z", "archive"),
        ("tar", "archive"),
        ("gz", "archive"),
        ("bz2", "archive"),
        ("xz", "archive"),
        ("js", "code"),
        ("ts", "code"),
        ("jsx", "code"),
        ("tsx", "code"),
        ("rs", "code"),
        ("py", "code"),
        ("go", "code"),
        ("java", "code"),
        ("c", "code"),
        ("cpp", "code"),
        ("h", "code"),
        ("hpp", "code"),
        ("html", "code"),
        ("css", "code"),
        ("scss", "code"),
        ("json", "code"),
        ("yaml", "code"),
        ("toml", "code"),
        ("xml", "code"),
        ("exe", "executable"),
        ("msi", "executable"),
        ("dmg", "executable"),
        ("app", "executable"),
        ("deb", "executable"),
        ("rpm", "executable"),
        ("xls", "spreadsheet"),
        ("xlsx", "spreadsheet"),
        ("csv", "spreadsheet"),
        ("ppt", "presentation"),
        ("pptx", "presentation"),
        ("key", "presentation"),
    ];
    for (extension, kind) in cases {
        assert_eq!(file_type_of(Some(extension), false), kind);
    }
}

#[test]
fn listing_error_messages() {
    assert_eq!(FileError::DirectoryNotFound("/x".into()).message(), "Directory not found: /x");
    assert_eq!(FileError::ReadError("r".into()).message(), "Failed to read directory: r");
    assert_eq!(FileError::MetadataError("m".into()).message(), "Failed to read file metadata: m");
    assert_eq!(FileError::FileNotFound("f".into()).message(), "File not found: f");
    assert_eq!(FileError::DeleteError("d".into()).message(), "Failed to delete: d");
}

#[test]
fn pages_of_a_list() {
    assert_eq!(
        paginate(25, 0, 10),
        Page { page: 0, page_size: 10, total_pages: 3, start: 0, end: 10 }
    );
    assert_eq!(
        paginate(25, 2, 10),
        Page { page: 2, page_size: 10, total_pages: 3, start: 20, end: 25 }
    );
    assert_eq!(
        paginate(30, 2, 10),
        Page { page: 2, page_size: 10, total_pages: 3, start: 20, end: 30 }
    );
    assert_eq!(MAX_PAGE_SIZE, 1000);
}

#[test]
fn a_page_beyond_the_list_is_the_last_page() {
    assert_eq!(
        paginate(25, 7, 10),
        Page { page: 2, page_size: 10, total_pages: 3, start: 20, end: 25 }
    );
    assert_eq!(
        paginate(25, usize::MAX, 10),
        Page { page: 2, page_size: 10, total_pages: 3, start: 20, end: 25 }
    );
}

#[test]
fn the_page_size_is_kept_within_bounds() {
    assert_eq!(paginate(5, 3, 0), Page { page: 3, page_size: 1, total_pages: 5, start: 3, end: 4 });
    assert_eq!(
        paginate(2500, 1, 5000),
        Page { page: 1, page_size: 1000, total_pages: 3, start: 1000, end: 2000 }
    );
    assert_eq!(
        paginate(usize::MAX, 0, 1),
        Page { page: 0, page_size: 1, total_pages: usize::MAX, start: 0, end: 1 }
    );
    let last = paginate(usize::MAX, usize::MAX, 1000);
    assert_eq!(last.end, usize::MAX);
    assert!(last.start < last.end);
}

#[test]
fn an_empty_list_has_no_pages() {
    assert_eq!(paginate(0, 0, 10), Page { page: 0, page_size: 10, total_pages: 0, start: 0, end: 0 });
    assert_eq!(paginate(0, 4, 0), Page { page: 0, page_size: 1, total_pages: 0, start: 0, end: 0 });
}
