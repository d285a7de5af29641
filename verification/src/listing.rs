//! The order and the kinds of the entries of a directory listing.

use vstd::prelude::*;
use vstd::string::StringExecFns;
use vstd::utf8::*;

verus! {

/// What can go wrong with a listing.
#[derive(Debug)]
pub enum FileError {
    DirectoryNotFound(String),
    ReadError(String),
    MetadataError(String),
    FileNotFound(String),
    DeleteError(String),
}

impl FileError {
    pub open spec fn message_text(self) -> Seq<char> {
        match self {
            FileError::DirectoryNotFound(m) => "Directory not found: "@ + m@,
            FileError::ReadError(m) => "Failed to read directory: "@ + m@,
            FileError::MetadataError(m) => "Failed to read file metadata: "@ + m@,
            FileError::FileNotFound(m) => "File not found: "@ + m@,
            FileError::DeleteError(m) => "Failed to delete: "@ + m@,
        }
    }

    /// The description of the error, as it is shown to a user.
    pub fn message(&self) -> (m: String)
        ensures
            m@ == self.message_text(),
    {
        match self {
            FileError::DirectoryNotFound(m) => crate::text::concat2(
                "Directory not found: ",
                m.as_str(),
            ),
            FileError::ReadError(m) => crate::text::concat2("Failed to read directory: ", m.as_str()),
            FileError::MetadataError(m) => crate::text::concat2(
                "Failed to read file metadata: ",
                m.as_str(),
            ),
            FileError::FileNotFound(m) => crate::text::concat2("File not found: ", m.as_str()),
            FileError::DeleteError(m) => crate::text::concat2("Failed to delete: ", m.as_str()),
        }
    }
}

/// How one name stands to another.
#[derive(Debug, Clone, Copy, PartialEq, Eq, Structural)]
pub enum NaturalOrder {
    Less,
    Equal,
    Greater,
}

/// An ASCII digit.
pub open spec fn is_digit(b: u8) -> bool {
    48 <= b && b <= 57
}

/// The length of the run at the head of the bytes: of digits if `digits`,
/// else of bytes that are no digits.
pub open spec fn run_len(s: Seq<u8>, digits: bool) -> nat
    decreases s.len(),
{
    if s.len() == 0 || is_digit(s[0]) != digits {
        0
    } else {
        1 + run_len(s.drop_first(), digits)
    }
}

/// The number that digits spell, however large.
pub open spec fn digits_value(s: Seq<u8>) -> nat
    decreases s.len(),
{
    if s.len() == 0 {
        0
    } else {
        digits_value(s.drop_last()) * 10 + (s.last() - 48) as nat
    }
}

/// The number that a run of digits stands for: what the digits spell, or 0
/// where that is more than 64 bits hold.
pub open spec fn number_of(s: Seq<u8>) -> u64 {
    if digits_value(s) > u64::MAX {
        0
    } else {
        digits_value(s) as u64
    }
}

/// The order of two runs of bytes in the dictionary: byte by byte, and the
/// shorter first where one begins the other.
pub open spec fn lex_order(a: Seq<u8>, b: Seq<u8>) -> NaturalOrder
    decreases a.len(),
{
    if a.len() == 0 && b.len() == 0 {
        NaturalOrder::Equal
    } else if a.len() == 0 {
        NaturalOrder::Less
    } else if b.len() == 0 {
        NaturalOrder::Greater
    } else if a[0] < b[0] {
        NaturalOrder::Less
    } else if a[0] > b[0] {
        NaturalOrder::Greater
    } else {
        lex_order(a.drop_first(), b.drop_first())
    }
}

/// The order of two numbers.
pub open spec fn number_order(x: u64, y: u64) -> NaturalOrder {
    if x < y {
        NaturalOrder::Less
    } else if x > y {
        NaturalOrder::Greater
    } else {
        NaturalOrder::Equal
    }
}

/// A run is no longer than the bytes it is taken from, takes in the first
/// byte if that is of its sort, and holds bytes of its sort only.
pub proof fn lemma_run_len(s: Seq<u8>, digits: bool)
    ensures
        run_len(s, digits) <= s.len(),
        s.len() > 0 && is_digit(s[0]) == digits ==> run_len(s, digits) >= 1,
        forall|k: int| 0 <= k < run_len(s, digits) ==> is_digit(#[trigger] s[k]) == digits,
    decreases s.len(),
{
    if s.len() > 0 && is_digit(s[0]) == digits {
        let tail = s.drop_first();
        lemma_run_len(tail, digits);
        assert forall|k: int| 0 <= k < run_len(s, digits) implies is_digit(#[trigger] s[k])
            == digits by {
            if k > 0 {
                assert(tail[k - 1] == s[k]);
            }
        }
    }
}

/// The natural order of two names, given as the bytes of their lower-case
/// forms. The names are cut into runs of digits and runs of other bytes and
/// compared run by run: two runs of digits as numbers, two other runs as in
/// the dictionary, and a run of digits comes before any other run. The name
/// that ends first comes first.
pub open spec fn natural_order(a: Seq<u8>, b: Seq<u8>) -> NaturalOrder
    decreases a.len(),
{
    if a.len() == 0 && b.len() == 0 {
        NaturalOrder::Equal
    } else if a.len() == 0 {
        NaturalOrder::Less
    } else if b.len() == 0 {
        NaturalOrder::Greater
    } else {
        let da = is_digit(a[0]);
        let db = is_digit(b[0]);
        let la = run_len(a, da) as int;
        let lb = run_len(b, db) as int;
        let first = if da && db {
            number_order(number_of(a.take(la)), number_of(b.take(lb)))
        } else if !da && !db {
            lex_order(a.take(la), b.take(lb))
        } else if da {
            NaturalOrder::Less
        } else {
            NaturalOrder::Greater
        };
        if first != NaturalOrder::Equal {
            first
        } else {
            proof {
                lemma_run_len(a, da);
            }
            natural_order(a.skip(la), b.skip(lb))
        }
    }
}

/// Where the run that begins at `start` ends.
fn run_end(s: &[u8], start: usize, digits: bool) -> (end: usize)
    requires
        start <= s@.len(),
    ensures
        start <= end <= s@.len(),
        end - start == run_len(s@.skip(start as int), digits),
{
    let n = s.len();
    let mut k: usize = start;
    while k < n && (48 <= s[k] && s[k] <= 57) == digits
        invariant
            start <= k <= n,
            n == s@.len(),
            run_len(s@.skip(start as int), digits) == (k - start) + run_len(
                s@.skip(k as int),
                digits,
            ),
        decreases n - k,
    {
        assert(s@.skip(k as int).drop_first() =~= s@.skip(k + 1));
        assert(s@.skip(k as int)[0] == s@[k as int]);
        k = k + 1;
    }
    proof {
        if k < n {
            assert(s@.skip(k as int)[0] == s@[k as int]);
        }
    }
    k
}

/// The number that the digits from `start` to `end` stand for.
fn parse_run(s: &[u8], start: usize, end: usize) -> (value: u64)
    requires
        start <= end <= s@.len(),
        forall|k: int| start <= k < end ==> is_digit(#[trigger] s@[k]),
    ensures
        value == number_of(s@.subrange(start as int, end as int)),
{
    let mut value: u64 = 0;
    let mut too_large = false;
    let mut k: usize = start;
    assert(s@.subrange(start as int, start as int) =~= Seq::<u8>::empty());
    while k < end
        invariant
            start <= k <= end <= s@.len(),
            forall|i: int| start <= i < end ==> is_digit(#[trigger] s@[i]),
            !too_large ==> value == digits_value(s@.subrange(start as int, k as int)),
            too_large ==> digits_value(s@.subrange(start as int, k as int)) > u64::MAX,
        decreases end - k,
    {
        let digit: u8 = s[k] - 48;
        proof {
            let next = s@.subrange(start as int, k + 1);
            assert(next.drop_last() =~= s@.subrange(start as int, k as int));
            assert(next.last() == s@[k as int]);
        }
        if !too_large {
            if value > (u64::MAX - digit as u64) / 10 {
                too_large = true;
                proof {
                    assert(value * 10 + digit > u64::MAX) by (nonlinear_arith)
                        requires
                            value > (u64::MAX - digit) / 10,
                            0 <= digit <= 9,
                    ;
                }
            } else {
                proof {
                    assert(value * 10 + digit <= u64::MAX) by (nonlinear_arith)
                        requires
                            value <= (u64::MAX - digit) / 10,
                            0 <= digit <= 9,
                    ;
                }
                value = value * 10 + digit as u64;
            }
        } else {
            proof {
                let before = digits_value(s@.subrange(start as int, k as int));
                assert(before * 10 + digit > u64::MAX) by (nonlinear_arith)
                    requires
                        before > u64::MAX,
                        digit >= 0,
                ;
            }
        }
        k = k + 1;
    }
    if too_large {
        0
    } else {
        value
    }
}

/// The dictionary order of two runs of bytes.
fn lex_compare(a: &[u8], a_start: usize, a_end: usize, b: &[u8], b_start: usize, b_end: usize)
    -> (order: NaturalOrder)
    requires
        a_start <= a_end <= a@.len(),
        b_start <= b_end <= b@.len(),
    ensures
        order == lex_order(
            a@.subrange(a_start as int, a_end as int),
            b@.subrange(b_start as int, b_end as int),
        ),
{
    let ghost run_a = a@.subrange(a_start as int, a_end as int);
    let ghost run_b = b@.subrange(b_start as int, b_end as int);
    let mut i: usize = a_start;
    let mut j: usize = b_start;
    assert(run_a.skip(0) =~= run_a);
    assert(run_b.skip(0) =~= run_b);
    loop
        invariant
            a_start <= i <= a_end <= a@.len(),
            b_start <= j <= b_end <= b@.len(),
            i - a_start == j - b_start,
            run_a == a@.subrange(a_start as int, a_end as int),
            run_b == b@.subrange(b_start as int, b_end as int),
            lex_order(run_a, run_b) == lex_order(run_a.skip(i - a_start), run_b.skip(j - b_start)),
        decreases a_end - i,
    {
        let ghost rest_a = run_a.skip(i - a_start);
        let ghost rest_b = run_b.skip(j - b_start);
        if i == a_end && j == b_end {
            return NaturalOrder::Equal;
        } else if i == a_end {
            return NaturalOrder::Less;
        } else if j == b_end {
            return NaturalOrder::Greater;
        }
        assert(rest_a[0] == a@[i as int]);
        assert(rest_b[0] == b@[j as int]);
        if a[i] < b[j] {
            return NaturalOrder::Less;
        } else if a[i] > b[j] {
            return NaturalOrder::Greater;
        }
        assert(rest_a.drop_first() =~= run_a.skip(i + 1 - a_start));
        assert(rest_b.drop_first() =~= run_b.skip(j + 1 - b_start));
        i = i + 1;
        j = j + 1;
    }
}

/// The natural order of two names that are given in lower case.
pub fn natural_order_of(a: &[u8], b: &[u8]) -> (order: NaturalOrder)
    ensures
        order == natural_order(a@, b@),
{
    let mut i: usize = 0;
    let mut j: usize = 0;
    assert(a@.skip(0) =~= a@);
    assert(b@.skip(0) =~= b@);
    loop
        invariant
            i <= a@.len(),
            j <= b@.len(),
            natural_order(a@, b@) == natural_order(a@.skip(i as int), b@.skip(j as int)),
        decreases a@.len() - i,
    {
        let ghost rest_a = a@.skip(i as int);
        let ghost rest_b = b@.skip(j as int);
        if i == a.len() && j == b.len() {
            return NaturalOrder::Equal;
        } else if i == a.len() {
            return NaturalOrder::Less;
        } else if j == b.len() {
            return NaturalOrder::Greater;
        }
        assert(rest_a[0] == a@[i as int]);
        assert(rest_b[0] == b@[j as int]);
        let da = 48 <= a[i] && a[i] <= 57;
        let db = 48 <= b[j] && b[j] <= 57;
        let a_end = run_end(a, i, da);
        let b_end = run_end(b, j, db);
        proof {
            lemma_run_len(rest_a, da);
            lemma_run_len(rest_b, db);
            assert(rest_a.take(a_end - i) =~= a@.subrange(i as int, a_end as int));
            assert(rest_b.take(b_end - j) =~= b@.subrange(j as int, b_end as int));
            assert(rest_a.skip(a_end - i) =~= a@.skip(a_end as int));
            assert(rest_b.skip(b_end - j) =~= b@.skip(b_end as int));
            assert forall|k: int| i <= k < a_end implies is_digit(#[trigger] a@[k]) == da by {
                assert(rest_a[k - i] == a@[k]);
            }
            assert forall|k: int| j <= k < b_end implies is_digit(#[trigger] b@[k]) == db by {
                assert(rest_b[k - j] == b@[k]);
            }
        }
        let first = if da && db {
            let x = parse_run(a, i, a_end);
            let y = parse_run(b, j, b_end);
            if x < y {
                NaturalOrder::Less
            } else if x > y {
                NaturalOrder::Greater
            } else {
                NaturalOrder::Equal
            }
        } else if !da && !db {
            lex_compare(a, i, a_end, b, j, b_end)
        } else if da {
            NaturalOrder::Less
        } else {
            NaturalOrder::Greater
        };
        match first {
            NaturalOrder::Equal => {
                i = a_end;
                j = b_end;
            },
            NaturalOrder::Less => {
                return NaturalOrder::Less;
            },
            NaturalOrder::Greater => {
                return NaturalOrder::Greater;
            },
        }
    }
}

/// The lower-case form of a text, as `str::to_lowercase` gives it.
pub uninterp spec fn lowercase_of(text: Seq<char>) -> Seq<char>;

/// `str::to_lowercase`: the lower-case form of the text.
#[verifier::external_body]
pub(crate) fn to_lowercase(text: &str) -> (lower: String)
    ensures
        lower@ == lowercase_of(text@),
{
    text.to_lowercase()
}

/// The natural order of two names, whatever the case of their letters.
pub fn natural_order_of_names(a: &str, b: &str) -> (order: NaturalOrder)
    ensures
        order == natural_order(
            encode_utf8(lowercase_of(a@)),
            encode_utf8(lowercase_of(b@)),
        ),
{
    let lower_a = to_lowercase(a);
    let lower_b = to_lowercase(b);
    natural_order_of(lower_a.as_str().as_bytes(), lower_b.as_str().as_bytes())
}

/// The order of two entries of a listing whose names are given in lower
/// case: directories come first, and entries of one sort in the natural
/// order of their names.
pub open spec fn entry_order(a_is_dir: bool, a: Seq<u8>, b_is_dir: bool, b: Seq<u8>)
    -> NaturalOrder {
    if a_is_dir && !b_is_dir {
        NaturalOrder::Less
    } else if !a_is_dir && b_is_dir {
        NaturalOrder::Greater
    } else {
        natural_order(a, b)
    }
}

/// The order of two entries of a listing whose names are given in lower
/// case.
pub fn entry_order_of(a_is_dir: bool, a: &[u8], b_is_dir: bool, b: &[u8]) -> (order:
    NaturalOrder)
    ensures
        order == entry_order(a_is_dir, a@, b_is_dir, b@),
{
    if a_is_dir && !b_is_dir {
        NaturalOrder::Less
    } else if !a_is_dir && b_is_dir {
        NaturalOrder::Greater
    } else {
        natural_order_of(a, b)
    }
}

fn is_text(text: &str, literal: &str) -> (b: bool)
    ensures
        b == (text@ == literal@),
{
    let a = String::from_str(text);
    let l = String::from_str(literal);
    a == l
}

/// The extensions of the kind "pdf".
pub open spec fn is_pdf_extension(ext: Seq<char>) -> bool {
    ext == "pdf"@
}

/// The extensions of the kind "document".
pub open spec fn is_document_extension(ext: Seq<char>) -> bool {
    ext == "doc"@ || ext == "docx"@ || ext == "txt"@ || ext == "md"@ || ext == "rtf"@ || ext == "odt"@
}

/// The extensions of the kind "image".
pub open spec fn is_image_extension(ext: Seq<char>) -> bool {
    ext == "jpg"@ || ext == "jpeg"@ || ext == "png"@ || ext == "gif"@ || ext == "webp"@ || ext == "svg"@ || ext == "bmp"@ || ext == "ico"@
}

/// The extensions of the kind "video".
pub open spec fn is_video_extension(ext: Seq<char>) -> bool {
    ext == "mp4"@ || ext == "mov"@ || ext == "mkv"@ || ext == "avi"@ || ext == "wmv"@ || ext == "flv"@ || ext == "webm"@
}

/// The extensions of the kind "audio".
pub open spec fn is_audio_extension(ext: Seq<char>) -> bool {
    ext == "mp3"@ || ext == "wav"@ || ext == "flac"@ || ext == "aac"@ || ext == "ogg"@ || ext == "m4a"@
}

/// The extensions of the kind "archive".
pub open spec fn is_archive_extension(ext: Seq<char>) -> bool {
    ext == "zip"@ || ext == "rar"@ || ext == "7z"@ || ext == "tar"@ || ext == "gz"@ || ext == "bz2"@ || ext == "xz"@
}

/// The extensions of the kind "code".
pub open spec fn is_code_extension(ext: Seq<char>) -> bool {
    ext == "js"@ || ext == "ts"@ || ext == "jsx"@ || ext == "tsx"@ || ext == "rs"@ || ext == "py"@ || ext == "go"@ || ext == "java"@ || ext == "c"@ || ext == "cpp"@ || ext == "h"@ || ext == "hpp"@ || ext == "html"@ || ext == "css"@ || ext == "scss"@ || ext == "json"@ || ext == "yaml"@ || ext == "toml"@ || ext == "xml"@
}

/// The extensions of the kind "executable".
pub open spec fn is_executable_extension(ext: Seq<char>) -> bool {
    ext == "exe"@ || ext == "msi"@ || ext == "dmg"@ || ext == "app"@ || ext == "deb"@ || ext == "rpm"@
}

/// The extensions of the kind "spreadsheet".
pub open spec fn is_spreadsheet_extension(ext: Seq<char>) -> bool {
    ext == "xls"@ || ext == "xlsx"@ || ext == "csv"@
}

/// The extensions of the kind "presentation".
pub open spec fn is_presentation_extension(ext: Seq<char>) -> bool {
    ext == "ppt"@ || ext == "pptx"@ || ext == "key"@
}

fn has_pdf_extension(ext: &str) -> (b: bool)
    ensures
        b == is_pdf_extension(ext@),
{
    is_text(ext, "pdf")
}

fn has_document_extension(ext: &str) -> (b: bool)
    ensures
        b == is_document_extension(ext@),
{
    is_text(ext, "doc") || is_text(ext, "docx") || is_text(ext, "txt") || is_text(ext, "md") || is_text(ext, "rtf") || is_text(ext, "odt")
}

fn has_image_extension(ext: &str) -> (b: bool)
    ensures
        b == is_image_extension(ext@),
{
    is_text(ext, "jpg") || is_text(ext, "jpeg") || is_text(ext, "png") || is_text(ext, "gif") || is_text(ext, "webp") || is_text(ext, "svg") || is_text(ext, "bmp") || is_text(ext, "ico")
}

fn has_video_extension(ext: &str) -> (b: bool)
    ensures
        b == is_video_extension(ext@),
{
    is_text(ext, "mp4") || is_text(ext, "mov") || is_text(ext, "mkv") || is_text(ext, "avi") || is_text(ext, "wmv") || is_text(ext, "flv") || is_text(ext, "webm")
}

fn has_audio_extension(ext: &str) -> (b: bool)
    ensures
        b == is_audio_extension(ext@),
{
    is_text(ext, "mp3") || is_text(ext, "wav") || is_text(ext, "flac") || is_text(ext, "aac") || is_text(ext, "ogg") || is_text(ext, "m4a")
}

fn has_archive_extension(ext: &str) -> (b: bool)
    ensures
        b == is_archive_extension(ext@),
{
    is_text(ext, "zip") || is_text(ext, "rar") || is_text(ext, "7z") || is_text(ext, "tar") || is_text(ext, "gz") || is_text(ext, "bz2") || is_text(ext, "xz")
}

fn has_code_extension(ext: &str) -> (b: bool)
    ensures
        b == is_code_extension(ext@),
{
    is_text(ext, "js") || is_text(ext, "ts") || is_text(ext, "jsx") || is_text(ext, "tsx") || is_text(ext, "rs") || is_text(ext, "py") || is_text(ext, "go") || is_text(ext, "java") || is_text(ext, "c") || is_text(ext, "cpp") || is_text(ext, "h") || is_text(ext, "hpp") || is_text(ext, "html") || is_text(ext, "css") || is_text(ext, "scss") || is_text(ext, "json") || is_text(ext, "yaml") || is_text(ext, "toml") || is_text(ext, "xml")
}

fn has_executable_extension(ext: &str) -> (b: bool)
    ensures
        b == is_executable_extension(ext@),
{
    is_text(ext, "exe") || is_text(ext, "msi") || is_text(ext, "dmg") || is_text(ext, "app") || is_text(ext, "deb") || is_text(ext, "rpm")
}

fn has_spreadsheet_extension(ext: &str) -> (b: bool)
    ensures
        b == is_spreadsheet_extension(ext@),
{
    is_text(ext, "xls") || is_text(ext, "xlsx") || is_text(ext, "csv")
}

fn has_presentation_extension(ext: &str) -> (b: bool)
    ensures
        b == is_presentation_extension(ext@),
{
    is_text(ext, "ppt") || is_text(ext, "pptx") || is_text(ext, "key")
}

/// The kind of an entry: a folder, or the kind that goes with the extension
/// of the file's name, given in lower case.
pub open spec fn file_type_text(extension: Option<Seq<char>>, is_dir: bool) -> Seq<char> {
    if is_dir {
        "folder"@
    } else {
        match extension {
            None => "file"@,
            Some(ext) => if is_pdf_extension(ext) {
                "pdf"@
            } else if is_document_extension(ext) {
                "document"@
            } else if is_image_extension(ext) {
                "image"@
            } else if is_video_extension(ext) {
                "video"@
            } else if is_audio_extension(ext) {
                "audio"@
            } else if is_archive_extension(ext) {
                "archive"@
            } else if is_code_extension(ext) {
                "code"@
            } else if is_executable_extension(ext) {
                "executable"@
            } else if is_spreadsheet_extension(ext) {
                "spreadsheet"@
            } else if is_presentation_extension(ext) {
                "presentation"@
            } else {
                "file"@
            },
        }
    }
}

/// The kind of an entry: a folder, or the kind that goes with the extension
/// of the file's name, given in lower case.
pub fn file_type_of(extension: Option<&str>, is_dir: bool) -> (kind: &'static str)
    ensures
        kind@ == file_type_text(
            match extension {
                Some(e) => Some(e@),
                None => None,
            },
            is_dir,
        ),
{
    if is_dir {
        return "folder";
    }
    match extension {
        None => "file",
        Some(ext) => if has_pdf_extension(ext) {
                "pdf"
            } else if has_document_extension(ext) {
                "document"
            } else if has_image_extension(ext) {
                "image"
            } else if has_video_extension(ext) {
                "video"
            } else if has_audio_extension(ext) {
                "audio"
            } else if has_archive_extension(ext) {
                "archive"
            } else if has_code_extension(ext) {
                "code"
            } else if has_executable_extension(ext) {
                "executable"
            } else if has_spreadsheet_extension(ext) {
                "spreadsheet"
            } else if has_presentation_extension(ext) {
                "presentation"
            } else {
                "file"
            },
    }
}

} // verus!
